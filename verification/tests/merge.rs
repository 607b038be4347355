use compose_lens::diagnostic::Severity;
use compose_lens::merge::{
    authored, merge_documents, EntrySyntax, MergeDocument, MergeOperation, MergedEntry, MergedScalar, MergedScalarKind,
    MergedValue, MergedValueKind, MergeResult, NullStyle,
};
use compose_lens::source::{SourceId, SourceSpan};

fn at(source: u32, start: usize) -> SourceSpan {
    SourceSpan::from_valid_offsets(SourceId::new(source), start, start + 1)
}

fn scalar(text: &str, span: SourceSpan) -> MergedValue {
    authored(
        MergedValueKind::Scalar(MergedScalar::new(text.to_owned(), text.to_owned(), MergedScalarKind::String, false)),
        span,
    )
}

fn secret(text: &str, span: SourceSpan) -> MergedValue {
    authored(
        MergedValueKind::Scalar(MergedScalar::new(text.to_owned(), text.to_owned(), MergedScalarKind::String, true)),
        span,
    )
}

fn mapping(entries: Vec<(&str, MergedValue)>, span: SourceSpan) -> MergedValue {
    let entries = entries
        .into_iter()
        .map(|(key, value)| MergedEntry::new(key.to_owned(), vec![span], EntrySyntax::Mapping, value))
        .collect();
    authored(MergedValueKind::Mapping(entries), span)
}

fn sequence(values: Vec<MergedValue>, span: SourceSpan) -> MergedValue {
    authored(MergedValueKind::Sequence(values), span)
}

fn tagged(tag: &str, value: MergedValue, span: SourceSpan) -> MergedValue {
    authored(
        MergedValueKind::Tagged {
            tag: tag.to_owned(),
            value: Box::new(value),
        },
        span,
    )
}

fn service(source: u32, fields: Vec<(&str, MergedValue)>) -> MergedValue {
    mapping(vec![("services", mapping(vec![("web", mapping(fields, at(source, 2)))], at(source, 1)))], at(source, 0))
}

fn merge_two(first: MergedValue, second: MergedValue) -> MergeResult {
    merge_documents(
        vec![
            MergeDocument::new(SourceId::new(1), at(1, 0), Some(first)),
            MergeDocument::new(SourceId::new(2), at(2, 0), Some(second)),
        ],
        "/project".to_owned(),
        Vec::new(),
    )
}

fn texts(value: &MergedValue) -> Vec<String> {
    value
        .as_sequence()
        .unwrap_or(&[])
        .iter()
        .map(|item| item.as_scalar().map(|s| s.value().to_owned()).unwrap_or_default())
        .collect()
}

#[test]
fn later_scalars_replace_earlier_ones_and_keep_both_sources() {
    let result = merge_two(
        service(1, vec![("image", scalar("app:1", at(1, 10)))]),
        service(2, vec![("image", scalar("app:2", at(2, 10)))]),
    );
    assert!(result.is_valid());
    let project = result.project().expect("project");
    assert_eq!(project.base_directory(), "/project");
    assert_eq!(project.source_ids(), &[SourceId::new(1), SourceId::new(2)]);
    let image = project.value(&["services", "web", "image"]).expect("image");
    assert_eq!(image.as_scalar().map(MergedScalar::value), Some("app:2"));
    assert_eq!(image.provenance().operation(), MergeOperation::Replaced);
    assert_eq!(image.provenance().sources(), &[at(1, 10), at(2, 10)]);
    assert_eq!(image.provenance().effective_source(), Some(at(2, 10)));
    let web = project.value(&["services", "web"]).expect("web");
    assert_eq!(web.provenance().operation(), MergeOperation::Merged);
    assert!(project.value(&["services", "db"]).is_none());
    assert!(project.value(&["services", "web", "image", "deeper"]).is_none());
}

#[test]
fn new_keys_are_added_after_existing_ones() {
    let result = merge_two(
        service(1, vec![("image", scalar("app", at(1, 10)))]),
        service(2, vec![("user", scalar("root", at(2, 10))), ("image", scalar("app", at(2, 11)))]),
    );
    let project = result.project().expect("project");
    let web = project.value(&["services", "web"]).expect("web");
    let keys: Vec<&str> = web.as_mapping().expect("mapping").iter().map(MergedEntry::key).collect();
    assert_eq!(keys, vec!["image", "user"]);
    let user = web.get("user").expect("user");
    assert_eq!(user.provenance().operation(), MergeOperation::Added);
}

#[test]
fn ordinary_sequences_are_appended() {
    let result = merge_two(
        service(1, vec![("dns", sequence(vec![scalar("1.1.1.1", at(1, 11))], at(1, 10)))]),
        service(2, vec![("dns", sequence(vec![scalar("8.8.8.8", at(2, 11))], at(2, 10)))]),
    );
    let project = result.project().expect("project");
    let dns = project.value(&["services", "web", "dns"]).expect("dns");
    assert_eq!(texts(dns), vec!["1.1.1.1", "8.8.8.8"]);
    assert_eq!(dns.provenance().operation(), MergeOperation::Appended);
    let items = dns.as_sequence().expect("sequence");
    assert_eq!(items[0].provenance().operation(), MergeOperation::Authored);
    assert_eq!(items[1].provenance().operation(), MergeOperation::Added);
}

#[test]
fn shell_commands_are_replaced_as_a_whole() {
    let result = merge_two(
        service(1, vec![("command", sequence(vec![scalar("run", at(1, 11)), scalar("--a", at(1, 12))], at(1, 10)))]),
        service(2, vec![("command", sequence(vec![scalar("serve", at(2, 11))], at(2, 10)))]),
    );
    let project = result.project().expect("project");
    let command = project.value(&["services", "web", "command"]).expect("command");
    assert_eq!(texts(command), vec!["serve"]);
    assert_eq!(command.provenance().operation(), MergeOperation::Replaced);
}

#[test]
fn reset_tags_clear_and_override_tags_replace() {
    let result = merge_two(
        service(
            1,
            vec![
                ("dns", sequence(vec![scalar("1.1.1.1", at(1, 11))], at(1, 10))),
                ("labels", mapping(vec![("a", scalar("1", at(1, 13)))], at(1, 12))),
            ],
        ),
        service(
            2,
            vec![
                ("dns", tagged("!reset", sequence(vec![], at(2, 11)), at(2, 10))),
                ("labels", tagged("!override", mapping(vec![("b", scalar("2", at(2, 14)))], at(2, 13)), at(2, 12))),
            ],
        ),
    );
    let project = result.project().expect("project");
    let dns = project.value(&["services", "web", "dns"]).expect("dns");
    assert_eq!(dns.as_sequence().map(<[MergedValue]>::len), Some(0));
    assert_eq!(dns.provenance().operation(), MergeOperation::Reset);
    let labels = project.value(&["services", "web", "labels"]).expect("labels");
    assert!(labels.get("a").is_none());
    assert_eq!(labels.get("b").and_then(MergedValue::as_scalar).map(MergedScalar::value), Some("2"));
    assert_eq!(labels.provenance().operation(), MergeOperation::Override);
}

#[test]
fn tags_in_the_first_document_are_applied() {
    let result = merge_documents(
        vec![MergeDocument::new(
            SourceId::new(1),
            at(1, 0),
            Some(service(1, vec![("dns", tagged("!reset", scalar("x", at(1, 11)), at(1, 10)))])),
        )],
        "/p".to_owned(),
        Vec::new(),
    );
    let project = result.project().expect("project");
    let dns = project.value(&["services", "web", "dns"]).expect("dns");
    assert!(matches!(dns.kind(), MergedValueKind::Null(NullStyle::Empty)));
}

#[test]
fn environment_lists_and_mappings_merge_by_key() {
    let result = merge_two(
        service(
            1,
            vec![("environment", sequence(vec![scalar("A=1", at(1, 11)), scalar("B", at(1, 12))], at(1, 10)))],
        ),
        service(2, vec![("environment", mapping(vec![("A", scalar("2", at(2, 11)))], at(2, 10)))]),
    );
    let project = result.project().expect("project");
    let env = project.value(&["services", "web", "environment"]).expect("environment");
    let entries = env.as_mapping().expect("mapping");
    assert_eq!(entries.len(), 2);
    assert_eq!(entries[0].key(), "A");
    assert_eq!(entries[0].syntax(), EntrySyntax::Mapping);
    assert_eq!(entries[0].value().as_scalar().map(MergedScalar::value), Some("2"));
    assert_eq!(entries[1].key(), "B");
    assert_eq!(entries[1].syntax(), EntrySyntax::ListKeyOnly);
    assert!(matches!(entries[1].value().kind(), MergedValueKind::Null(NullStyle::Empty)));
}

#[test]
fn ports_merge_by_address_target_and_protocol() {
    let result = merge_two(
        service(1, vec![("ports", sequence(vec![scalar("8080:80", at(1, 11))], at(1, 10)))]),
        service(
            2,
            vec![("ports", sequence(vec![scalar("8080:80/tcp", at(2, 11)), scalar("9090:90", at(2, 12))], at(2, 10)))],
        ),
    );
    let project = result.project().expect("project");
    let ports = project.value(&["services", "web", "ports"]).expect("ports");
    assert_eq!(texts(ports), vec!["8080:80/tcp", "9090:90"]);
    assert_eq!(ports.provenance().operation(), MergeOperation::Merged);
}

#[test]
fn configs_merge_by_target_or_source() {
    let result = merge_two(
        service(
            1,
            vec![("configs", sequence(vec![mapping(vec![("source", scalar("app", at(1, 12)))], at(1, 11))], at(1, 10)))],
        ),
        service(
            2,
            vec![(
                "configs",
                sequence(
                    vec![
                        mapping(
                            vec![("source", scalar("app", at(2, 12))), ("mode", scalar("0440", at(2, 13)))],
                            at(2, 11),
                        ),
                        scalar("other", at(2, 14)),
                    ],
                    at(2, 10),
                ),
            )],
        ),
    );
    let project = result.project().expect("project");
    let configs = project.value(&["services", "web", "configs"]).expect("configs");
    let items = configs.as_sequence().expect("sequence");
    assert_eq!(items.len(), 2);
    assert_eq!(items[0].get("mode").and_then(MergedValue::as_scalar).map(MergedScalar::value), Some("0440"));
    assert_eq!(items[1].as_scalar().map(MergedScalar::value), Some("other"));
}

#[test]
fn documents_without_mapping_roots_are_reported() {
    let result = merge_documents(
        vec![
            MergeDocument::new(SourceId::new(1), at(1, 0), Some(scalar("not a mapping", at(1, 0)))),
            MergeDocument::new(SourceId::new(2), at(2, 0), None),
        ],
        "/p".to_owned(),
        Vec::new(),
    );
    assert!(result.project().is_none());
    assert_eq!(result.diagnostics().len(), 1);
    assert_eq!(result.diagnostics()[0].code().as_str(), "compose.merge.invalid-document-root");
    assert_eq!(result.diagnostics()[0].severity(), Severity::Error);
    assert_eq!(result.diagnostics()[0].labels()[0].span(), at(1, 0));
    assert!(!result.is_valid());
}

#[test]
fn sensitivity_is_reported_from_any_descendant() {
    let value = service(1, vec![("environment", mapping(vec![("TOKEN", secret("x", at(1, 11)))], at(1, 10)))]);
    assert!(value.is_sensitive());
    let plain = service(1, vec![("image", scalar("x", at(1, 10)))]);
    assert!(!plain.is_sensitive());
}
