use compose_lens::merge::{MergeScalarKind, MergeSyntaxEntry, MergeSyntaxScalar, MergeSyntaxValue};
use compose_lens::model::dependency::{DependencyCondition, DependsOn};
use compose_lens::model::document::ComposeDocument;
use compose_lens::model::value::BooleanValue;
use compose_lens::model::Located;
use compose_lens::source::{SourceId, SourceSpan};

fn sp(start: usize, end: usize) -> SourceSpan {
    SourceSpan::from_valid_offsets(SourceId::new(1), start, end)
}

fn scalar(text: &str, kind: MergeScalarKind, start: usize) -> MergeSyntaxValue {
    MergeSyntaxValue::Scalar(MergeSyntaxScalar::new(text.to_owned(), text.to_owned(), kind, sp(start, start + text.len())))
}

fn string(text: &str, start: usize) -> MergeSyntaxValue {
    scalar(text, MergeScalarKind::String, start)
}

fn entry(key: &str, start: usize, value: MergeSyntaxValue) -> MergeSyntaxEntry {
    MergeSyntaxEntry::new(Located::new(key.to_owned(), sp(start, start + key.len())), value)
}

fn mapping(entries: Vec<MergeSyntaxEntry>, start: usize, end: usize) -> MergeSyntaxValue {
    MergeSyntaxValue::Mapping { entries, span: sp(start, end) }
}

fn sequence(values: Vec<MergeSyntaxValue>, start: usize, end: usize) -> MergeSyntaxValue {
    MergeSyntaxValue::Sequence { values, span: sp(start, end) }
}

fn codes(diagnostics: &[compose_lens::diagnostic::Diagnostic]) -> Vec<&str> {
    diagnostics.iter().map(|d| d.code().as_str()).collect()
}

#[test]
fn parse_reads_services_fields_extensions_and_unknown_fields() {
    let web = mapping(
        vec![
            entry("image", 20, string("nginx:1.27", 27)),
            entry("container_name", 40, string("frontend", 56)),
            entry("init", 70, scalar("true", MergeScalarKind::Boolean, 76)),
            entry("tty", 85, string("${TTY}", 90)),
            entry("group_add", 100, sequence(vec![string("audio", 112), mapping(Vec::new(), 120, 122)], 110, 125)),
            entry("depends_on", 130, sequence(vec![string("db", 143)], 142, 146)),
            entry("x-owner", 150, string("team", 159)),
            entry("bogus", 170, string("1", 177)),
            entry("image", 180, string("other", 187)),
        ],
        20,
        195,
    );
    let db = mapping(
        vec![entry(
            "depends_on",
            220,
            mapping(
                vec![entry(
                    "cache",
                    234,
                    mapping(
                        vec![
                            entry("condition", 242, string("service_healthy", 253)),
                            entry("required", 270, scalar("false", MergeScalarKind::Boolean, 280)),
                            entry("x-note", 290, string("n", 298)),
                            entry("weird", 300, string("w", 307)),
                        ],
                        242,
                        310,
                    ),
                )],
                234,
                310,
            ),
        )],
        220,
        310,
    );
    let root = mapping(
        vec![
            entry("name", 0, string("demo", 6)),
            entry(
                "services",
                11,
                mapping(vec![entry("web", 15, web), entry("db", 210, db), entry("worker", 320, string("x", 328))], 15, 330),
            ),
            entry("x-shared", 340, string("s", 350)),
            entry("colour", 360, string("blue", 368)),
        ],
        0,
        380,
    );
    let parse = ComposeDocument::parse(SourceId::new(1), sp(0, 400), 1, Some(&root));
    assert_eq!(
        codes(parse.diagnostics()),
        vec!["compose.model.expected-scalar", "compose.model.duplicate-field", "compose.model.expected-mapping"]
    );
    let document = parse.document().expect("a mapping root gives a document");
    assert_eq!(document.name().map(|n| n.value().as_str()), Some("demo"));
    assert_eq!(document.services().len(), 2);
    let web = &document.services()[0];
    assert_eq!(web.name().value(), "web");
    assert_eq!(web.image().map(|i| i.value().raw()), Some("nginx:1.27"));
    assert_eq!(web.container_name().map(|n| n.value().as_str()), Some("frontend"));
    assert_eq!(web.init().map(|b| b.value().clone()), Some(BooleanValue::Literal(true)));
    assert_eq!(web.tty().map(|b| b.value().clone()), Some(BooleanValue::Expression("${TTY}".to_owned())));
    assert_eq!(web.group_add().len(), 1);
    assert_eq!(web.group_add()[0].value(), "audio");
    match web.depends_on() {
        Some(DependsOn::Short { services, .. }) => assert_eq!(services[0].value(), "db"),
        other => panic!("expected a short dependency list, got {other:?}"),
    }
    assert_eq!(web.extension_fields().len(), 1);
    assert_eq!(web.extension_fields()[0].name().value(), "x-owner");
    assert_eq!(web.unknown_fields().len(), 1);
    assert_eq!(web.unknown_fields()[0].name().value(), "bogus");
    let db = &document.services()[1];
    match db.depends_on() {
        Some(DependsOn::Long { services, .. }) => {
            assert_eq!(services.len(), 1);
            assert_eq!(services[0].service().value(), "cache");
            assert_eq!(services[0].condition().map(|c| c.value().clone()), Some(DependencyCondition::ServiceHealthy));
            assert_eq!(services[0].required().map(|b| b.value().clone()), Some(BooleanValue::Literal(false)));
            assert_eq!(services[0].extension_fields().len(), 1);
            assert_eq!(services[0].unknown_fields()[0].name().value(), "weird");
        }
        other => panic!("expected a long dependency mapping, got {other:?}"),
    }
    assert_eq!(document.extension_fields()[0].name().value(), "x-shared");
    assert_eq!(document.unknown_fields()[0].name().value(), "colour");
}

#[test]
fn parse_reports_roots_that_are_missing_or_not_mappings() {
    let empty = ComposeDocument::parse(SourceId::new(1), sp(0, 0), 0, None);
    assert!(empty.document().is_none());
    assert_eq!(codes(empty.diagnostics()), vec!["compose.document.expected-mapping"]);
    assert_eq!(empty.diagnostics()[0].labels()[0].message(), "empty document");
    let list = sequence(Vec::new(), 0, 2);
    let not_mapping = ComposeDocument::parse(SourceId::new(1), sp(0, 10), 2, Some(&list));
    assert!(not_mapping.document().is_none());
    assert_eq!(
        codes(not_mapping.diagnostics()),
        vec!["compose.document.multiple-documents", "compose.document.expected-mapping"]
    );
    assert_eq!(not_mapping.diagnostics()[1].labels()[0].message(), "not a mapping");
}

#[test]
fn parse_reports_unknown_conditions_and_bad_forms() {
    let service = mapping(
        vec![
            entry("depends_on", 0, mapping(vec![entry("db", 12, mapping(vec![entry("condition", 16, string("later", 27))], 16, 32))], 12, 32)),
            entry("read_only", 40, string("maybe", 51)),
            entry("profiles", 60, string("one", 70)),
        ],
        0,
        80,
    );
    let root = mapping(vec![entry("services", 0, mapping(vec![entry("app", 2, service)], 2, 90))], 0, 95);
    let parse = ComposeDocument::parse(SourceId::new(1), sp(0, 95), 1, Some(&root));
    assert_eq!(
        codes(parse.diagnostics()),
        vec!["compose.dependencies.invalid-condition", "compose.model.expected-boolean", "compose.model.expected-sequence"]
    );
    assert_eq!(parse.diagnostics()[1].message(), "service read_only must be a boolean or interpolation expression");
    assert_eq!(parse.diagnostics()[2].message(), "service profiles must be a sequence");
    let app = &parse.document().unwrap().services()[0];
    match app.depends_on() {
        Some(DependsOn::Long { services, .. }) => {
            assert_eq!(services[0].condition().map(|c| c.value().clone()), Some(DependencyCondition::Other("later".to_owned())));
        }
        other => panic!("expected a long dependency mapping, got {other:?}"),
    }
    assert!(app.read_only().is_none());
}

#[test]
fn parse_reads_command_forms_and_interpolation_filters_plain_scalars() {
    let service = mapping(
        vec![entry("command", 0, sequence(vec![string("serve", 10), string("--port", 17)], 9, 24))],
        0,
        30,
    );
    let root = mapping(vec![entry("services", 0, mapping(vec![entry("api", 2, service)], 2, 40))], 0, 45);
    let parse = ComposeDocument::parse(SourceId::new(1), sp(0, 45), 1, Some(&root));
    assert!(parse.diagnostics().is_empty());
    let api = &parse.document().unwrap().services()[0];
    match api.command() {
        Some(compose_lens::model::command::Command::List { values, .. }) => {
            let texts: Vec<&str> = values.iter().map(|v| v.value().as_str()).collect();
            assert_eq!(texts, vec!["serve", "--port"]);
        }
        other => panic!("expected an exec-form command, got {other:?}"),
    }
    let env = compose_lens::interpolation::EmptyEnvironment;
    let scalars = vec![Located::new("plain".to_owned(), sp(0, 5)), Located::new("${X:-y}".to_owned(), sp(6, 13))];
    let document = compose_lens::interpolation::interpolate_document(SourceId::new(1), &scalars, &env);
    assert_eq!(document.values().len(), 1);
    assert_eq!(document.values()[0].original(), "${X:-y}");
    assert_eq!(document.values()[0].resolved(), "y");
}

#[test]
fn parse_classifies_hostnames() {
    let good = mapping(vec![entry("hostname", 0, string("db.internal", 10))], 0, 25);
    let bad = mapping(vec![entry("hostname", 30, string("-bad-", 40))], 30, 50);
    let number = mapping(vec![entry("hostname", 60, scalar("12", MergeScalarKind::Number, 70))], 60, 75);
    let root = mapping(
        vec![entry(
            "services",
            0,
            mapping(vec![entry("a", 1, good), entry("b", 29, bad), entry("c", 59, number)], 1, 80),
        )],
        0,
        85,
    );
    let parse = ComposeDocument::parse(SourceId::new(1), sp(0, 85), 1, Some(&root));
    assert_eq!(codes(parse.diagnostics()), vec!["compose.hostname.invalid-value", "compose.hostname.expected-string"]);
    assert_eq!(
        parse.diagnostics()[0].notes(),
        ["each label must start and end with an ASCII letter or digit".to_owned()]
    );
    let services = parse.document().unwrap().services();
    assert_eq!(services[0].hostname().map(|h| h.raw().value().as_str()), Some("db.internal"));
    assert!(services[1].hostname().is_some());
    assert!(services[2].hostname().is_none());
}

#[test]
fn parse_reads_config_and_secret_definitions() {
    let configs = mapping(
        vec![
            entry("app", 10, mapping(vec![entry("file", 15, string("./app.conf", 21)), entry("x-tag", 35, string("t", 42))], 15, 45)),
            entry("empty", 50, MergeSyntaxValue::Empty(sp(56, 56))),
            entry("broken", 60, string("oops", 68)),
            entry("app", 75, MergeSyntaxValue::Empty(sp(79, 79))),
        ],
        10,
        80,
    );
    let secrets = mapping(
        vec![entry(
            "token",
            90,
            mapping(
                vec![entry("external", 97, scalar("true", MergeScalarKind::Boolean, 107)), entry("mode", 112, string("x", 118))],
                97,
                120,
            ),
        )],
        90,
        120,
    );
    let root = mapping(vec![entry("configs", 0, configs), entry("secrets", 82, secrets)], 0, 125);
    let parse = ComposeDocument::parse(SourceId::new(1), sp(0, 125), 1, Some(&root));
    assert_eq!(
        codes(parse.diagnostics()),
        vec!["compose.resource.expected-mapping-or-null", "compose.model.duplicate-field"]
    );
    let document = parse.document().unwrap();
    assert_eq!(document.configs().len(), 2);
    assert_eq!(document.configs()[0].name().value(), "app");
    assert_eq!(document.configs()[0].file().map(|f| f.value().as_str()), Some("./app.conf"));
    assert_eq!(document.configs()[0].extension_fields().len(), 1);
    assert_eq!(document.configs()[1].name().value(), "empty");
    assert_eq!(document.secrets().len(), 1);
    assert_eq!(document.secrets()[0].external().map(|b| b.value().clone()), Some(BooleanValue::Literal(true)));
    assert_eq!(document.secrets()[0].unknown_fields()[0].name().value(), "mode");
}

#[test]
fn parse_classifies_restart_policies_and_grace_periods() {
    let service = mapping(
        vec![
            entry("restart", 0, string("sometimes", 9)),
            entry("stop_grace_period", 20, string("10x", 39)),
        ],
        0,
        45,
    );
    let ok = mapping(
        vec![entry("restart", 50, string("on-failure:3", 59)), entry("stop_grace_period", 72, string("1m30s", 91))],
        50,
        97,
    );
    let root = mapping(vec![entry("services", 0, mapping(vec![entry("a", 1, service), entry("b", 49, ok)], 1, 100))], 0, 101);
    let parse = ComposeDocument::parse(SourceId::new(1), sp(0, 101), 1, Some(&root));
    assert_eq!(
        codes(parse.diagnostics()),
        vec!["compose.restart.invalid-policy", "compose.lifecycle.invalid-stop-grace-period"]
    );
    let services = parse.document().unwrap().services();
    assert!(!services[0].restart().unwrap().is_valid());
    assert!(services[1].restart().unwrap().is_valid());
    assert_eq!(services[1].stop_grace_period().map(|p| p.span()), Some(sp(91, 96)));
}
