use compose_lens::diagnostic::Severity;
use compose_lens::interpolation::{interpolate_document, MapEnvironment};
use compose_lens::loader::ProjectInterpolation;
use compose_lens::merge::{
    merge_project, MergeScalarKind, MergeSourceDocument, MergeSyntaxEntry, MergeSyntaxScalar, MergeSyntaxValue,
};
use compose_lens::model::Located;
use compose_lens::source::{SourceId, SourceSpan};

fn span(source: u32, start: usize, end: usize) -> SourceSpan {
    SourceSpan::from_valid_offsets(SourceId::new(source), start, end)
}

fn entry(key: &str, source: u32, start: usize, value: MergeSyntaxValue) -> MergeSyntaxEntry {
    MergeSyntaxEntry::new(Located::new(key.to_owned(), span(source, start, start + key.len())), value)
}

fn text(value: &str, source: u32, start: usize) -> MergeSyntaxValue {
    MergeSyntaxValue::Scalar(MergeSyntaxScalar::new(
        value.to_owned(),
        value.to_owned(),
        MergeScalarKind::String,
        span(source, start, start + value.len()),
    ))
}

fn document(source: u32) -> MergeSourceDocument {
    let root = MergeSyntaxValue::Mapping {
        entries: vec![
            entry("image", source, 0, text("${IMAGE}", source, 7)),
            entry("alias", source, 20, MergeSyntaxValue::Alias { name: "base".to_owned(), span: span(source, 27, 32) }),
        ],
        span: span(source, 0, 40),
    };
    MergeSourceDocument::new(SourceId::new(source), span(source, 0, 40), Some(root))
}

#[test]
fn overlays_apply_before_merge() {
    let mut env = MapEnvironment::new();
    env.insert_sensitive("IMAGE".to_owned(), "registry/app".to_owned());
    let overlay = interpolate_document(SourceId::new(1), &[Located::new("${IMAGE}".to_owned(), span(1, 7, 15))], &env);
    let foreign = interpolate_document(SourceId::new(9), &[], &env);
    let interpolation = ProjectInterpolation::from_documents(vec![overlay, foreign]);
    let result = merge_project(vec![document(1), document(2)], "/srv".to_owned(), Vec::new(), Some(&interpolation));
    let project = result.project().expect("merged");
    let image = project.root().get("image").and_then(|v| v.as_scalar()).expect("image");
    assert_eq!(image.value(), "${IMAGE}");
    let codes: Vec<&str> = result.diagnostics().iter().map(|d| d.code().as_str()).collect();
    assert_eq!(
        codes,
        vec![
            "compose.merge.unresolved-alias",
            "compose.merge.interpolation-project-mismatch",
            "compose.merge.unresolved-alias",
            "compose.merge.interpolation-project-mismatch",
        ]
    );
    assert_eq!(result.diagnostics()[0].severity(), Severity::Warning);
    assert_eq!(result.diagnostics()[1].labels()[0].span(), span(2, 0, 40));
    assert!(result.diagnostics()[3].labels().is_empty());
    assert_eq!(project.source_ids(), [SourceId::new(1), SourceId::new(2)]);
}

#[test]
fn overlay_values_replace_authored_scalars() {
    let mut env = MapEnvironment::new();
    env.insert_sensitive("IMAGE".to_owned(), "registry/app".to_owned());
    let overlay = interpolate_document(SourceId::new(1), &[Located::new("${IMAGE}".to_owned(), span(1, 7, 15))], &env);
    let interpolation = ProjectInterpolation::from_documents(vec![overlay]);
    let result = merge_project(vec![document(1)], "/srv".to_owned(), Vec::new(), Some(&interpolation));
    let image = result.project().unwrap().root().get("image").and_then(|v| v.as_scalar()).expect("image").clone();
    assert_eq!(image.value(), "registry/app");
    assert!(image.is_sensitive());
    assert_eq!(image.raw(), "${IMAGE}");
}

#[test]
fn merge_without_overlay_keeps_authored_values() {
    let result = merge_project(vec![document(1)], "/srv".to_owned(), Vec::new(), None);
    let image = result.project().unwrap().root().get("image").and_then(|v| v.as_scalar()).unwrap().clone();
    assert_eq!(image.value(), "${IMAGE}");
    assert!(!image.is_sensitive());
    assert_eq!(result.diagnostics().len(), 1);
}

#[test]
fn non_mapping_roots_are_reported() {
    let doc = MergeSourceDocument::new(SourceId::new(4), span(4, 0, 3), Some(text("abc", 4, 0)));
    let result = merge_project(vec![doc], "/srv".to_owned(), Vec::new(), None);
    assert!(result.project().is_none());
    assert_eq!(result.diagnostics()[0].code().as_str(), "compose.merge.invalid-document-root");
}
