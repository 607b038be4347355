use compose_lens::diagnostic::{LabelKind, Severity};
use compose_lens::interpolation::{interpolate_document, EmptyEnvironment};
use compose_lens::loader::ProjectInterpolation;
use compose_lens::model::blkio::{BlkioConfig, BlkioDeviceRate, BlkioWeightDevice};
use compose_lens::loader::include_paths::{
    plan_project_directories, IncludeProjectDirectoryRequest, IncludeProjectDirectoryResolution,
    IncludeProjectDirectoryResolveError, IncludeProjectDirectoryResolver, IncludeProjectDirectoryStatus,
};
use compose_lens::loader::{
    DocumentInput, DocumentOrigin, IncludeIdentity, IncludeLoadError, IncludeLoader, IncludeRequest, IncludeResolution,
    IncludeResourceNamespace, IncludedProjectInput, LoadedProject, ProjectLoadError, ProjectResource, ProjectView,
};
use compose_lens::model::remaining::{IncludeItem, IncludeLong};
use compose_lens::model::{Located, Service};
use compose_lens::source::{SourceId, SourceSpan};

fn span(id: u32, start: usize, end: usize) -> SourceSpan {
    SourceSpan::from_valid_offsets(SourceId::new(id), start, end)
}

fn text(value: &str, id: u32, start: usize) -> Located<String> {
    Located::new(value.to_owned(), span(id, start, start + value.len()))
}

fn document(id: u32, label: &str, directory: &str) -> DocumentInput {
    DocumentInput::new(
        SourceId::new(id),
        DocumentOrigin::new(label.to_owned(), directory.to_owned()),
        "services: {}\n".to_owned(),
    )
}

fn service(name: &str, id: u32, start: usize) -> ProjectResource<Service> {
    let key = text(name, id, start);
    let source = key.span();
    ProjectResource::new(name.to_owned(), Service::new(key, source), Some(source))
}

fn view(includes: Vec<IncludeItem>, services: Vec<ProjectResource<Service>>) -> ProjectView {
    ProjectView::new(includes, services, Vec::new(), Vec::new(), Vec::new(), Vec::new(), Vec::new())
}

fn project(identity: &str, documents: Vec<DocumentInput>, includes: Vec<IncludeItem>, services: Vec<ProjectResource<Service>>) -> IncludedProjectInput {
    IncludedProjectInput::new(IncludeIdentity::new(identity.to_owned()), documents).with_project_view(view(includes, services))
}

/// Serves projects by the first requested path; a path starting with `deny:` is denied and one
/// starting with `fail:` fails.
struct TableLoader {
    projects: Vec<(String, IncludedProjectInput)>,
}

impl IncludeLoader for TableLoader {
    fn load_include(&self, request: &IncludeRequest) -> Result<IncludedProjectInput, IncludeLoadError> {
        let path = request.paths()[0].value().as_str();
        if path.starts_with("deny:") {
            return Err(IncludeLoadError::denied("policy".to_owned()));
        }
        if path.starts_with("fail:") {
            return Err(IncludeLoadError::failed("missing".to_owned()));
        }
        for (key, input) in &self.projects {
            if key == path {
                return Ok(input.clone());
            }
        }
        Err(IncludeLoadError::failed("unknown".to_owned()))
    }
}

fn codes(diagnostics: &[compose_lens::diagnostic::Diagnostic]) -> Vec<&'static str> {
    diagnostics.iter().map(|d| d.code().as_str()).collect()
}

#[test]
fn loaded_project_requires_documents() {
    assert_eq!(LoadedProject::load(Vec::new()), Err(ProjectLoadError::EmptyProject));
}

#[test]
fn loaded_project_names_both_owners_of_a_reused_source_id() {
    let inputs = vec![document(1, "a.yaml", "/a"), document(2, "b.yaml", "/b"), document(1, "c.yaml", "/c")];
    match LoadedProject::load(inputs) {
        Err(ProjectLoadError::DuplicateSourceId { source_id, first_origin, duplicate_origin }) => {
            assert_eq!(source_id, SourceId::new(1));
            assert_eq!(first_origin, "a.yaml");
            assert_eq!(duplicate_origin, "c.yaml");
        }
        other => panic!("unexpected {other:?}"),
    }
}

#[test]
fn loaded_project_keeps_order_and_first_directory() {
    let project = LoadedProject::load(vec![document(3, "base.yaml", "/srv/app"), document(4, "override.yaml", "/etc")])
        .expect("loads");
    assert_eq!(project.base_directory(), "/srv/app");
    assert_eq!(project.documents().len(), 2);
    assert_eq!(project.documents()[1].origin().label(), "override.yaml");
    assert_eq!(project.document(SourceId::new(4)).map(|d| d.origin().directory()), Some("/etc"));
    assert!(project.document(SourceId::new(9)).is_none());
    assert!(project.is_valid());
    assert!(project.diagnostics().is_empty());
}

#[test]
fn empty_root_is_reported_and_retained() {
    let root = IncludedProjectInput::new(IncludeIdentity::new("root".to_owned()), Vec::new());
    let resolution = IncludeResolution::load(root, &TableLoader { projects: Vec::new() });
    assert_eq!(resolution.nodes().len(), 1);
    assert!(resolution.nodes()[0].loaded_project().is_none());
    assert_eq!(codes(resolution.diagnostics()), vec!["compose.include.empty-root"]);
    assert!(resolution.diagnostics()[0].labels().is_empty());
    assert!(!resolution.is_valid());
}

#[test]
fn short_declaration_loads_child_occurrence() {
    let child = project("child", vec![document(2, "child.yaml", "/child")], Vec::new(), Vec::new());
    let root = project(
        "root",
        vec![document(1, "root.yaml", "/root")],
        vec![IncludeItem::Short(text("child.yaml", 1, 10))],
        Vec::new(),
    );
    let loader = TableLoader { projects: vec![("child.yaml".to_owned(), child)] };
    let resolution = IncludeResolution::load(root, &loader);
    assert!(resolution.is_valid());
    assert_eq!(resolution.root().as_str(), "root");
    assert_eq!(resolution.nodes().len(), 2);
    assert_eq!(resolution.nodes()[1].identity().as_str(), "child");
    assert_eq!(resolution.nodes()[1].index(), 1);
    assert_eq!(resolution.nodes()[1].origins()[0].label(), "child.yaml");
    assert_eq!(resolution.edges().len(), 1);
    let edge = &resolution.edges()[0];
    assert_eq!((edge.parent_node_index(), edge.child_node_index(), edge.request_index()), (0, 1, 0));
    assert!(!edge.is_cycle());
    assert_eq!(edge.parent().as_str(), "root");
    assert_eq!(edge.child().as_str(), "child");
    let request = &resolution.requests()[0];
    assert_eq!(request.parent_identity().as_str(), "root");
    assert_eq!(request.parent_base_directory(), "/root");
    assert_eq!(request.paths().len(), 1);
    assert_eq!(request.paths()[0].value(), "child.yaml");
    assert!(request.env_files().is_empty());
    assert!(request.project_directory().is_none());
    assert_eq!(request.declaration_source_id(), SourceId::new(1));
    assert_eq!(request.declaration_origin().map(|o| o.label()), Some("root.yaml"));
}

#[test]
fn cycle_targets_active_occurrence() {
    let child = project(
        "child",
        vec![document(2, "child.yaml", "/child")],
        vec![IncludeItem::Short(text("root.yaml", 2, 0))],
        Vec::new(),
    );
    let back = project("root", vec![document(3, "again.yaml", "/root")], Vec::new(), Vec::new());
    let root = project(
        "root",
        vec![document(1, "root.yaml", "/root")],
        vec![IncludeItem::Short(text("child.yaml", 1, 0))],
        Vec::new(),
    );
    let loader = TableLoader { projects: vec![("child.yaml".to_owned(), child), ("root.yaml".to_owned(), back)] };
    let resolution = IncludeResolution::load(root, &loader);
    assert_eq!(resolution.nodes().len(), 2);
    assert_eq!(resolution.edges().len(), 2);
    assert!(!resolution.edges()[0].is_cycle());
    let cycle = &resolution.edges()[1];
    assert!(cycle.is_cycle());
    assert_eq!((cycle.parent_node_index(), cycle.child_node_index()), (1, 0));
    assert_eq!(codes(resolution.diagnostics()), vec!["compose.include.cycle"]);
    let diagnostic = &resolution.diagnostics()[0];
    assert_eq!(diagnostic.severity(), Severity::Error);
    assert_eq!(diagnostic.notes(), ["the caller controls identity canonicalization".to_owned()]);
    assert_eq!(diagnostic.labels()[0].message(), "include declaration");
}

#[test]
fn denied_failed_and_unmodeled_declarations_are_reported() {
    let long = IncludeLong::new(span(1, 40, 60), Vec::new(), Vec::new(), None, Vec::new());
    let root = project(
        "root",
        vec![document(1, "root.yaml", "/root")],
        vec![
            IncludeItem::Short(text("deny:a.yaml", 1, 0)),
            IncludeItem::Short(text("fail:b.yaml", 1, 20)),
            IncludeItem::Long(long),
            IncludeItem::Unmodeled,
        ],
        Vec::new(),
    );
    let resolution = IncludeResolution::load(root, &TableLoader { projects: Vec::new() });
    assert_eq!(
        codes(resolution.diagnostics()),
        vec![
            "compose.include.loader-denied",
            "compose.include.loader-failed",
            "compose.include.unmodeled",
            "compose.include.unmodeled",
        ]
    );
    assert_eq!(resolution.requests().len(), 2);
    assert!(resolution.edges().is_empty());
    assert_eq!(resolution.diagnostics()[2].labels()[0].span(), span(1, 40, 60));
    assert!(resolution.diagnostics()[3].labels().is_empty());
}

#[test]
fn reused_source_id_keeps_child_unloaded() {
    let child = project("child", vec![document(1, "child.yaml", "/child")], Vec::new(), Vec::new());
    let empty = IncludedProjectInput::new(IncludeIdentity::new("empty".to_owned()), Vec::new());
    let root = project(
        "root",
        vec![document(1, "root.yaml", "/root")],
        vec![IncludeItem::Short(text("child.yaml", 1, 0)), IncludeItem::Short(text("empty.yaml", 1, 20))],
        Vec::new(),
    );
    let loader = TableLoader { projects: vec![("child.yaml".to_owned(), child), ("empty.yaml".to_owned(), empty)] };
    let resolution = IncludeResolution::load(root, &loader);
    assert_eq!(
        codes(resolution.diagnostics()),
        vec!["compose.include.duplicate-source-id", "compose.include.empty-result"]
    );
    assert_eq!(resolution.nodes().len(), 3);
    assert!(resolution.nodes()[1].loaded_project().is_none());
    assert!(resolution.nodes()[1].project_view().is_none());
    assert!(resolution.nodes()[2].loaded_project().is_none());
    assert_eq!(resolution.edges().len(), 2);
}

#[test]
fn composition_imports_absent_definitions_and_records_conflicts() {
    let child = project(
        "child",
        vec![document(2, "child.yaml", "/child")],
        Vec::new(),
        vec![service("web", 2, 0), service("db", 2, 10)],
    );
    let root = project(
        "root",
        vec![document(1, "root.yaml", "/root")],
        vec![IncludeItem::Short(text("child.yaml", 1, 30))],
        vec![service("web", 1, 0)],
    );
    let loader = TableLoader { projects: vec![("child.yaml".to_owned(), child)] };
    let resolution = IncludeResolution::load(root, &loader);
    let result = resolution.compose();
    assert_eq!(result.compositions().len(), 2);
    let root_composition = result.root().expect("root composition");
    let names: Vec<&str> = root_composition.services().iter().map(|d| d.name()).collect();
    assert_eq!(names, vec!["web", "db"]);
    assert_eq!(root_composition.service("web").unwrap().evidence().occurrence_index(), 0);
    assert_eq!(root_composition.service("db").unwrap().evidence().occurrence_index(), 1);
    assert_eq!(root_composition.service("db").unwrap().evidence().source_label(), Some("child.yaml"));
    assert!(root_composition.service("cache").is_none());
    assert!(root_composition.networks().is_empty());
    assert_eq!(result.conflicts().len(), 1);
    let conflict = &result.conflicts()[0];
    assert_eq!(conflict.namespace(), IncludeResourceNamespace::Services);
    assert_eq!(conflict.name(), "web");
    assert_eq!(conflict.edge_index(), 0);
    assert_eq!(conflict.incoming().identity().as_str(), "child");
    assert_eq!(conflict.incumbent().identity().as_str(), "root");
    assert!(result.is_valid());
    assert!(!result.is_complete());
    let warning = &result.diagnostics()[0];
    assert_eq!(warning.code().as_str(), "compose.include.resource-conflict");
    assert_eq!(warning.severity(), Severity::Warning);
    assert_eq!(warning.message(), "included service `web` conflicts with an already selected definition");
    assert_eq!(warning.labels().len(), 2);
    assert_eq!(warning.labels()[0].kind(), LabelKind::Primary);
    assert_eq!(warning.labels()[0].message(), "incoming service `web` from child.yaml");
    assert_eq!(warning.labels()[1].kind(), LabelKind::Secondary);
    assert_eq!(warning.labels()[1].message(), "incumbent service `web` from root.yaml");
    assert_eq!(warning.notes(), ["declaring include edge #0, occurrence #0 (root) -> #1 (child)".to_owned()]);
}

#[test]
fn composition_without_conflicts_is_complete() {
    let root = project("root", vec![document(1, "root.yaml", "/root")], Vec::new(), vec![service("api", 1, 0)]);
    let resolution = IncludeResolution::load(root, &TableLoader { projects: Vec::new() });
    let result = resolution.compose();
    assert!(result.is_complete());
    assert_eq!(result.composition(0).unwrap().node_index(), 0);
    assert!(result.composition(1).is_none());
}

#[test]
fn namespace_nouns() {
    assert_eq!(IncludeResourceNamespace::Services.as_str(), "service");
    assert_eq!(IncludeResourceNamespace::Models.as_str(), "model");
    assert_eq!(IncludeResourceNamespace::Secrets.as_str(), "secret");
}

#[test]
fn load_errors_keep_their_messages() {
    assert_eq!(IncludeLoadError::denied("no".to_owned()).message(), "no");
    assert_eq!(IncludeLoadError::failed("gone".to_owned()).message(), "gone");
}

struct FixedResolver;

impl IncludeProjectDirectoryResolver for FixedResolver {
    fn resolve_project_directory(
        &self,
        request: &IncludeProjectDirectoryRequest<'_>,
    ) -> Result<IncludeProjectDirectoryResolution, IncludeProjectDirectoryResolveError> {
        match request.declaration().value().as_str() {
            "./resolved" => Ok(IncludeProjectDirectoryResolution::Resolved(format!(
                "{}/resolved",
                request.parent_effective_directory().unwrap_or("")
            ))),
            "./deferred" => Ok(IncludeProjectDirectoryResolution::Deferred),
            _ => Err(IncludeProjectDirectoryResolveError::Unresolved),
        }
    }
}

fn long_with_directory(path: &str, directory: &str, start: usize) -> IncludeItem {
    IncludeItem::Long(IncludeLong::new(
        span(1, start, start + 20),
        vec![text(path, 1, start)],
        Vec::new(),
        Some(text(directory, 1, start + 10)),
        Vec::new(),
    ))
}

#[test]
fn project_directories_follow_declarations_and_policy() {
    let mut projects = Vec::new();
    for (key, id) in [("a.yaml", 2), ("b.yaml", 3), ("c.yaml", 4), ("d.yaml", 5)] {
        let dir = format!("/{key}");
        projects.push((key.to_owned(), project(key, vec![document(id, key, &dir)], Vec::new(), Vec::new())));
    }
    let root = project(
        "root",
        vec![document(1, "root.yaml", "/root")],
        vec![
            IncludeItem::Short(text("a.yaml", 1, 0)),
            long_with_directory("b.yaml", "./resolved", 100),
            long_with_directory("c.yaml", "./deferred", 200),
            long_with_directory("d.yaml", "./other", 300),
        ],
        Vec::new(),
    );
    let resolution = IncludeResolution::load(root, &TableLoader { projects });
    let plan = plan_project_directories(&resolution, &FixedResolver);
    assert_eq!(plan.entries().len(), 5);
    let statuses: Vec<IncludeProjectDirectoryStatus> = plan.entries().iter().map(|e| e.status()).collect();
    assert_eq!(
        statuses,
        vec![
            IncludeProjectDirectoryStatus::Root,
            IncludeProjectDirectoryStatus::Defaulted,
            IncludeProjectDirectoryStatus::Resolved,
            IncludeProjectDirectoryStatus::Deferred,
            IncludeProjectDirectoryStatus::Unresolved,
        ]
    );
    assert_eq!(plan.entry(0).unwrap().effective_directory(), Some("/root"));
    assert_eq!(plan.entry(1).unwrap().effective_directory(), Some("/a.yaml"));
    assert_eq!(plan.entry(2).unwrap().effective_directory(), Some("/root/resolved"));
    assert_eq!(plan.entry(3).unwrap().effective_directory(), None);
    assert_eq!(plan.entry(4).unwrap().declaration().map(|d| d.value().as_str()), Some("./other"));
    assert_eq!(plan.entry(2).unwrap().edge_index(), Some(1));
    assert_eq!(plan.entry(0).unwrap().request_index(), None);
    assert_eq!(codes(plan.diagnostics()), vec!["compose.include.project-directory-unresolved"]);
    assert_eq!(plan.diagnostics()[0].labels()[0].span(), span(1, 310, 317));
    assert!(!plan.is_valid());
    assert!(!plan.is_complete());
}

#[test]
fn plan_without_explicit_directories_is_complete() {
    let root = project("root", vec![document(1, "root.yaml", "/root")], Vec::new(), Vec::new());
    let resolution = IncludeResolution::load(root, &TableLoader { projects: Vec::new() });
    let plan = plan_project_directories(&resolution, &FixedResolver);
    assert!(plan.is_complete());
    assert_eq!(plan.entries()[0].identity().as_str(), "root");
    assert_eq!(plan.entries()[0].node_index(), 0);
}

#[test]
fn project_interpolation_gathers_overlays_in_file_order() {
    let first = interpolate_document(SourceId::new(1), &[text("${MISSING}", 1, 0)], &EmptyEnvironment);
    let second = interpolate_document(SourceId::new(2), &[text("plain", 2, 0)], &EmptyEnvironment);
    let project = ProjectInterpolation::from_documents(vec![first, second]);
    assert_eq!(project.documents().len(), 2);
    assert_eq!(project.document(SourceId::new(2)).map(|d| d.source_id()), Some(SourceId::new(2)));
    assert!(project.document(SourceId::new(7)).is_none());
    assert_eq!(codes(project.diagnostics()), vec!["compose.interpolation.unset-variable"]);
    assert!(project.is_valid());
}

#[test]
fn blkio_lists_are_lent_by_key() {
    let mut config = BlkioConfig::new(span(1, 0, 40));
    config.device_rates_mut("device_read_iops").expect("known key").push(BlkioDeviceRate::new(span(1, 5, 10)));
    assert!(config.device_rates_mut("device_read_rate").is_none());
    config.weight_devices_mut().push(BlkioWeightDevice::new(span(1, 12, 20)));
    assert_eq!(config.device_read_iops().len(), 1);
    assert!(config.device_read_bps().is_empty());
    assert!(config.device_write_iops().is_empty());
    assert_eq!(config.weight_device().len(), 1);
}

struct RecordingResolver {
    seen: std::cell::RefCell<Vec<(usize, usize, usize, usize, String, String, Option<String>, Option<String>, SourceSpan)>>,
}

impl IncludeProjectDirectoryResolver for RecordingResolver {
    fn resolve_project_directory(
        &self,
        request: &IncludeProjectDirectoryRequest<'_>,
    ) -> Result<IncludeProjectDirectoryResolution, IncludeProjectDirectoryResolveError> {
        self.seen.borrow_mut().push((
            request.edge_index(),
            request.request_index(),
            request.parent_node_index(),
            request.child_node_index(),
            request.parent_identity().as_str().to_owned(),
            request.child_identity().as_str().to_owned(),
            request.parent_effective_directory().map(str::to_owned),
            request.child_first_document_directory().map(str::to_owned),
            request.declaration_span(),
        ));
        Ok(IncludeProjectDirectoryResolution::Deferred)
    }
}

#[test]
fn resolver_receives_the_complete_context() {
    let child = project("child", vec![document(2, "child.yaml", "/child")], Vec::new(), Vec::new());
    let root = project(
        "root",
        vec![document(1, "root.yaml", "/root")],
        vec![IncludeItem::Short(text("skip.yaml", 1, 0)), long_with_directory("child.yaml", "./x", 40)],
        Vec::new(),
    );
    let loader = TableLoader { projects: vec![("child.yaml".to_owned(), child)] };
    let resolution = IncludeResolution::load(root, &loader);
    let resolver = RecordingResolver { seen: std::cell::RefCell::new(Vec::new()) };
    let plan = plan_project_directories(&resolution, &resolver);
    let seen = resolver.seen.borrow();
    assert_eq!(seen.len(), 1);
    let (edge, request, parent, child, parent_id, child_id, parent_dir, child_dir, declaration) = seen[0].clone();
    assert_eq!((edge, request, parent, child), (0, 1, 0, 1));
    assert_eq!((parent_id.as_str(), child_id.as_str()), ("root", "child"));
    assert_eq!(parent_dir.as_deref(), Some("/root"));
    assert_eq!(child_dir.as_deref(), Some("/child"));
    assert_eq!(declaration, span(1, 50, 53));
    assert_eq!(plan.entries()[1].status(), IncludeProjectDirectoryStatus::Deferred);
    assert_eq!(codes(plan.diagnostics()), vec!["compose.include.loader-failed"]);
    assert!(!plan.is_complete());
}

#[test]
fn composition_selects_each_typed_definition_from_its_occurrence() {
    let child = project(
        "child",
        vec![document(2, "child.yaml", "/child")],
        Vec::new(),
        vec![service("web", 2, 0), service("db", 2, 10)],
    );
    let root = project(
        "root",
        vec![document(1, "root.yaml", "/root")],
        vec![IncludeItem::Short(text("child.yaml", 1, 30))],
        vec![service("web", 1, 0)],
    );
    let loader = TableLoader { projects: vec![("child.yaml".to_owned(), child)] };
    let result = IncludeResolution::load(root, &loader).compose();
    let root_composition = result.root().expect("root composition");
    let web = service("web", 1, 0);
    let db = service("db", 2, 10);
    assert_eq!(root_composition.service("web").unwrap().definition(), web.definition());
    assert_eq!(root_composition.service("db").unwrap().definition(), db.definition());
    assert_ne!(root_composition.service("web").unwrap().definition(), db.definition());
    let child_composition = result.composition(1).expect("child composition");
    assert_eq!(child_composition.service("web").unwrap().definition(), service("web", 2, 0).definition());
}
