use compose_lens::diagnostic::Severity;
use compose_lens::model::dependency::{DependencyCondition, DependsOn, Healthcheck, ServiceDependency};
use compose_lens::model::host::{ipv4_text, ipv6_text, ExtraHostSeparator, HostAddress, HostAddressKind, ShortExtraHost};
use compose_lens::model::port::ShortPort;
use compose_lens::model::remaining::{ModelDefinition, ModelDefinitions};
use compose_lens::model::value::BooleanValue;
use compose_lens::model::{ComposeDocument, Located, ModelParse, Service};
use compose_lens::source::{SourceId, SourceSpan};

fn span(start: usize, end: usize) -> SourceSpan {
    SourceSpan::from_valid_offsets(SourceId::new(1), start, end)
}

fn text(value: &str, start: usize) -> Located<String> {
    Located::new(value.to_owned(), span(start, start + value.len()))
}

#[test]
fn recognizes_ipv4_addresses() {
    for value in ["0.0.0.0", "127.0.0.1", "255.255.255.255", "10.1.2.3"] {
        assert!(ipv4_text(value), "expected IPv4 {value}");
    }
    for value in ["", "1.2.3", "1.2.3.4.5", "256.1.1.1", "01.2.3.4", "1.2.3.a", "1..2.3", "1.2.3.4 "] {
        assert!(!ipv4_text(value), "expected not IPv4 {value}");
    }
}

#[test]
fn recognizes_ipv6_addresses() {
    for value in [
        "::",
        "::1",
        "1::",
        "fe80::1",
        "2001:db8:0:0:0:0:2:1",
        "2001:DB8::8:800:200C:417A",
        "::ffff:192.0.2.128",
        "1:2:3:4:5:6:1.2.3.4",
        "1:2:3:4:5:6:7::",
        "::2:3:4:5:6:7:8",
    ] {
        assert!(ipv6_text(value), "expected IPv6 {value}");
    }
    for value in [
        "",
        ":",
        ":::",
        "1::2::3",
        "1:2:3:4:5:6:7:8:9",
        "1:2:3:4:5:6:7",
        "12345::",
        "1:2:3:4:5:6:7:8::",
        "1.2.3.4::",
        "::1.2.3",
        "fe80::1%eth0",
        "g::1",
    ] {
        assert!(!ipv6_text(value), "expected not IPv6 {value}");
    }
}

#[test]
fn classifies_host_addresses() {
    assert_eq!(HostAddress::parse("host-gateway".to_owned()).kind(), HostAddressKind::HostGateway);
    assert_eq!(HostAddress::parse("10.0.0.1".to_owned()).kind(), HostAddressKind::Ipv4);
    assert_eq!(HostAddress::parse("[10.0.0.1]".to_owned()).kind(), HostAddressKind::Ipv4);
    assert_eq!(HostAddress::parse("${HOST_IP}".to_owned()).kind(), HostAddressKind::Other);
    assert_eq!(HostAddress::parse("[".to_owned()).kind(), HostAddressKind::Other);
    assert!(HostAddress::parse("host-gateway".to_owned()).is_host_gateway());
    assert_eq!(HostAddress::parse("[::1]".to_owned()).raw(), "[::1]");
}

#[test]
fn short_extra_hosts_need_both_sides() {
    let equals = ShortExtraHost::parse(text("db=10.0.0.2", 0));
    assert_eq!(equals.hostname(), Some("db"));
    assert_eq!(equals.separator(), Some(ExtraHostSeparator::Equals));
    assert!(equals.is_complete());
    for value in ["=10.0.0.2", "db=", "db", ":1"] {
        let entry = ShortExtraHost::parse(text(value, 0));
        assert!(!entry.is_complete(), "expected incomplete {value}");
        assert_eq!(entry.hostname(), None);
        assert_eq!(entry.raw().value(), value);
    }
}

#[test]
fn short_ports_split_into_fields() {
    let bare = ShortPort::parse(text("80", 0));
    assert_eq!(bare.target(), "80");
    assert_eq!(bare.published(), None);
    assert_eq!(bare.host_ip(), None);
    assert_eq!(bare.protocol(), None);
    let ipv4 = ShortPort::parse(text("127.0.0.1:8080:80/tcp", 0));
    assert_eq!(ipv4.host_ip(), Some("127.0.0.1"));
    assert_eq!(ipv4.published(), Some("8080"));
    assert_eq!(ipv4.target(), "80");
    assert_eq!(ipv4.protocol(), Some("tcp"));
    let unbracketed = ShortPort::parse(text("::1:8080:80", 0));
    assert_eq!(unbracketed.host_ip(), Some("::1"));
    let range = ShortPort::parse(text("8000-8010:80-90", 0));
    assert_eq!(range.published(), Some("8000-8010"));
    assert_eq!(range.target(), "80-90");
}

fn service(name: &str, start: usize) -> Service {
    Service::new(text(name, start), span(start, start + 10))
}

fn long_dependency(target: &str, condition: Option<DependencyCondition>, required: Option<bool>) -> ServiceDependency {
    let mut dependency = ServiceDependency::new(text(target, 50), span(50, 70));
    if let Some(condition) = condition {
        dependency.set_condition(Located::new(condition, span(60, 70)));
    }
    if let Some(required) = required {
        dependency.set_required(Located::new(BooleanValue::Literal(required), span(70, 75)));
    }
    dependency
}

#[test]
fn validates_dependency_targets_and_health_checks() {
    let mut document = ComposeDocument::new(SourceId::new(1), span(0, 200));
    let mut web = service("web", 0);
    web.set_depends_on(DependsOn::Short {
        span: span(20, 40),
        services: vec![text("db", 21), text("cache", 25)],
    });
    let mut worker = service("worker", 100);
    worker.set_depends_on(DependsOn::Long {
        span: span(120, 180),
        services: vec![
            long_dependency("db", Some(DependencyCondition::ServiceHealthy), None),
            long_dependency("queue", None, Some(false)),
            long_dependency("web", Some(DependencyCondition::ServiceHealthy), None),
        ],
    });
    let mut db = service("db", 150);
    let mut healthcheck = Healthcheck::new(span(160, 170));
    healthcheck.set_disable(Located::new(BooleanValue::Literal(true), span(161, 162)));
    db.set_healthcheck(healthcheck);
    document.push_service(web);
    document.push_service(worker);
    document.push_service(db);

    assert!(document.service("db").is_some());
    assert!(document.service("cache").is_none());
    assert_eq!(document.services().len(), 3);

    let diagnostics = document.validate_dependencies();
    assert_eq!(diagnostics.len(), 4);
    assert_eq!(diagnostics[0].code().as_str(), "compose.dependencies.missing-service");
    assert_eq!(diagnostics[0].labels()[0].span(), text("cache", 25).span());
    assert_eq!(diagnostics[0].severity(), Severity::Error);
    assert_eq!(diagnostics[1].code().as_str(), "compose.dependencies.missing-healthcheck");
    assert_eq!(diagnostics[1].severity(), Severity::Error);
    assert_eq!(diagnostics[1].labels()[0].span(), span(60, 70));
    assert_eq!(diagnostics[2].code().as_str(), "compose.dependencies.missing-service");
    assert_eq!(diagnostics[2].severity(), Severity::Warning);
    assert_eq!(
        diagnostics[2].message(),
        "optional service dependency is not declared in this Compose document"
    );
    assert_eq!(diagnostics[3].code().as_str(), "compose.dependencies.healthcheck-unverified");
    assert_eq!(diagnostics[3].severity(), Severity::Warning);
    assert_eq!(diagnostics[3].notes().len(), 1);
}

#[test]
fn model_parse_reports_validity_from_diagnostics() {
    let parse = ModelParse::new(Some(ComposeDocument::new(SourceId::new(2), span(0, 1))), Vec::new());
    assert!(parse.is_valid());
    assert!(parse.document().is_some());
    let (document, diagnostics) = parse.into_parts();
    assert_eq!(document.map(|d| d.source_id()), Some(SourceId::new(2)));
    assert!(diagnostics.is_empty());
}

#[test]
fn model_definitions_find_the_first_matching_name() {
    let first = ModelDefinition::new(text("llm", 0), span(0, 10));
    let mut second = ModelDefinition::new(text("llm", 20), span(20, 30));
    second.set_model(text("ai/other", 25));
    let definitions = ModelDefinitions::new(span(0, 40), vec![first, second], Vec::new());
    assert_eq!(definitions.definition("llm").map(|d| d.span()), Some(span(0, 10)));
    assert!(definitions.definition("missing").is_none());
}
