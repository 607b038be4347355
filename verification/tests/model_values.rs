use compose_lens::model::cpu_count::CpuCount;
use compose_lens::model::cpu_percent::CpuPercent;
use compose_lens::model::cpu_period::CpuPeriod;
use compose_lens::model::cpu_rt_period::CpuRtPeriod;
use compose_lens::model::device::{classify_short_device, valid_generated_device_string, ShortDeviceKind};
use compose_lens::model::expose::{
    classify_expose_item, valid_generated_expose_item, ExposeItemKind, ExposeProtocol, ExposeScalarKind,
};
use compose_lens::model::host::{ExtraHostSeparator, HostAddress, HostAddressKind, ShortExtraHost};
use compose_lens::model::hostname::{valid_hostname, Hostname, HostnameKind};
use compose_lens::model::identity::{IdentityComponent, UserSpec};
use compose_lens::model::image::{ImageDigest, ImageReference};
use compose_lens::model::lifecycle::{valid_duration, valid_stop_grace_period, StopGracePeriod};
use compose_lens::model::memory::{valid_generated_mem_amount, MemLimit, MemLimitKind, MemLimitScalarKind, MemLimitUnit};
use compose_lens::model::pids::{valid_positive_pids_decimal, PidsLimit, PidsLimitKind};
use compose_lens::model::port::ShortPort;
use compose_lens::model::pull::{valid_pull_policy_duration, PullPolicy, PullPolicyKind};
use compose_lens::model::restart::{RestartPolicy, RestartPolicyKind};
use compose_lens::model::Located;
use compose_lens::source::{SourceId, SourceSpan};

fn located(value: &str) -> Result<Located<String>, &'static str> {
    let span = SourceSpan::new(SourceId::new(1), 0, value.len()).ok_or("valid test span expected")?;
    Ok(Located::new(value.to_owned(), span))
}

#[test]
fn retains_unbounded_integer_spelling_and_negative_zero() {
    for value in ["0", "-0", "-0x0", "0b1_0", "0o7_7", "0xCA_FE", "999999999999999999999999999999"] {
        assert!(CpuCount::yaml_integer(value.to_owned()).is_valid());
        assert!(CpuCount::yaml_integer_spelling(value));
    }
    assert!(matches!(
        CpuCount::yaml_integer("-1".to_owned()),
        CpuCount::NegativeYamlInteger(value) if value == "-1"
    ));
    for value in ["1.0", "1e3", "0x_1", "1_"] {
        assert!(!CpuCount::yaml_integer_spelling(value));
    }
}

#[test]
fn classifies_unbounded_yaml_integer_spellings_without_conversion() {
    for value in ["0", "-0", "-0x0", "+100", "0b110_0100", "0o1_44", "0x64"] {
        assert!(matches!(
            CpuPercent::yaml_integer(value.to_owned()),
            CpuPercent::YamlInteger(actual) if actual == value
        ));
        assert!(CpuPercent::yaml_integer_spelling(value));
    }
    for value in ["-1", "101", "0x65", "999999999999999999999999999999"] {
        assert!(matches!(
            CpuPercent::yaml_integer(value.to_owned()),
            CpuPercent::OutOfRangeYamlInteger(actual) if actual == value
        ));
    }
    for value in ["1.0", "1e3", "0x_1", "1_"] {
        assert!(!CpuPercent::yaml_integer_spelling(value));
    }
}

#[test]
fn recognizes_plain_yaml_number_spellings() {
    for value in ["-0xF_F", "+1.5", "1e+6", "1.", "0b1_0", "0o7_7"] {
        assert!(CpuPeriod::yaml_number_spelling(value));
    }
    for value in ["", "1_", "0x_1", "1e", ".5", "opaque"] {
        assert!(!CpuPeriod::yaml_number_spelling(value));
    }
}

#[test]
fn classifies_duration_expression_and_other_spellings() {
    for value in ["1us", "1m30s", "1.5s", ".5s"] {
        assert!(matches!(
            CpuRtPeriod::parse_string(value.to_owned()),
            CpuRtPeriod::Duration(actual) if actual == value
        ));
    }
    assert!(matches!(
        CpuRtPeriod::parse_string("1m30s\n".to_owned()),
        CpuRtPeriod::Duration(value) if value == "1m30s\n"
    ));
    assert!(matches!(
        CpuRtPeriod::parse_string("${CPU_RT_PERIOD}".to_owned()),
        CpuRtPeriod::Expression(value) if value == "${CPU_RT_PERIOD}"
    ));
    for value in ["", "1", "1ns", "1µs", "1μs", "1.s"] {
        assert!(matches!(
            CpuRtPeriod::parse_string(value.to_owned()),
            CpuRtPeriod::Other(actual) if actual == value
        ));
    }
}

#[test]
fn accepts_compose_duration_segments_without_runtime_parsing() {
    for value in ["0", "30s", "1m30s", "1.5s", "250ms", "10us"] {
        assert!(valid_duration(value), "expected valid duration {value}");
    }
    for value in ["", "forever", "-1s", "1", "1..5s"] {
        assert!(!valid_duration(value), "expected invalid duration {value}");
    }
}

#[test]
fn classification_is_lexical_and_raw_preserving() {
    assert_eq!(classify_short_device("/dev/dri:/dev/dri:rwm"), ShortDeviceKind::Path);
    assert_eq!(classify_short_device("vendor.example/device=gpu"), ShortDeviceKind::Cdi);
    assert_eq!(classify_short_device("${DEVICE}"), ShortDeviceKind::Deferred);
    assert_eq!(classify_short_device("provider-token"), ShortDeviceKind::Opaque);
}

#[test]
fn generated_device_strings_only_enforce_safe_resolved_output() {
    assert!(valid_generated_device_string("not-a-host-device", true));
    assert!(valid_generated_device_string("not-permissions", false));
    assert!(!valid_generated_device_string("", true));
    assert!(!valid_generated_device_string("${DEVICE}", true));
    assert!(!valid_generated_device_string("line\nbreak", false));
}

#[test]
fn classifies_without_fixed_width_or_default_protocol_normalization() {
    let huge = "18446744073709551616000000000000000000000000000000";
    assert!(matches!(
        classify_expose_item(huge, ExposeScalarKind::Number),
        ExposeItemKind::Documented { protocol: None, .. }
    ));
    assert!(matches!(
        classify_expose_item("080-090/tcp", ExposeScalarKind::String),
        ExposeItemKind::Documented {
            protocol: Some(ExposeProtocol::Tcp),
            ..
        }
    ));
    assert!(matches!(
        classify_expose_item("53/udp", ExposeScalarKind::String),
        ExposeItemKind::Documented {
            protocol: Some(ExposeProtocol::Udp),
            ..
        }
    ));
    assert!(matches!(
        classify_expose_item("80/sctp", ExposeScalarKind::String),
        ExposeItemKind::Sctp { .. }
    ));
    assert!(matches!(
        classify_expose_item("80/HTTP", ExposeScalarKind::String),
        ExposeItemKind::UnknownProtocol { protocol, .. } if protocol == "HTTP"
    ));
    assert_eq!(
        classify_expose_item("${PORT:-80}", ExposeScalarKind::String),
        ExposeItemKind::Expression
    );
    for value in ["", "80-", "-90", "80-90-100", "80/", "80/tcp/extra", "port"] {
        assert_eq!(
            classify_expose_item(value, ExposeScalarKind::String),
            ExposeItemKind::Malformed
        );
    }
}

#[test]
fn generated_items_accept_only_resolved_documented_grammar() {
    for value in ["0", "80", "080-090", "53/udp", "80/tcp"] {
        assert!(valid_generated_expose_item(value));
    }
    for value in ["", "$PORT", "80/sctp", "80/HTTP", "80-", "80\n90"] {
        assert!(!valid_generated_expose_item(value));
    }
}

fn entry(value: &str) -> Result<ShortExtraHost, &'static str> {
    Ok(ShortExtraHost::parse(located(value)?))
}

#[test]
fn preserves_ipv6_and_legacy_separator_spelling() -> Result<(), &'static str> {
    let unbracketed = entry("myhostv6:::1")?;
    assert_eq!(unbracketed.hostname(), Some("myhostv6"));
    assert_eq!(unbracketed.address().map(HostAddress::raw), Some("::1"));
    assert_eq!(unbracketed.separator(), Some(ExtraHostSeparator::Colon));
    assert_eq!(
        unbracketed.address().map(HostAddress::kind),
        Some(HostAddressKind::Ipv6 { bracketed: false })
    );

    let bracketed = entry("myhostv6=[::1]")?;
    assert_eq!(
        bracketed.address().map(HostAddress::kind),
        Some(HostAddressKind::Ipv6 { bracketed: true })
    );
    Ok(())
}

#[test]
fn validates_conservative_ascii_rfc_1123_hostnames() {
    let label_63 = "a".repeat(63);
    let maximum = format!("{label_63}.{label_63}.{label_63}.{}", "a".repeat(61));
    for value in ["a", "3api", "API.Example-Corp.COM", maximum.as_str()] {
        assert!(valid_hostname(value), "expected valid hostname {value}");
    }
    let label_64 = "a".repeat(64);
    let too_long = format!("{maximum}.a");
    for value in [
        "",
        ".",
        "example.",
        ".example",
        "example..com",
        "-example",
        "example-",
        "example_com",
        "café.example",
        label_64.as_str(),
        too_long.as_str(),
    ] {
        assert!(!valid_hostname(value), "expected invalid hostname {value}");
    }
}

#[test]
fn classifies_every_dollar_bearing_value_as_deferred() -> Result<(), &'static str> {
    let value = "invalid_$_hostname";
    let hostname = Hostname::parse(located(value)?);
    assert_eq!(hostname.raw().value(), value);
    assert_eq!(hostname.kind(), &HostnameKind::Expression);
    assert!(!hostname.is_resolved());
    Ok(())
}

#[test]
fn does_not_split_interpolation_default_operators() -> Result<(), &'static str> {
    let value = "${UID:-1000}:${GID:-1000}";
    let parsed = UserSpec::parse(located(value)?);
    assert_eq!(parsed.user(), &IdentityComponent::Expression("${UID:-1000}".to_owned()));
    assert_eq!(
        parsed.group(),
        Some(&IdentityComponent::Expression("${GID:-1000}".to_owned()))
    );
    Ok(())
}

#[test]
fn accepts_registry_ports_tags_and_digests_together() {
    let reference = ImageReference::parse("registry.example:5000/team/app:1.2@sha256:abcdef".to_owned());

    assert_eq!(reference.name(), "registry.example:5000/team/app");
    assert_eq!(reference.tag(), Some("1.2"));
    assert_eq!(reference.digest().and_then(ImageDigest::algorithm), Some("sha256"));
    assert_eq!(reference.digest().map(ImageDigest::value), Some("abcdef"));
}

#[test]
fn applies_the_raw_preserving_policy_using_documented_compose_units() {
    for value in ["1us", "1ms", "1s", "1m", "1h", "1m30s", "0s", "1.5s", ".5s"] {
        assert!(valid_stop_grace_period(value), "expected valid duration {value}");
    }
    for value in ["", "0", "1", "1ns", "1µs", "1μs", "1d", "s", ".s", "1.s", "1..5s"] {
        assert!(!valid_stop_grace_period(value), "expected invalid duration {value}");
    }
}

#[test]
fn retains_valid_expression_and_other_spelling() {
    assert_eq!(
        StopGracePeriod::parse("1m30s".to_owned()),
        StopGracePeriod::Value("1m30s".to_owned())
    );
    assert_eq!(
        StopGracePeriod::parse("${STOP_GRACE_PERIOD:-1s}".to_owned()),
        StopGracePeriod::Expression("${STOP_GRACE_PERIOD:-1s}".to_owned())
    );
    assert_eq!(
        StopGracePeriod::parse("1ns".to_owned()),
        StopGracePeriod::Other("1ns".to_owned())
    );
}

#[test]
fn uses_the_existing_dollar_marker_as_a_lexical_expression_classification() {
    assert_eq!(
        StopGracePeriod::parse("literal$5".to_owned()),
        StopGracePeriod::Expression("literal$5".to_owned())
    );
}

fn classify(value: &str, scalar_kind: MemLimitScalarKind) -> Result<MemLimit, &'static str> {
    Ok(MemLimit::parse(located(value)?, scalar_kind))
}

#[test]
fn keeps_documented_units_raw_and_schema_forms_distinct() -> Result<(), &'static str> {
    let bytes = classify("001b", MemLimitScalarKind::String)?;
    assert!(matches!(
        bytes.kind(),
        MemLimitKind::Documented { amount_raw, unit: MemLimitUnit::B } if amount_raw == "001"
    ));
    assert_eq!(
        classify("${LIMIT:-64m}", MemLimitScalarKind::String)?.kind(),
        &MemLimitKind::Expression
    );
    assert_eq!(
        classify("64", MemLimitScalarKind::Number)?.kind(),
        &MemLimitKind::SchemaNumber
    );
    assert_eq!(
        classify("64", MemLimitScalarKind::String)?.kind(),
        &MemLimitKind::ProviderDependentString
    );
    assert!(matches!(
        classify("000mb", MemLimitScalarKind::String)?.kind(),
        MemLimitKind::Zero { amount_raw, unit: Some(MemLimitUnit::Mb) } if amount_raw == "000"
    ));
    Ok(())
}

#[test]
fn validates_only_canonical_positive_generated_amounts() {
    for value in ["1", "64", "18446744073709551616000000000000000000000000000000"] {
        assert!(valid_generated_mem_amount(value));
    }
    for value in ["", "0", "00", "01", "-1", "+1", "1.0", "1e3", " 1", "1 ", "${LIMIT}"] {
        assert!(!valid_generated_mem_amount(value));
    }
}

#[test]
fn classifies_without_fixed_width_integer_parsing_or_normalization() -> Result<(), &'static str> {
    let cases = [
        ("-1", PidsLimitKind::Unlimited),
        (
            "00042",
            PidsLimitKind::Finite {
                decimal: "00042".to_owned(),
            },
        ),
        (
            "18446744073709551616000000000000000000000000000000",
            PidsLimitKind::Finite {
                decimal: "18446744073709551616000000000000000000000000000000".to_owned(),
            },
        ),
        ("000", PidsLimitKind::Zero),
        ("${PIDS_LIMIT:-64}", PidsLimitKind::Expression),
        ("1.5", PidsLimitKind::Other),
        ("1e3", PidsLimitKind::Other),
        ("+1", PidsLimitKind::Other),
    ];
    for (value, expected) in cases {
        let limit = PidsLimit::parse(located(value)?);
        assert_eq!(limit.raw().value(), value);
        assert_eq!(limit.kind(), &expected);
    }
    Ok(())
}

#[test]
fn validates_generated_positive_decimals_without_overflow() {
    for value in ["1", "0001", "18446744073709551616000000000000000000000000000000"] {
        assert!(valid_positive_pids_decimal(value));
    }
    for value in ["", "0", "000", "-1", "+1", "1.0", "1e3", "64MiB"] {
        assert!(!valid_positive_pids_decimal(value));
    }
}

#[test]
fn splits_bracketed_ipv6_and_protocol() -> Result<(), &'static str> {
    let port = ShortPort::parse(located("[::1]:6001:6001/udp")?);
    assert_eq!(port.host_ip(), Some("[::1]"));
    assert_eq!(port.published(), Some("6001"));
    assert_eq!(port.target(), "6001");
    assert_eq!(port.protocol(), Some("udp"));
    Ok(())
}

#[test]
fn classifies_documented_schema_only_deferred_and_other_values() -> Result<(), &'static str> {
    for (value, kind) in [
        ("always", PullPolicyKind::Always),
        ("missing", PullPolicyKind::Missing),
        ("if_not_present", PullPolicyKind::IfNotPresentAlias),
        ("refresh", PullPolicyKind::RefreshSchemaOnly),
        ("${PULL_POLICY:-missing}", PullPolicyKind::Expression),
        ("provider-newest", PullPolicyKind::Other),
    ] {
        assert_eq!(PullPolicy::parse(located(value)?).kind(), &kind);
    }
    Ok(())
}

#[test]
fn accepts_documented_compose_duration_units_without_normalizing_spelling() {
    for value in ["1w", "2d", "3h", "4m", "5s", "1w2d3h4m5s", "0s", "01h30m"] {
        assert!(valid_pull_policy_duration(value), "expected valid duration {value}");
    }
    for value in ["", "0", "1", "1us", "1ms", "1.5h", ".5h", "1h30", "1x", "h", "1hh"] {
        assert!(!valid_pull_policy_duration(value), "expected invalid duration {value}");
    }
}

#[test]
fn retains_maximum_retry_spelling_without_normalizing_it() -> Result<(), &'static str> {
    let value = "on-failure:003";
    let policy = RestartPolicy::parse(located(value)?);

    assert_eq!(policy.raw().value(), value);
    assert_eq!(
        policy.kind(),
        &RestartPolicyKind::OnFailure {
            maximum_retries: Some("003".to_owned()),
        }
    );
    assert!(policy.is_valid());
    Ok(())
}
