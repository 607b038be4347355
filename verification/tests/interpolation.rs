use compose_lens::diagnostic::Severity;
use compose_lens::interpolation::{
    interpolate, interpolate_document, interpolate_with_options, EmptyEnvironment, EnvironmentProvider,
    EnvironmentValue, InterpolationInput, InterpolationOperator, InterpolationOptions, InterpolationResult,
    MapEnvironment, MissingVariablePolicy, SubstitutionOutcome,
};
use compose_lens::model::Located;
use compose_lens::source::{SourceId, SourceSpan};

fn span(len: usize) -> SourceSpan {
    SourceSpan::from_valid_offsets(SourceId::new(7), 0, len)
}

fn run(text: &str, environment: &MapEnvironment) -> InterpolationResult {
    interpolate(InterpolationInput::new(text, span(text.len())), environment)
}

fn run_with(text: &str, environment: &MapEnvironment, options: InterpolationOptions) -> InterpolationResult {
    interpolate_with_options(InterpolationInput::new(text, span(text.len())), environment, options)
}

fn environment(pairs: &[(&str, &str)]) -> MapEnvironment {
    let mut env = MapEnvironment::new();
    for (name, value) in pairs {
        env.insert((*name).to_owned(), (*value).to_owned());
    }
    env
}

#[test]
fn plain_text_is_returned_unchanged() {
    let result = run("no variables here", &MapEnvironment::new());
    assert_eq!(result.resolved(), "no variables here");
    assert_eq!(result.original(), "no variables here");
    assert!(result.substitutions().is_empty());
    assert!(result.diagnostics().is_empty());
    assert!(result.is_valid());
}

#[test]
fn direct_variables_are_substituted() {
    let env = environment(&[("HOST", "db.internal"), ("PORT", "5432")]);
    let result = run("postgres://$HOST:${PORT}/app", &env);
    assert_eq!(result.resolved(), "postgres://db.internal:5432/app");
    assert_eq!(result.substitutions().len(), 2);
    assert_eq!(result.substitutions()[0].name(), "HOST");
    assert_eq!(result.substitutions()[0].operator(), InterpolationOperator::Direct);
    assert_eq!(result.substitutions()[0].outcome(), SubstitutionOutcome::Environment);
    assert_eq!(result.substitutions()[1].name(), "PORT");
    assert_eq!(result.substitutions()[1].span(), span("postgres://$HOST:${PORT}/app".len()));
    assert!(result.is_valid());
}

#[test]
fn doubled_dollar_is_one_literal_dollar() {
    let env = environment(&[("A", "x")]);
    assert_eq!(run("cost: $$5 and $$A", &env).resolved(), "cost: $5 and $A");
    assert_eq!(run("$", &env).resolved(), "$");
    assert_eq!(run("a$", &env).resolved(), "a$");
    assert_eq!(run("$-1", &env).resolved(), "$-1");
    assert!(run("$$A", &env).substitutions().is_empty());
}

#[test]
fn unset_direct_variable_follows_the_policy() {
    let env = MapEnvironment::new();
    let empty = run("[$MISSING]", &env);
    assert_eq!(empty.resolved(), "[]");
    assert_eq!(empty.diagnostics().len(), 1);
    assert_eq!(empty.diagnostics()[0].severity(), Severity::Warning);
    assert_eq!(empty.diagnostics()[0].code().as_str(), "compose.interpolation.unset-variable");
    assert_eq!(empty.diagnostics()[0].message(), "interpolation variable `MISSING` is not set");
    assert_eq!(empty.substitutions()[0].outcome(), SubstitutionOutcome::Missing);
    assert!(empty.is_valid());

    let preserved = run_with(
        "[$MISSING]",
        &env,
        InterpolationOptions::new(MissingVariablePolicy::PreserveWithWarning),
    );
    assert_eq!(preserved.resolved(), "[$MISSING]");
    assert!(preserved.is_valid());

    let error = run_with("[${MISSING}]", &env, InterpolationOptions::new(MissingVariablePolicy::Error));
    assert_eq!(error.resolved(), "[${MISSING}]");
    assert_eq!(error.diagnostics()[0].severity(), Severity::Error);
    assert!(!error.is_valid());
}

#[test]
fn default_operators_distinguish_unset_and_empty() {
    let env = environment(&[("EMPTY", "")]);
    assert_eq!(run("${UNSET:-fallback}", &env).resolved(), "fallback");
    assert_eq!(run("${EMPTY:-fallback}", &env).resolved(), "fallback");
    assert_eq!(run("${UNSET-fallback}", &env).resolved(), "fallback");
    assert_eq!(run("${EMPTY-fallback}", &env).resolved(), "");
    let defaulted = run("${UNSET:-fallback}", &env);
    assert_eq!(defaulted.substitutions()[0].outcome(), SubstitutionOutcome::Default);
    assert_eq!(
        defaulted.substitutions()[0].operator(),
        InterpolationOperator::DefaultIfUnsetOrEmpty
    );
}

#[test]
fn required_variables_report_errors_and_keep_the_expression() {
    let env = environment(&[("EMPTY", ""), ("SET", "v")]);
    let missing = run("${UNSET:?must be set}", &env);
    assert_eq!(missing.resolved(), "${UNSET:?must be set}");
    assert_eq!(missing.diagnostics().len(), 1);
    assert_eq!(missing.diagnostics()[0].code().as_str(), "compose.interpolation.required-variable");
    assert_eq!(
        missing.diagnostics()[0].message(),
        "required interpolation variable `UNSET` is unset or empty"
    );
    assert_eq!(missing.substitutions()[0].outcome(), SubstitutionOutcome::RequiredMissing);
    assert!(!missing.is_valid());
    assert!(!run("${EMPTY:?x}", &env).is_valid());
    assert_eq!(run("${EMPTY?x}", &env).resolved(), "");
    assert_eq!(run("${SET:?x}", &env).resolved(), "v");
}

#[test]
fn alternative_operators_insert_only_when_set() {
    let env = environment(&[("EMPTY", ""), ("SET", "v")]);
    assert_eq!(run("${SET:+alt}", &env).resolved(), "alt");
    assert_eq!(run("${EMPTY:+alt}", &env).resolved(), "");
    assert_eq!(run("${EMPTY+alt}", &env).resolved(), "alt");
    assert_eq!(run("${UNSET+alt}", &env).resolved(), "");
    assert_eq!(run("${UNSET+alt}", &env).substitutions()[0].outcome(), SubstitutionOutcome::Empty);
}

#[test]
fn nested_operands_are_interpolated() {
    let env = environment(&[("INNER", "deep")]);
    let result = run("${OUTER:-${MIDDLE:-$INNER}}", &env);
    assert_eq!(result.resolved(), "deep");
    assert_eq!(result.substitutions().len(), 3);
    assert_eq!(result.substitutions()[0].name(), "INNER");
    assert_eq!(result.substitutions()[2].name(), "OUTER");
}

#[test]
fn nesting_limit_stops_deep_operands() {
    let env = MapEnvironment::new();
    let options = InterpolationOptions::default().with_max_nesting(1);
    let result = run_with("${A:-${B:-${C:-x}}}", &env, options);
    assert_eq!(result.resolved(), "${C:-x}");
    assert_eq!(result.diagnostics().len(), 1);
    assert_eq!(result.diagnostics()[0].code().as_str(), "compose.interpolation.nesting-limit");
    assert!(!result.is_valid());
    assert_eq!(InterpolationOptions::default().with_max_nesting(0).max_nesting(), 1);
    assert_eq!(InterpolationOptions::default().max_nesting(), 32);
    assert_eq!(
        InterpolationOptions::default().missing_variable(),
        MissingVariablePolicy::EmptyWithWarning
    );
}

#[test]
fn malformed_expressions_are_retained_with_an_error() {
    let env = environment(&[("A", "x")]);
    let unclosed = run("before ${A", &env);
    assert_eq!(unclosed.resolved(), "before ${A");
    assert_eq!(unclosed.diagnostics()[0].code().as_str(), "compose.interpolation.invalid-expression");
    assert!(!unclosed.is_valid());
    let bad_name = run("${1A} and $A", &env);
    assert_eq!(bad_name.resolved(), "${1A} and x");
    assert_eq!(run("${A*b}", &env).resolved(), "${A*b}");
    assert_eq!(run("${}", &env).resolved(), "${}");
}

#[test]
fn sensitive_values_make_the_result_sensitive() {
    let mut env = MapEnvironment::new();
    env.insert_sensitive("TOKEN".to_owned(), "s3cr3t".to_owned());
    env.insert("USER".to_owned(), "me".to_owned());
    let secret = run("$USER:$TOKEN", &env);
    assert_eq!(secret.resolved(), "me:s3cr3t");
    assert!(secret.is_sensitive());
    assert!(!secret.substitutions()[0].is_sensitive());
    assert!(secret.substitutions()[1].is_sensitive());
    assert!(!run("$USER", &env).is_sensitive());
    let marked = interpolate(InterpolationInput::new("plain", span(5)).sensitive(), &env);
    assert!(marked.is_sensitive());
}

#[test]
fn map_environment_reads_back_what_was_written() {
    let mut env = MapEnvironment::new();
    assert!(env.is_empty());
    assert!(env.insert("A".to_owned(), "1".to_owned()).is_none());
    let replaced = env.insert("A".to_owned(), "2".to_owned());
    assert_eq!(replaced.as_ref().map(EnvironmentValue::value), Some("1"));
    assert!(env.insert_value("B".to_owned(), EnvironmentValue::sensitive("3".to_owned())).is_none());
    assert_eq!(env.len(), 2);
    assert_eq!(env.get("A").as_ref().map(EnvironmentValue::value), Some("2"));
    assert_eq!(env.get("B").map(|value| value.is_sensitive()), Some(true));
    assert!(env.get("C").is_none());
    assert!(EmptyEnvironment.get("A").is_none());
    let copy = env.clone();
    assert_eq!(copy.len(), 2);
    assert_eq!(EnvironmentValue::plain("v".to_owned()).value(), "v");
    assert!(!EnvironmentValue::plain("v".to_owned()).is_sensitive());
}

#[test]
fn document_interpolation_aggregates_results_in_order() {
    let env = environment(&[("A", "x")]);
    let first = SourceSpan::from_valid_offsets(SourceId::new(3), 0, 2);
    let second = SourceSpan::from_valid_offsets(SourceId::new(3), 10, 19);
    let scalars = vec![
        Located::new("$A".to_owned(), first),
        Located::new("${B:?no}".to_owned(), second),
    ];
    let document = interpolate_document(SourceId::new(3), &scalars, &env);
    assert_eq!(document.source_id(), SourceId::new(3));
    assert_eq!(document.values().len(), 2);
    assert_eq!(document.value(first).map(InterpolationResult::resolved), Some("x"));
    assert_eq!(document.value(second).map(InterpolationResult::resolved), Some("${B:?no}"));
    assert!(document.value(span(1)).is_none());
    assert_eq!(document.diagnostics().len(), 1);
    assert_eq!(document.diagnostics()[0].labels()[0].span(), second);
    assert!(!document.is_valid());
}

#[test]
fn text_without_dollar_keeps_value_and_sensitivity() {
    let env = environment(&[("A", "1")]);
    let input = InterpolationInput::new("héllo {A} wörld", span("héllo {A} wörld".len())).sensitive();
    let result = interpolate(input, &env);
    assert_eq!(result.resolved(), "héllo {A} wörld");
    assert!(result.substitutions().is_empty());
    assert!(result.diagnostics().is_empty());
    assert!(result.is_sensitive());
}

#[test]
fn environments_with_the_same_variables_are_equal_whatever_the_insertion_order() {
    let mut first = MapEnvironment::new();
    first.insert("B".to_owned(), "2".to_owned());
    first.insert("A".to_owned(), "1".to_owned());
    first.insert("AB".to_owned(), "3".to_owned());
    let mut second = MapEnvironment::new();
    second.insert("AB".to_owned(), "3".to_owned());
    second.insert("A".to_owned(), "1".to_owned());
    second.insert("B".to_owned(), "2".to_owned());
    assert!(first == second);
    second.insert("A".to_owned(), "changed".to_owned());
    assert!(first != second);
}

#[test]
fn diagnostic_code_functions_name_their_codes() {
    assert_eq!(compose_lens::interpolation::unset_variable().as_str(), "compose.interpolation.unset-variable");
    assert_eq!(compose_lens::model::document_root_type().as_str(), "compose.document.expected-mapping");
    assert_eq!(compose_lens::merge::unresolved_alias().as_str(), "compose.merge.unresolved-alias");
}
