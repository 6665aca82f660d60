use bunsenite_core::error::Error;
use bunsenite_core::formatter::format_value;
use bunsenite_core::router::{
    after_read, base_name, conclude, finish_parse, finish_validate, get_help_text, info_text,
    initial_action, parse_done_trace, parse_trace, validate_done_trace, validate_trace, Action,
    Command,
};

fn sample_value() -> serde_json::Value {
    let mut inner = serde_json::Map::new();
    inner.insert(
        "name".to_string(),
        serde_json::Value::String("demo".to_string()),
    );
    inner.insert(
        "count".to_string(),
        serde_json::Value::Number(serde_json::Number::from(3)),
    );
    inner.insert(
        "items".to_string(),
        serde_json::Value::Array(vec![
            serde_json::Value::Bool(true),
            serde_json::Value::Null,
            serde_json::Value::String("x".to_string()),
        ]),
    );
    serde_json::Value::Object(inner)
}

#[test]
fn test_cli_info_runs() {
    // The informational text is total: building it never fails.
    let text = info_text();
    assert!(!text.is_empty());
}

#[test]
fn test_help_text_contains_version() {
    let help = get_help_text();
    assert!(help.contains(bunsenite_core::router::version()));
}

#[test]
fn round_trip_compact() {
    let value = sample_value();
    let text = format_value(&value, false).unwrap();
    let back: serde_json::Value = serde_json::from_str(&text).unwrap();
    assert_eq!(back, value);
}

#[test]
fn round_trip_pretty() {
    let value = sample_value();
    let text = format_value(&value, true).unwrap();
    let back: serde_json::Value = serde_json::from_str(&text).unwrap();
    assert_eq!(back, value);
}

#[test]
fn compact_formatting_is_exact() {
    let mut obj = serde_json::Map::new();
    obj.insert(
        "a".to_string(),
        serde_json::Value::Number(serde_json::Number::from(1)),
    );
    let value = serde_json::Value::Object(obj);
    assert_eq!(format_value(&value, false).unwrap(), "{\"a\":1}");
    assert_eq!(format_value(&value, true).unwrap(), "{\n  \"a\": 1\n}");
}

#[test]
fn validate_syntax_error_reports_parse_error() {
    // A validation run whose engine outcome is a parse failure: exit code 1,
    // a ParseError-classified message on the error stream, and nothing on
    // standard output.
    let outcome = Err(Error::parse_error("bad.ncl", "unexpected token"));
    let report = conclude(finish_validate(outcome));
    assert_eq!(report.code, 1);
    assert!(report.out.is_none());
    let err = report.err.unwrap();
    assert!(err.starts_with("Error: Failed to parse Nickel file 'bad.ncl': unexpected token"));
    assert!(err.contains("Suggestion: Check your Nickel syntax."));
}

#[test]
fn parse_pretty_success_prints_indented_json() {
    // A parse run with --pretty on a well-formed file: exit code 0 and
    // multi-line, indented JSON on standard output.
    let report = conclude(finish_parse(Ok(sample_value()), true));
    assert_eq!(report.code, 0);
    assert!(report.err.is_none());
    let out = report.out.unwrap();
    assert!(out.lines().count() > 1);
    assert!(out.contains("\n  "));
}

#[test]
fn info_always_exits_zero() {
    let action = initial_action(Command::Info);
    match action {
        Action::Emit { text } => {
            let report = conclude(Ok(text));
            assert_eq!(report.code, 0);
            assert!(report.err.is_none());
        }
        _ => panic!("info must be answered on the spot"),
    }
}

#[test]
fn no_command_emits_help() {
    let action = initial_action(Command::NoCommand);
    match action {
        Action::Emit { text } => assert_eq!(text, get_help_text()),
        _ => panic!("missing subcommand must be answered with the help text"),
    }
}

#[test]
fn parse_missing_file_reports_io_error() {
    // A parse run on a missing file: the engine reports the read failure,
    // and the router turns it into exit code 1 with an IoError-classified
    // message and the fixed permissions suggestion.
    let outcome = Err(Error::io_error("No such file or directory (os error 2)"));
    let report = conclude(finish_parse(outcome, false));
    assert_eq!(report.code, 1);
    assert!(report.out.is_none());
    let err = report.err.unwrap();
    assert!(err.starts_with("Error: File I/O error: No such file or directory"));
    assert!(err.contains("Suggestion: Check file permissions and path."));
}

#[test]
fn read_failure_becomes_io_error() {
    let r = after_read("conf/app.ncl", Err("permission denied".to_string()));
    match r {
        Err(Error::IoError { message }) => assert_eq!(message, "permission denied"),
        _ => panic!("a read failure must surface as IoError"),
    }
}

#[test]
fn read_success_carries_source_and_name() {
    let r = after_read("conf/app.ncl", Ok("{ a = 1 }".to_string()));
    match r {
        Ok(req) => {
            assert_eq!(req.source, "{ a = 1 }");
            assert_eq!(req.name, "app.ncl");
        }
        _ => panic!("a successful read must yield a validation request"),
    }
}

#[test]
fn validate_twice_is_identical() {
    // Two validation runs on the same unchanged file give the same engine
    // outcome, so the reports agree in every field.
    let first = conclude(finish_validate(Ok(())));
    let second = conclude(finish_validate(Ok(())));
    assert_eq!(first.out, second.out);
    assert_eq!(first.err, second.err);
    assert_eq!(first.code, second.code);
    assert_eq!(first.out.unwrap(), "\u{2713} Configuration is valid");

    let failed_once = conclude(finish_validate(Err(Error::parse_error("f.ncl", "oops"))));
    let failed_twice = conclude(finish_validate(Err(Error::parse_error("f.ncl", "oops"))));
    assert_eq!(failed_once.out, failed_twice.out);
    assert_eq!(failed_once.err, failed_twice.err);
    assert_eq!(failed_once.code, failed_twice.code);
}

#[test]
fn base_name_edge_cases() {
    assert_eq!(base_name("dir/config.ncl"), "config.ncl");
    assert_eq!(base_name("config.ncl"), "config.ncl");
    assert_eq!(base_name("/a/b/c.ncl"), "c.ncl");
    assert_eq!(base_name("dir/"), "unknown.ncl");
    assert_eq!(base_name(""), "unknown.ncl");
}

#[test]
fn parse_command_routes_to_engine() {
    let action = initial_action(Command::Parse {
        file: "conf.ncl".to_string(),
        pretty: true,
    });
    match action {
        Action::LoadAndEvaluate { file, pretty } => {
            assert_eq!(file, "conf.ncl");
            assert!(pretty);
        }
        _ => panic!("parse must be handed to the engine"),
    }
}

#[test]
fn validate_command_routes_to_read() {
    let action = initial_action(Command::Validate {
        file: "conf.ncl".to_string(),
    });
    match action {
        Action::ReadSource { file } => assert_eq!(file, "conf.ncl"),
        _ => panic!("validate must first read the source"),
    }
}

#[test]
fn engine_error_passes_through_parse() {
    let outcome = Err(Error::evaluation_error("conf.ncl", "undefined variable"));
    match finish_parse(outcome, false) {
        Err(Error::EvaluationError { file, message }) => {
            assert_eq!(file, "conf.ncl");
            assert_eq!(message, "undefined variable");
        }
        _ => panic!("an engine error must pass through unchanged"),
    }
}

#[test]
fn trace_lines_are_fixed() {
    assert_eq!(parse_trace("a.ncl"), "Parsing file: a.ncl");
    assert_eq!(validate_trace("a.ncl"), "Validating file: a.ncl");
    assert_eq!(parse_done_trace(), "\u{2713} Successfully parsed and evaluated");
    assert_eq!(validate_done_trace(), "\u{2713} Successfully validated");
}

#[test]
fn parse_success_prints_exact_compact_json() {
    // A parse run without --pretty on a well-formed file: the report carries
    // exactly the compact serialization on standard output with exit code 0.
    let mut obj = serde_json::Map::new();
    obj.insert(
        "port".to_string(),
        serde_json::Value::Number(serde_json::Number::from(8080)),
    );
    let report = conclude(finish_parse(Ok(serde_json::Value::Object(obj)), false));
    assert_eq!(report.code, 0);
    assert!(report.err.is_none());
    assert_eq!(report.out.unwrap(), "{\"port\":8080}");
}
