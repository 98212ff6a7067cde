use cockpit_bridge::addressing::{store_location, AppContext};
use cockpit_bridge::decimal::i32_dec;
use cockpit_bridge::decoding::{decode_count, decode_payload, failure_text, parse_count, Outcome};
use cockpit_bridge::dispatch::{
    create_project_invocation, get_cockpit_data_invocation, import_master_spec_invocation,
    import_supplier_feedback_invocation, list_recent_projects_invocation,
};
use cockpit_bridge::errors::BridgeError;

fn ctx(dir: &str, script: &str) -> AppContext {
    AppContext {
        app_data_dir: Some(dir.to_string()),
        backend_script: Some(script.to_string()),
    }
}

fn success(stdout: &[u8]) -> Outcome {
    Outcome { success: true, stdout: stdout.to_vec(), stderr: Vec::new() }
}

fn failure(stderr: &[u8]) -> Outcome {
    Outcome { success: false, stdout: Vec::new(), stderr: stderr.to_vec() }
}

#[test]
fn store_location_of_seven() {
    assert_eq!(store_location(7), "sqlite:///projects/7.sqlite");
}

#[test]
fn store_location_of_negative_identifier() {
    assert_eq!(store_location(-3), "sqlite:///projects/-3.sqlite");
}

#[test]
fn store_location_is_pure() {
    assert_eq!(store_location(99), store_location(99));
    assert_eq!(store_location(0), store_location(0));
}

#[test]
fn decimal_rendering_extremes() {
    assert_eq!(i32_dec(0), "0");
    assert_eq!(i32_dec(10), "10");
    assert_eq!(i32_dec(2147483647), "2147483647");
    assert_eq!(i32_dec(-2147483648), "-2147483648");
    assert_eq!(i32_dec(-1), "-1");
}

#[test]
fn master_spec_import_counts_forty_two() {
    let inv = import_master_spec_invocation(7, "/data/spec.csv").unwrap();
    assert_eq!(inv.program, "python3");
    assert_eq!(inv.args.len(), 5);
    assert_eq!(inv.args[0], "-c");
    assert_eq!(inv.args[2], "sqlite:///projects/7.sqlite");
    assert_eq!(inv.args[3], "7");
    assert_eq!(inv.args[4], "/data/spec.csv");
    let result = decode_count(success(b"42\n"));
    assert_eq!(result, Ok(42));
}

#[test]
fn supplier_feedback_failure_carries_backend_text() {
    let inv = import_supplier_feedback_invocation(7, "iter-3", "Acme Co.", "/data/fb.csv").unwrap();
    assert_eq!(inv.program, "python3");
    assert_eq!(inv.args.len(), 7);
    assert_eq!(inv.args[2], "sqlite:///projects/7.sqlite");
    assert_eq!(inv.args[3], "7");
    assert_eq!(inv.args[4], "iter-3");
    assert_eq!(inv.args[5], "Acme Co.");
    assert_eq!(inv.args[6], "/data/fb.csv");
    let result = decode_count(failure(b"file not found"));
    assert_eq!(result, Err(BridgeError::Backend("file not found".to_string())));
}

#[test]
fn cockpit_payload_passes_through_verbatim() {
    let inv = get_cockpit_data_invocation(7, 3);
    assert_eq!(inv.program, "python3");
    assert_eq!(inv.args.len(), 5);
    assert_eq!(inv.args[2], "sqlite:///projects/7.sqlite");
    assert_eq!(inv.args[3], "7");
    assert_eq!(inv.args[4], "3");
    let result = decode_payload(success(b"{\"otd\": 0.91}"));
    assert_eq!(result, Ok("{\"otd\": 0.91}".to_string()));
}

#[test]
fn create_project_without_data_root_is_addressing_error() {
    let context = AppContext {
        app_data_dir: None,
        backend_script: Some("/opt/app/backend/main.py".to_string()),
    };
    let result = create_project_invocation(&context, "New Project", "/home/user/proj");
    assert_eq!(
        result,
        Err(BridgeError::Addressing("Could not resolve app data directory".to_string()))
    );
}

#[test]
fn create_project_without_backend_script_is_addressing_error() {
    let context =
        AppContext { app_data_dir: Some("/data/app".to_string()), backend_script: None };
    let result = create_project_invocation(&context, "p", "/p");
    assert_eq!(
        result,
        Err(BridgeError::Addressing("Could not resolve backend script path".to_string()))
    );
}

#[test]
fn create_project_builds_discrete_arguments() {
    let context = ctx("/data/app", "/opt/app/backend/main.py");
    let inv = create_project_invocation(&context, "New Project", "/home/user/proj").unwrap();
    assert_eq!(inv.program, "python3");
    assert_eq!(
        inv.args,
        vec![
            "/opt/app/backend/main.py".to_string(),
            "create_project".to_string(),
            "/data/app".to_string(),
            "New Project".to_string(),
            "/home/user/proj".to_string(),
        ]
    );
}

#[test]
fn list_recent_projects_builds_discrete_arguments() {
    let context = ctx("/data/app", "/opt/app/backend/main.py");
    let inv = list_recent_projects_invocation(&context).unwrap();
    assert_eq!(inv.program, "python3");
    assert_eq!(
        inv.args,
        vec![
            "/opt/app/backend/main.py".to_string(),
            "list_recent_projects".to_string(),
            "/data/app".to_string(),
        ]
    );
}

#[test]
fn list_recent_projects_without_data_root_is_addressing_error() {
    let context = AppContext { app_data_dir: None, backend_script: None };
    let result = list_recent_projects_invocation(&context);
    assert_eq!(
        result,
        Err(BridgeError::Addressing("Could not resolve app data directory".to_string()))
    );
}

#[test]
fn hostile_supplier_name_stays_one_literal_argument() {
    let hostile = "Acme'); import os; os.system('true') #";
    let inv = import_supplier_feedback_invocation(7, "iter-3", hostile, "/data/fb.csv").unwrap();
    let benign = import_supplier_feedback_invocation(7, "iter-3", "Acme Co.", "/data/fb.csv").unwrap();
    assert_eq!(inv.args.len(), 7);
    assert_eq!(inv.args[5], hostile);
    assert_eq!(inv.program, benign.program);
    for slot in [0usize, 1, 2, 3, 4, 6] {
        assert_eq!(inv.args[slot], benign.args[slot]);
    }
}

#[test]
fn hostile_file_path_stays_one_literal_argument() {
    let hostile = "/tmp/x'; drop table projects; --\".csv";
    let inv = import_master_spec_invocation(7, hostile).unwrap();
    let benign = import_master_spec_invocation(7, "/data/spec.csv").unwrap();
    assert_eq!(inv.args[4], hostile);
    assert_eq!(inv.args[1], benign.args[1]);
    assert_eq!(inv.args[0], benign.args[0]);
}

#[test]
fn hostile_project_name_stays_one_literal_argument() {
    let context = ctx("/data/app", "/opt/app/backend/main.py");
    let hostile = "x\" && rm -rf \"$HOME";
    let inv = create_project_invocation(&context, hostile, "/p").unwrap();
    assert_eq!(inv.args[1], "create_project");
    assert_eq!(inv.args[3], hostile);
}

#[test]
fn embedded_nul_is_an_encoding_error() {
    let result = import_master_spec_invocation(7, "/data/\u{0}spec.csv");
    assert_eq!(
        result,
        Err(BridgeError::Encoding("argument contains an embedded NUL character".to_string()))
    );
    let context = ctx("/data/app", "/opt/app/backend/main.py");
    let created = create_project_invocation(&context, "a\u{0}b", "/p");
    assert!(matches!(created, Err(BridgeError::Encoding(_))));
}

#[test]
fn zero_output_decodes_to_count_zero() {
    assert_eq!(decode_count(success(b"0")), Ok(0));
    assert_eq!(decode_count(success(b"0\n")), Ok(0));
}

#[test]
fn surrounding_whitespace_is_trimmed() {
    assert_eq!(decode_count(success(b"  17 \r\n")), Ok(17));
    assert_eq!(parse_count(&b"\t5\t".to_vec()), Some(5));
}

#[test]
fn empty_output_is_not_a_count() {
    let result = decode_count(success(b""));
    assert_eq!(result, Err(BridgeError::Backend("Unknown error".to_string())));
    assert_eq!(parse_count(&b"   \n".to_vec()), None);
}

#[test]
fn non_numeric_output_is_not_a_count() {
    assert_eq!(parse_count(&b"12a".to_vec()), None);
    assert_eq!(parse_count(&b"-5".to_vec()), None);
    assert_eq!(parse_count(&b"4 2".to_vec()), None);
}

#[test]
fn oversized_output_is_not_a_count() {
    assert_eq!(parse_count(&b"999999999999999999999999999999".to_vec()), None);
    assert_eq!(parse_count(&b"18446744073709551615".to_vec()), Some(usize::MAX));
}

#[test]
fn failure_never_yields_a_count() {
    let outcome = Outcome { success: false, stdout: b"42".to_vec(), stderr: b"boom".to_vec() };
    assert_eq!(decode_count(outcome), Err(BridgeError::Backend("boom".to_string())));
}

#[test]
fn empty_error_output_falls_back_to_generic_text() {
    assert_eq!(decode_count(failure(b"")), Err(BridgeError::Backend("Unknown error".to_string())));
    assert_eq!(failure_text(Vec::new()), "Unknown error");
}

#[test]
fn undecodable_error_output_falls_back_to_generic_text() {
    let result = decode_count(failure(&[0xff, 0xfe, 0x01]));
    assert_eq!(result, Err(BridgeError::Backend("Unknown error".to_string())));
}

#[test]
fn payload_failure_carries_backend_text() {
    let result = decode_payload(failure(b"no such iteration"));
    assert_eq!(result, Err(BridgeError::Backend("no such iteration".to_string())));
}

#[test]
fn undecodable_payload_is_a_failure() {
    let outcome = Outcome { success: true, stdout: vec![0xff, 0xfe], stderr: Vec::new() };
    let result = decode_payload(outcome);
    assert_eq!(result, Err(BridgeError::Backend("Unknown error".to_string())));
}

#[test]
fn non_ascii_payload_is_decoded_not_echoed() {
    let text = "café ✓ — naïve";
    let result = decode_payload(success(text.as_bytes()));
    assert_eq!(result, Ok(text.to_string()));
}

#[test]
fn error_message_accessor_returns_carried_text() {
    let e = BridgeError::Spawn("python3 missing".to_string());
    assert_eq!(e.message().as_str(), "python3 missing");
    let a = BridgeError::Addressing("nowhere".to_string());
    assert_eq!(a.message().as_str(), "nowhere");
}
