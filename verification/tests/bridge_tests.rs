use parse_bridge::{parse, submit, Severity, TaskError, TaskState};

fn cfg_bytes(s: &str) -> Vec<u8> {
    s.as_bytes().to_vec()
}

const MODULE_CFG: &str = r#"{"syntax":"ecmascript","isModule":true}"#;
const SCRIPT_CFG: &str = r#"{"syntax":"ecmascript","isModule":false}"#;

#[test]
fn module_parse_delivers_module_tree() {
    let mut t = parse("const a = 1;".to_string(), cfg_bytes(MODULE_CFG), None);
    assert!(matches!(t.state(), TaskState::Created));
    t.compute();
    assert!(matches!(t.state(), TaskState::Succeeded));
    let out = t.resolve().expect("terminal task delivers an outcome");
    let json = out.expect("valid source parses");
    let v: serde_json::Value = serde_json::from_str(&json).expect("encoded tree is valid JSON");
    assert_eq!(v.get("type").and_then(|x| x.as_str()), Some("Module"));
}

#[test]
fn script_mode_delivers_script_tree() {
    let mut t = parse("const a = 1;".to_string(), cfg_bytes(SCRIPT_CFG), None);
    t.compute();
    let json = t.resolve().unwrap().expect("valid source parses");
    let v: serde_json::Value = serde_json::from_str(&json).unwrap();
    assert_eq!(v.get("type").and_then(|x| x.as_str()), Some("Script"));
}

#[test]
fn empty_source_parses() {
    let mut t = parse(String::new(), cfg_bytes(MODULE_CFG), None);
    t.compute();
    assert!(matches!(t.state(), TaskState::Succeeded));
    let json = t.resolve().unwrap().unwrap();
    let v: serde_json::Value = serde_json::from_str(&json).unwrap();
    assert_eq!(v.get("type").and_then(|x| x.as_str()), Some("Module"));
}

#[test]
fn malformed_config_fails_without_running() {
    let mut t = parse("const a = 1;".to_string(), b"not a config".to_vec(), None);
    t.compute();
    assert!(matches!(t.state(), TaskState::Failed));
    let out = t.resolve().expect("failed task still delivers");
    match out {
        Err(TaskError::ConfigDecode(msg)) => assert!(!msg.is_empty()),
        _ => panic!("expected a configuration decode error"),
    }
}

#[test]
fn truncated_config_fails_with_decode_error() {
    let truncated = &MODULE_CFG.as_bytes()[..MODULE_CFG.len() - 4];
    let mut t = parse("const a = 1;".to_string(), truncated.to_vec(), None);
    t.compute();
    match t.resolve().unwrap() {
        Err(TaskError::ConfigDecode(_)) => {},
        _ => panic!("expected a configuration decode error"),
    }
}

#[test]
fn syntax_error_yields_in_range_diagnostics() {
    let src = "const = ;";
    let mut t = parse(src.to_string(), cfg_bytes(MODULE_CFG), Some("bad.js".to_string()));
    t.compute();
    assert!(matches!(t.state(), TaskState::Failed));
    match t.resolve().unwrap() {
        Err(TaskError::ParseDiagnostics(d)) => {
            assert!(d.len() >= 1);
            let mut i = 0;
            let mut saw_error = false;
            while i < d.len() {
                let g = d.get(i);
                assert!(g.lo <= g.hi);
                assert!(g.hi <= src.len());
                if matches!(g.severity, Severity::Error) {
                    saw_error = true;
                    assert!(!g.message.is_empty());
                }
                i += 1;
            }
            assert!(saw_error);
            assert_eq!(d.limit(), src.len());
            assert!(!d.summary().is_empty());
        },
        _ => panic!("expected parse diagnostics"),
    }
}

#[test]
fn non_ascii_source_ranges_stay_within_byte_length() {
    let src = "/* \u{e1} */ const = ;";
    let mut t = parse(src.to_string(), cfg_bytes(MODULE_CFG), None);
    t.compute();
    match t.resolve().unwrap() {
        Err(TaskError::ParseDiagnostics(d)) => {
            assert_eq!(d.limit(), src.len(), "the limit is the byte length");
            let mut i = 0;
            while i < d.len() {
                assert!(d.get(i).hi <= src.len());
                i += 1;
            }
        },
        _ => panic!("expected parse diagnostics"),
    }
}

#[test]
fn error_summary_renders_each_message() {
    let mut t = parse("const = ;".to_string(), cfg_bytes(MODULE_CFG), None);
    t.compute();
    match t.resolve().unwrap() {
        Err(e @ TaskError::ParseDiagnostics(_)) => {
            let text = e.summary();
            assert!(text.ends_with("]\n"), "each line ends with its position range");
            assert!(text.contains('['));
            assert!(!text.trim().is_empty());
        },
        _ => panic!("expected parse diagnostics"),
    }
}

#[test]
fn outcome_delivered_exactly_once() {
    let mut t = parse("const a = 1;".to_string(), cfg_bytes(MODULE_CFG), None);
    assert!(t.resolve().is_none(), "nothing to deliver before the attempt ran");
    t.compute();
    assert!(t.resolve().is_some(), "one outcome is delivered");
    assert!(matches!(t.state(), TaskState::Delivered));
    assert!(t.resolve().is_none(), "a second delivery never happens");
    t.compute();
    assert!(matches!(t.state(), TaskState::Delivered));
    assert!(t.resolve().is_none());
}

#[test]
fn submit_delivers_one_tree() {
    let json = submit("let x = 2;".to_string(), cfg_bytes(MODULE_CFG), None)
        .expect("valid source parses");
    let v: serde_json::Value = serde_json::from_str(&json).unwrap();
    assert_eq!(v.get("type").and_then(|x| x.as_str()), Some("Module"));
}

#[test]
fn submit_reports_decode_failure() {
    match submit("let x = 2;".to_string(), vec![0x7b], None) {
        Err(TaskError::ConfigDecode(cause)) => assert!(!cause.is_empty()),
        _ => panic!("a truncated buffer must yield a configuration decode error"),
    }
}

#[test]
fn tasks_do_not_share_state() {
    let mut t1 = parse(
        "const alpha = 1;".to_string(),
        cfg_bytes(MODULE_CFG),
        Some("a.js".to_string()),
    );
    let mut t2 = parse(
        "const beta = 2;".to_string(),
        cfg_bytes(MODULE_CFG),
        Some("b.js".to_string()),
    );
    t1.compute();
    t2.compute();
    let o1 = t1.resolve().unwrap().expect("first task parses");
    let o2 = t2.resolve().unwrap().expect("second task parses");
    assert!(o1.contains("alpha") && !o1.contains("beta"));
    assert!(o2.contains("beta") && !o2.contains("alpha"));
}

#[test]
fn comment_capture_toggle_keeps_tree_shape() {
    let src = "/* note */ const a = 1;";
    let on = r#"{"syntax":"ecmascript","isModule":true,"comments":true}"#;
    let off = r#"{"syntax":"ecmascript","isModule":true,"comments":false}"#;
    let mut t_on = parse(src.to_string(), cfg_bytes(on), None);
    let mut t_off = parse(src.to_string(), cfg_bytes(off), None);
    t_on.compute();
    t_off.compute();
    let v_on: serde_json::Value =
        serde_json::from_str(&t_on.resolve().unwrap().unwrap()).unwrap();
    let v_off: serde_json::Value =
        serde_json::from_str(&t_off.resolve().unwrap().unwrap()).unwrap();
    assert_eq!(v_on, v_off, "the encoded tree carries no comment attachments");
}
