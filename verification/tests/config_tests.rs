use parse_bridge::{decode, Dialect, ModuleMode};

fn cfg_bytes(s: &str) -> Vec<u8> {
    s.as_bytes().to_vec()
}

#[test]
fn full_config_decodes_to_plain_fields() {
    let cfg = decode(&cfg_bytes(
        r#"{"syntax":"typescript","isModule":false,"comments":true,"target":"es2020"}"#,
    ))
    .expect("a valid configuration decodes");
    assert!(cfg.comments);
    assert!(matches!(cfg.module, ModuleMode::Explicit(false)));
    assert!(matches!(cfg.dialect, Dialect::Typescript));
    assert_eq!(cfg.edition, "Es2020");
}

#[test]
fn minimal_config_uses_defaults() {
    let cfg = decode(&cfg_bytes(r#"{"syntax":"ecmascript"}"#)).expect("minimal config decodes");
    assert!(!cfg.comments);
    assert!(matches!(cfg.module, ModuleMode::Explicit(true)));
    assert!(matches!(cfg.dialect, Dialect::Ecmascript));
}

#[test]
fn unknown_module_mode_decodes_to_detect() {
    let cfg = decode(&cfg_bytes(r#"{"syntax":"ecmascript","isModule":"unknown"}"#)).unwrap();
    assert!(matches!(cfg.module, ModuleMode::Detect));
}

#[test]
fn commonjs_module_mode_decodes() {
    let cfg = decode(&cfg_bytes(r#"{"syntax":"ecmascript","isModule":"commonjs"}"#)).unwrap();
    assert!(matches!(cfg.module, ModuleMode::CommonJs));
}

#[test]
fn garbage_bytes_yield_a_cause() {
    match decode(&vec![0xffu8, 0x00, 0x12]) {
        Err(cause) => assert!(!cause.is_empty()),
        Ok(_) => panic!("garbage bytes never decode"),
    }
}

#[test]
fn schema_mismatch_is_rejected() {
    match decode(&cfg_bytes(r#"{"syntax":"klingon"}"#)) {
        Err(cause) => assert!(!cause.is_empty()),
        Ok(_) => panic!("an unknown dialect never decodes"),
    }
}
