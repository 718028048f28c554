use hermes::{
    get_configuration_registry_key, get_debug_args, get_protocol_registry_key, key_is_under,
    parse_scheme, registration_plan, unregistration_plan, MemoryStore, RegData, SchemeError,
    StoreError,
};

fn strings(v: &[&str]) -> Vec<String> {
    v.iter().map(|s| s.to_string()).collect()
}

fn text(d: &RegData) -> String {
    match d {
        RegData::Text(s) => s.clone(),
        RegData::List(_) => panic!("expected a text value"),
    }
}

#[test]
fn valid_schemes_are_lowered() {
    assert_eq!(parse_scheme("myapp"), Ok("myapp".to_string()));
    assert_eq!(parse_scheme("MyApp"), Ok("myapp".to_string()));
    assert_eq!(parse_scheme("web+x.y-z9"), Ok("web+x.y-z9".to_string()));
    assert_eq!(parse_scheme("Ue4"), Ok("ue4".to_string()));
}

#[test]
fn invalid_schemes_are_rejected() {
    assert_eq!(parse_scheme(""), Err(SchemeError::Empty));
    assert_eq!(parse_scheme("   "), Err(SchemeError::BadStart));
    assert_eq!(parse_scheme(" myapp"), Err(SchemeError::BadStart));
    assert_eq!(parse_scheme("myapp "), Err(SchemeError::BadChar));
    assert_eq!(parse_scheme("\u{3000}abc"), Err(SchemeError::BadStart));
    assert_eq!(parse_scheme("1abc"), Err(SchemeError::BadStart));
    assert_eq!(parse_scheme("+abc"), Err(SchemeError::BadStart));
    assert_eq!(parse_scheme("ab_c"), Err(SchemeError::BadChar));
    assert_eq!(parse_scheme("a b"), Err(SchemeError::BadChar));
    assert_eq!(parse_scheme("abé"), Err(SchemeError::BadChar));
}

#[test]
fn registry_key_paths() {
    assert_eq!(get_protocol_registry_key("myapp"), "SOFTWARE\\Classes\\myapp");
    assert_eq!(get_configuration_registry_key("myapp"), "Software\\bitSpatter\\Hermes\\Protocols\\myapp");
    let keys = unregistration_plan("myapp");
    assert_eq!(keys, strings(&["SOFTWARE\\Classes\\myapp", "Software\\bitSpatter\\Hermes\\Protocols\\myapp"]));
}

#[test]
fn debug_args() {
    assert_eq!(get_debug_args(true), Some("--debug"));
    assert_eq!(get_debug_args(false), None);
}

#[test]
fn registration_writes_handler_and_command() {
    let cmd = strings(&["ue4.exe", "-open", "%1"]);
    let plan = registration_plan("myapp", &cmd, "C:\\bin\\hermes.exe", Some("--debug")).unwrap();
    assert_eq!(plan.len(), 5);
    assert_eq!(plan[0].key, "SOFTWARE\\Classes\\myapp");
    assert_eq!(plan[0].name, "");
    assert_eq!(text(&plan[0].data), "URL:myapp Protocol");
    assert_eq!(plan[1].name, "URL Protocol");
    assert_eq!(text(&plan[1].data), "");
    assert_eq!(plan[2].key, "SOFTWARE\\Classes\\myapp\\DefaultIcon");
    assert_eq!(text(&plan[2].data), "\"C:\\bin\\hermes.exe\",0");
    assert_eq!(plan[3].key, "SOFTWARE\\Classes\\myapp\\shell\\open\\command");
    assert_eq!(text(&plan[3].data), "\"C:\\bin\\hermes.exe\" --debug open \"%1\"");
    assert_eq!(plan[4].key, "Software\\bitSpatter\\Hermes\\Protocols\\myapp");
    assert_eq!(plan[4].name, "command");
    match &plan[4].data {
        RegData::List(v) => assert_eq!(v, &cmd),
        RegData::Text(_) => panic!("expected a list"),
    }
}

#[test]
fn open_command_without_extra_flags() {
    let plan = registration_plan("x", &strings(&["a"]), "C:\\h.exe", None).unwrap();
    assert_eq!(text(&plan[3].data), "\"C:\\h.exe\" open \"%1\"");
}

#[test]
fn register_then_get_command_round_trips() {
    let mut store = MemoryStore::new();
    let cmd = strings(&["C:\\app.exe", "arg", "%1"]);
    store.register("myapp", &cmd, "C:\\hermes.exe", None).unwrap();
    assert_eq!(store.get_command("myapp"), Ok(cmd.clone()));
    store.register("myapp", &strings(&["other.exe"]), "C:\\hermes.exe", None).unwrap();
    assert_eq!(store.get_command("myapp"), Ok(strings(&["other.exe"])));
}

#[test]
fn empty_command_is_malformed() {
    let mut store = MemoryStore::new();
    store.register("myapp", &Vec::new(), "C:\\hermes.exe", None).unwrap();
    assert_eq!(store.get_command("myapp"), Err(StoreError::Malformed));
    assert_eq!(store.get_command("none"), Err(StoreError::NotFound));
}

#[test]
fn unregister_twice_and_unknown() {
    let mut store = MemoryStore::new();
    store.register("myapp", &strings(&["a.exe", "%1"]), "C:\\hermes.exe", None).unwrap();
    store.register("keep", &strings(&["k.exe"]), "C:\\hermes.exe", None).unwrap();
    store.unregister("myapp");
    assert!(!store.has_tree("SOFTWARE\\Classes\\myapp"));
    assert!(!store.has_tree("Software\\bitSpatter\\Hermes\\Protocols\\myapp"));
    assert_eq!(store.get_command("myapp"), Err(StoreError::NotFound));
    store.unregister("myapp");
    store.unregister("never");
    assert!(!store.has_tree("SOFTWARE\\Classes\\myapp"));
    assert_eq!(store.get_command("keep"), Ok(strings(&["k.exe"])));
    assert!(store.has_tree("SOFTWARE\\Classes\\keep"));
}

#[test]
fn tree_membership() {
    assert!(key_is_under("A\\B", "A"));
    assert!(key_is_under("A", "A"));
    assert!(!key_is_under("AB", "A"));
    assert!(!key_is_under("A", "A\\B"));
}

#[test]
fn store_values_last_write_wins() {
    let mut store = MemoryStore::new();
    store.set_value(hermes::RegWrite { key: "K".to_string(), name: "n".to_string(), data: RegData::Text("1".to_string()) });
    store.set_value(hermes::RegWrite { key: "K".to_string(), name: "n".to_string(), data: RegData::Text("2".to_string()) });
    assert_eq!(text(&store.get_value("K", "n").unwrap()), "2");
    assert!(store.get_value("K", "m").is_none());
    store.remove_tree("K");
    assert!(store.get_value("K", "n").is_none());
}

#[test]
fn registration_lowers_the_scheme() {
    let plan = registration_plan("MyApp", &strings(&["a.exe"]), "C:\\h.exe", None).unwrap();
    assert_eq!(plan[0].key, "SOFTWARE\\Classes\\myapp");
    assert_eq!(text(&plan[0].data), "URL:myapp Protocol");
    assert_eq!(plan[4].key, "Software\\bitSpatter\\Hermes\\Protocols\\myapp");
}

#[test]
fn invalid_scheme_is_not_registered() {
    assert_eq!(registration_plan("1bad", &strings(&["a.exe"]), "C:\\h.exe", None).err(), Some(SchemeError::BadStart));
    let mut store = MemoryStore::new();
    assert_eq!(store.register("1bad", &strings(&["a.exe"]), "C:\\h.exe", None), Err(SchemeError::BadStart));
    assert_eq!(store.register("", &strings(&["a.exe"]), "C:\\h.exe", None), Err(SchemeError::Empty));
    assert_eq!(store.register("a b", &strings(&["a.exe"]), "C:\\h.exe", None), Err(SchemeError::BadChar));
    assert!(!store.has_tree("SOFTWARE\\Classes\\1bad"));
    assert!(!store.has_tree("Software\\bitSpatter\\Hermes\\Protocols\\1bad"));
    assert_eq!(store.get_command("1bad"), Err(StoreError::NotFound));
}
