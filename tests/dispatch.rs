use hermes::{
    channel_message, channel_name, fallback_command, get_path_and_extras, needs_fallback,
    parse_target, replace_placeholder, resolve, target_from_parts, DispatchError, MemoryStore,
    ProbeOutcome, Resolution, SpawnRequest, StoreError, UrlParts,
};

fn strings(v: &[&str]) -> Vec<String> {
    v.iter().map(|s| s.to_string()).collect()
}

#[test]
fn full_path_with_path_and_query() {
    let t = parse_target("scheme://host/path?q=1").unwrap();
    assert_eq!(t.scheme, "scheme");
    assert_eq!(t.host, "host");
    assert_eq!(t.full_path, "/host/path?q=1");
}

#[test]
fn full_path_of_bare_host() {
    let t = parse_target("scheme://host").unwrap();
    assert_eq!(t.full_path, "/host");
}

#[test]
fn scheme_is_lowered_by_url_parsing() {
    let t = parse_target("MyApp://Server/File.txt").unwrap();
    assert_eq!(t.scheme, "myapp");
    assert_eq!(t.full_path, "/Server/File.txt");
}

#[test]
fn invalid_url_is_rejected() {
    assert_eq!(parse_target("not a url").err(), Some(DispatchError::InvalidUrl));
    assert_eq!(parse_target("").err(), Some(DispatchError::InvalidUrl));
}

#[test]
fn url_without_host_is_rejected() {
    assert_eq!(parse_target("myapp:/no/host").err(), Some(DispatchError::MissingHost));
}

#[test]
fn path_and_query_are_joined() {
    let parts = UrlParts {
        scheme: "s".to_string(),
        host: Some("h".to_string()),
        path: "/a/b".to_string(),
        query: Some("x=1&y=2".to_string()),
    };
    assert_eq!(get_path_and_extras(&parts), "/a/b?x=1&y=2");
    let t = target_from_parts(parts).unwrap();
    assert_eq!(t.full_path, "/h/a/b?x=1&y=2");
}

#[test]
fn parts_without_host_fail() {
    let parts = UrlParts { scheme: "s".to_string(), host: None, path: "/a".to_string(), query: None };
    assert_eq!(target_from_parts(parts).err(), Some(DispatchError::MissingHost));
}

#[test]
fn placeholder_replaced_everywhere() {
    assert_eq!(replace_placeholder("a%1b%1", "X"), "aXbX");
    assert_eq!(replace_placeholder("%%1", "X"), "%X");
    assert_eq!(replace_placeholder("%", "X"), "%");
    assert_eq!(replace_placeholder("no placeholder", "X"), "no placeholder");
    assert_eq!(replace_placeholder("", "X"), "");
}

#[test]
fn fallback_substitutes_full_path() {
    let req = fallback_command("/host/p", Ok(strings(&["C:\\app.exe", "--open", "%1"]))).unwrap();
    assert_eq!(req.exe, "C:\\app.exe");
    assert_eq!(req.args, strings(&["--open", "/host/p"]));
}

#[test]
fn fallback_substitutes_each_occurrence() {
    let req = fallback_command("/h", Ok(strings(&["app", "%1=%1", "%1"]))).unwrap();
    assert_eq!(req.args, strings(&["/h=/h", "/h"]));
}

#[test]
fn fallback_errors() {
    assert_eq!(fallback_command("/h", Err(StoreError::NotFound)).err(), Some(DispatchError::NotRegistered));
    assert_eq!(fallback_command("/h", Err(StoreError::Malformed)).err(), Some(DispatchError::MalformedConfig));
    assert_eq!(fallback_command("/h", Ok(Vec::new())).err(), Some(DispatchError::MalformedConfig));
}

#[test]
fn fallback_with_executable_only() {
    let req = fallback_command("/h", Ok(strings(&["app"]))).unwrap();
    assert_eq!(req, SpawnRequest { exe: "app".to_string(), args: Vec::new() });
}

#[test]
fn only_delivery_avoids_fallback() {
    assert!(!needs_fallback(ProbeOutcome::Delivered));
    assert!(needs_fallback(ProbeOutcome::NoListener));
    assert!(needs_fallback(ProbeOutcome::TransientError));
}

#[test]
fn channel_name_carries_scheme() {
    assert_eq!(channel_name("myapp"), "bitSpatter\\Hermes\\myapp");
}

#[test]
fn register_then_dispatch_without_listener_spawns() {
    let mut store = MemoryStore::new();
    store.register("myapp", &strings(&["notepad.exe", "%1"]), "C:\\hermes.exe", None).unwrap();
    let t = parse_target("myapp://server/file.txt").unwrap();
    let r = resolve(&store, &t, ProbeOutcome::NoListener).unwrap();
    assert_eq!(
        r,
        Resolution::Launch(SpawnRequest { exe: "notepad.exe".to_string(), args: strings(&["/server/file.txt"]) })
    );
    let r = resolve(&store, &t, ProbeOutcome::TransientError).unwrap();
    assert!(matches!(r, Resolution::Launch(_)));
}

#[test]
fn dispatch_with_listener_delivers_payload() {
    let store = MemoryStore::new();
    let t = parse_target("myapp://server/file.txt?x=%C3%A9").unwrap();
    let m = channel_message(&t);
    assert_eq!(m.channel, "bitSpatter\\Hermes\\myapp");
    assert_eq!(m.payload, b"/server/file.txt?x=%C3%A9".to_vec());
    assert_eq!(resolve(&store, &t, ProbeOutcome::Delivered), Ok(Resolution::Delivered));
}

#[test]
fn dispatch_of_unregistered_scheme_fails() {
    let store = MemoryStore::new();
    let t = parse_target("other://server/x").unwrap();
    assert_eq!(resolve(&store, &t, ProbeOutcome::NoListener), Err(DispatchError::NotRegistered));
}
