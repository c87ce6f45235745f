use dls_ecommerce::paths::resolve_runtime_paths;

#[test]
fn resolves_both_paths_under_install_dir() {
    let r = resolve_runtime_paths("/opt/app");
    assert_eq!(r.runtime_exe, "/opt/app/bin/node/node.exe");
    assert_eq!(r.entry_script, "/opt/app/bin/next/server.js");
}

#[test]
fn resolved_paths_keep_install_dir_as_prefix() {
    let r = resolve_runtime_paths("/home/user/apps/shop");
    assert!(r.runtime_exe.starts_with("/home/user/apps/shop/"));
    assert!(r.entry_script.starts_with("/home/user/apps/shop/"));
}

#[test]
fn resolved_paths_hold_no_parent_component() {
    let r = resolve_runtime_paths("/srv/install");
    assert!(!r.runtime_exe.contains(".."));
    assert!(!r.entry_script.contains(".."));
}

#[test]
fn resolves_under_windows_style_dir() {
    let r = resolve_runtime_paths("C:\\Program Files\\shop");
    assert_eq!(r.runtime_exe, "C:\\Program Files\\shop/bin/node/node.exe");
    assert_eq!(r.entry_script, "C:\\Program Files\\shop/bin/next/server.js");
}

#[test]
fn resolves_under_empty_dir_text() {
    let r = resolve_runtime_paths("");
    assert_eq!(r.runtime_exe, "/bin/node/node.exe");
    assert_eq!(r.entry_script, "/bin/next/server.js");
}
