use headless_browser::conf::{get_default_chrome_bin, Os};
use headless_browser::supervisor::{
    build_alternate_args, patch_launch_args, resolve_backend_kind, BackendKind, InstanceRegistry,
};

#[test]
fn shutdown_idempotent_on_empty_registry() {
    let mut reg = InstanceRegistry::new();
    let first = reg.take_all();
    assert_eq!(first.len(), 0);
    assert_eq!(reg.len(), 0);
    let second = reg.take_all();
    assert_eq!(second.len(), 0);
    assert_eq!(reg.len(), 0);
}

#[test]
fn registry_records_and_clears() {
    let mut reg = InstanceRegistry::new();
    reg.record_fork(41);
    reg.record_fork(42);
    reg.record_fork(42);
    reg.record_fork(0);
    assert_eq!(reg.len(), 2);
    assert!(reg.contains(41));
    assert!(reg.contains(42));
    assert!(!reg.contains(0));
    let mut victims = reg.take_all();
    victims.sort();
    assert_eq!(victims, vec![41, 42]);
    assert_eq!(reg.len(), 0);
}

#[test]
fn backend_kind_by_suffix() {
    assert_eq!(
        resolve_backend_kind(b"/opt/lightpanda-x86_64-linux"),
        BackendKind::Alternate
    );
    assert_eq!(
        resolve_backend_kind(b"/apps/lightpanda-aarch64-macos"),
        BackendKind::Alternate
    );
    assert_eq!(resolve_backend_kind(b"/usr/bin/chromium"), BackendKind::Primary);
    assert_eq!(resolve_backend_kind(b""), BackendKind::Primary);
}

#[test]
fn launch_args_patching() {
    let base: Vec<Vec<u8>> = vec![
        b"--remote-debugging-address=0.0.0.0".to_vec(),
        b"--remote-debugging-port=9223".to_vec(),
        b"--headless".to_vec(),
    ];
    let mut args = base.clone();
    patch_launch_args(&mut args, b"10.0.0.5", Some(9224));
    assert_eq!(args[0], b"--remote-debugging-address=10.0.0.5".to_vec());
    assert_eq!(args[1], b"--remote-debugging-port=9224".to_vec());
    assert_eq!(args[2], b"--headless".to_vec());

    let mut untouched = base.clone();
    patch_launch_args(&mut untouched, b"", None);
    assert_eq!(untouched, base);
}

#[test]
fn alternate_args_shape() {
    let args = build_alternate_args(b"0.0.0.0", 9223);
    assert_eq!(args.len(), 4);
    assert_eq!(args[0], b"--port".to_vec());
    assert_eq!(args[1], b"9223".to_vec());
    assert_eq!(args[2], b"--host".to_vec());
    assert_eq!(args[3], b"0.0.0.0".to_vec());
}

#[test]
fn default_chrome_bin_per_os() {
    assert_eq!(get_default_chrome_bin(Os::Windows, false), "chrome.exe");
    assert_eq!(get_default_chrome_bin(Os::Windows, true), "brave-browser.exe");
    assert_eq!(
        get_default_chrome_bin(Os::MacOs, false),
        "/Applications/Google Chrome.app/Contents/MacOS/Google Chrome"
    );
    assert_eq!(
        get_default_chrome_bin(Os::MacOs, true),
        "/Applications/Brave Browser.app/Contents/MacOS/Brave Browser"
    );
    assert_eq!(get_default_chrome_bin(Os::Linux, false), "chromium");
    assert_eq!(get_default_chrome_bin(Os::Linux, true), "brave-browser");
    assert_eq!(get_default_chrome_bin(Os::Other, false), "chrome");
    assert_eq!(get_default_chrome_bin(Os::Other, true), "brave");
}
