use plutonium_launcher::launcher::{has_flag, install_dir_arg, is_launcher_process, parse_args};
use plutonium_launcher::updater::Mode;

fn args(a: &[&str]) -> Vec<String> {
    a.iter().map(|s| s.to_string()).collect()
}

fn utf16_buf(name: &str) -> Vec<u16> {
    let mut v: Vec<u16> = name.encode_utf16().collect();
    v.push(0);
    v.extend([b'x' as u16; 5]);
    v
}

#[test]
fn flags_select_the_mode() {
    let o = parse_args(&args(&["plutonium.exe"]));
    assert!(matches!(o.mode, Mode::Run));
    assert!(o.fast_verify);
    assert!(o.install_dir.is_none());
    let o = parse_args(&args(&["plutonium.exe", "--update-only", "--full-verify"]));
    assert!(matches!(o.mode, Mode::SyncOnly));
    assert!(!o.fast_verify);
    let o = parse_args(&args(&["plutonium.exe", "--update-only", "--no-update"]));
    assert!(matches!(o.mode, Mode::LaunchOnly));
}

#[test]
fn has_flag_needs_an_exact_match() {
    assert!(has_flag(&args(&["a", "--no-update"]), "--no-update"));
    assert!(!has_flag(&args(&["a", "--no-updates"]), "--no-update"));
    assert!(!has_flag(&args(&[]), "--no-update"));
}

#[test]
fn install_dir_forms() {
    assert_eq!(install_dir_arg(&args(&["p", "--install-dir=C:\\Games\\P"])), Some("C:\\Games\\P".to_string()));
    assert_eq!(install_dir_arg(&args(&["p", "--install-dir", "D:\\x"])), Some("D:\\x".to_string()));
    // A trailing flag with no value names nothing.
    assert_eq!(install_dir_arg(&args(&["p", "--install-dir"])), None);
    // The first argument that names a directory wins.
    assert_eq!(
        install_dir_arg(&args(&["p", "--install-dir", "a", "--install-dir=b"])),
        Some("a".to_string())
    );
    assert_eq!(install_dir_arg(&args(&["p", "--install-dir="])), Some(String::new()));
    assert_eq!(parse_args(&args(&["p", "--install-dir=é"])).install_dir, Some("é".to_string()));
}

#[test]
fn launcher_process_name_is_case_insensitive() {
    assert!(is_launcher_process(&utf16_buf("plutonium-launcher-win32.exe")));
    assert!(is_launcher_process(&utf16_buf("Plutonium-Launcher-WIN32.EXE")));
    assert!(!is_launcher_process(&utf16_buf("plutonium-bootstrapper-win32.exe")));
    assert!(!is_launcher_process(&utf16_buf("")));
    // The whole name must match.
    assert!(!is_launcher_process(&utf16_buf("xplutonium-launcher-win32.exe")));
    assert!(!is_launcher_process(&utf16_buf("plutonium-launcher-win32.exe.bak")));
    assert!(!is_launcher_process(&utf16_buf("plutonium-launcher-win32")));
    // Only the part before the NUL counts.
    let mut buf = utf16_buf("plutonium");
    buf.extend("-launcher-win32".encode_utf16());
    assert!(!is_launcher_process(&buf));
}
