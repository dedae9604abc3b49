use std::path::PathBuf;

use plutonium_launcher::hashing::sha1_hex;
use plutonium_launcher::manifest::{FileEntry, InfoJson, ProdJson};
use plutonium_launcher::patch::inject_script_tag;
use plutonium_launcher::updater::{
    Action, Event, Phase, Session, UpdateError, Updater, MAX_RETRIES,
    PROD_JSON_URL,
};

const HTML: &str = r#"<html><body><div id="app"></div></body></html>"#;
const TARGET: &str = "bin/plutonium-launcher-win32.exe";

fn entry(name: &str, data: &[u8]) -> FileEntry {
    FileEntry { name: name.to_string(), size: data.len() as u64, hash: sha1_hex(data) }
}

const BASE: &str = "https://mirror.example/files/";

fn url_of(data: &[u8]) -> String {
    format!("{}{}", BASE, sha1_hex(data))
}

fn prod(manifests: &[&str]) -> Event {
    Event::Prod(ProdJson {
        manifests: manifests.iter().map(|m| m.to_string()).collect(),
        launch_target: TARGET.to_string(),
        yeet: vec![],
    })
}

fn manifest(revision: u64, files: Vec<FileEntry>) -> Event {
    Event::Manifest(InfoJson {
        revision,
        base_url: BASE.to_string(),
        files,
    })
}

fn standard_files() -> Vec<FileEntry> {
    vec![
        entry("launcher/assets/index.html", HTML.as_bytes()),
        entry("launcher/assets/controller-nav.js", b"js"),
        entry("bin/a.dll", b"AAAA"),
        entry("bin/b.dll", b"BB"),
    ]
}

fn updater() -> Updater {
    Updater::new(PathBuf::from("/opt/plutonium"))
}

/// Drive a session up to the inspection of the first game file.
fn to_first_file(session: &mut Session) {
    let a = session.advance(prod(&["m1"]));
    assert!(matches!(a, Action::FetchManifest { ref url } if url == "m1"));
    let a = session.advance(manifest(5, standard_files()));
    assert!(matches!(a, Action::Download { ref url } if *url == url_of(HTML.as_bytes())));
    let a = session.advance(Event::Downloaded(HTML.as_bytes().to_vec()));
    assert!(matches!(a, Action::Inspect { index: 2, ref name, read_contents: false } if name == "bin/a.dll"));
}

#[test]
fn updater_defaults_to_fast_verify() {
    let u = updater();
    assert!(u.fast_verify);
    assert_eq!(u.install_dir, PathBuf::from("/opt/plutonium"));
    let u = u.with_fast_verify(false);
    assert!(!u.fast_verify);
    assert_eq!(u.install_dir, PathBuf::from("/opt/plutonium"));
}

#[test]
fn each_file_downloads_from_its_own_manifest_base() {
    let (mut s, _) = updater().sync();
    s.advance(prod(&["m1", "m2"]));
    s.advance(Event::Manifest(InfoJson {
        revision: 1,
        base_url: "https://a.example/".to_string(),
        files: vec![entry("bin/a.dll", b"AAAA")],
    }));
    let a = s.advance(Event::Manifest(InfoJson {
        revision: 2,
        base_url: "https://b.example/x/".to_string(),
        files: vec![entry("launcher/assets/index.html", HTML.as_bytes())],
    }));
    assert!(matches!(a, Action::Download { ref url }
        if *url == format!("https://b.example/x/{}", sha1_hex(HTML.as_bytes()))));
    s.advance(Event::Downloaded(HTML.as_bytes().to_vec()));
    let a = s.advance(Event::Missing);
    assert!(matches!(a, Action::Download { ref url }
        if *url == format!("https://a.example/{}", sha1_hex(b"AAAA"))));
    assert_eq!(s.file_bases, vec!["https://a.example/".to_string(), "https://b.example/x/".to_string()]);
}

#[test]
fn full_run_downloads_writes_patches_and_launches() {
    let (mut s, a) = updater().run();
    assert!(matches!(a, Action::FetchProd { ref url } if url == PROD_JSON_URL));
    to_first_file(&mut s);
    // a.dll is missing locally: download it; the first download is corrupt.
    let a = s.advance(Event::Missing);
    assert!(matches!(a, Action::Download { ref url } if *url == url_of(b"AAAA")));
    let a = s.advance(Event::Downloaded(b"AAAB".to_vec()));
    assert!(matches!(a, Action::Download { ref url } if *url == url_of(b"AAAA")));
    let a = s.advance(Event::Downloaded(b"AAAA".to_vec()));
    assert!(matches!(a, Action::WriteFile { index: 2, ref name, ref bytes } if name == "bin/a.dll" && bytes == b"AAAA"));
    let a = s.advance(Event::Done);
    assert!(matches!(a, Action::Inspect { index: 3, ref name, read_contents: false } if name == "bin/b.dll"));
    // b.dll has the right size: nothing to do.
    let a = s.advance(Event::LocalSize(2));
    match a {
        Action::WritePatched { index_html } => assert_eq!(index_html, inject_script_tag(HTML)),
        other => panic!("unexpected {:?}", other),
    }
    let a = s.advance(Event::Done);
    assert!(matches!(a, Action::WriteInfoCache { revision: 5, ref launch_target } if launch_target == TARGET));
    let a = s.advance(Event::Done);
    assert!(matches!(a, Action::Launch { ref target } if target == TARGET));
    let a = s.advance(Event::Done);
    assert!(matches!(a, Action::Finish));
    assert!(matches!(s.phase, Phase::Finished));
    let a = s.advance(Event::Done);
    assert!(matches!(a, Action::Abort(UpdateError::UnexpectedEvent)));
}

#[test]
fn sync_only_never_launches() {
    let (mut s, _) = updater().sync();
    to_first_file(&mut s);
    let a = s.advance(Event::LocalSize(4));
    assert!(matches!(a, Action::Inspect { index: 3, .. }));
    let a = s.advance(Event::LocalSize(2));
    assert!(matches!(a, Action::WritePatched { .. }));
    let a = s.advance(Event::Done);
    assert!(matches!(a, Action::WriteInfoCache { revision: 5, .. }));
    let a = s.advance(Event::Done);
    assert!(matches!(a, Action::Finish));
}

#[test]
fn wrong_size_triggers_download() {
    let (mut s, _) = updater().run();
    to_first_file(&mut s);
    let a = s.advance(Event::LocalSize(3));
    assert!(matches!(a, Action::Download { ref url } if *url == url_of(b"AAAA")));
}

#[test]
fn full_verify_compares_contents() {
    let (mut s, _) = updater().with_fast_verify(false).run();
    s.advance(prod(&["m1"]));
    s.advance(manifest(1, standard_files()));
    let a = s.advance(Event::Downloaded(HTML.as_bytes().to_vec()));
    assert!(matches!(a, Action::Inspect { index: 2, read_contents: true, .. }));
    let a = s.advance(Event::LocalContents(b"AAAA".to_vec()));
    assert!(matches!(a, Action::Inspect { index: 3, read_contents: true, .. }));
    // Same size, other contents: download.
    let a = s.advance(Event::LocalContents(b"XY".to_vec()));
    assert!(matches!(a, Action::Download { ref url } if *url == url_of(b"BB")));
}

#[test]
fn manifests_are_fetched_in_order_and_revisions_summed() {
    let (mut s, _) = updater().sync();
    let a = s.advance(prod(&["m1", "m2"]));
    assert!(matches!(a, Action::FetchManifest { ref url } if url == "m1"));
    let a = s.advance(manifest(3, vec![entry("bin/a.dll", b"AAAA")]));
    assert!(matches!(a, Action::FetchManifest { ref url } if url == "m2"));
    let a = s.advance(manifest(4, vec![entry("launcher/assets/index.html", HTML.as_bytes())]));
    assert!(matches!(a, Action::Download { ref url } if *url == url_of(HTML.as_bytes())));
    assert_eq!(s.files.len(), 2);
    assert_eq!(s.revisions, vec![3, 4]);
    let a = s.advance(Event::Downloaded(HTML.as_bytes().to_vec()));
    assert!(matches!(a, Action::Inspect { index: 0, .. }));
    let a = s.advance(Event::Missing);
    assert!(matches!(a, Action::Download { .. }));
    let a = s.advance(Event::Downloaded(b"AAAA".to_vec()));
    assert!(matches!(a, Action::WriteFile { index: 0, .. }));
    let a = s.advance(Event::Done);
    assert!(matches!(a, Action::WritePatched { .. }));
    let a = s.advance(Event::Done);
    assert!(matches!(a, Action::WriteInfoCache { revision: 7, .. }));
}

#[test]
fn missing_index_html_in_manifest_aborts() {
    let (mut s, _) = updater().run();
    s.advance(prod(&["m1"]));
    let a = s.advance(manifest(1, vec![entry("bin/a.dll", b"AAAA")]));
    assert!(matches!(a, Action::Abort(UpdateError::IndexHtmlNotInManifest)));
    let (mut s, _) = updater().run();
    let a = s.advance(prod(&[]));
    assert!(matches!(a, Action::Abort(UpdateError::IndexHtmlNotInManifest)));
}

#[test]
fn corrupt_index_html_is_not_retried() {
    let (mut s, _) = updater().run();
    s.advance(prod(&["m1"]));
    s.advance(manifest(1, standard_files()));
    let a = s.advance(Event::Downloaded(b"<html>tampered</html>".to_vec()));
    match a {
        Action::Abort(UpdateError::Sha1(m)) => {
            assert_eq!(m.expected, sha1_hex(HTML.as_bytes()));
            assert_eq!(m.actual, sha1_hex(b"<html>tampered</html>"));
        }
        other => panic!("unexpected {:?}", other),
    }
}

#[test]
fn index_html_must_be_utf8() {
    let bad = vec![0x3c, 0xff, 0xfe, 0x3e];
    let files = vec![entry("launcher/assets/index.html", &bad)];
    let (mut s, _) = updater().run();
    s.advance(prod(&["m1"]));
    s.advance(manifest(1, files));
    let a = s.advance(Event::Downloaded(bad));
    assert!(matches!(a, Action::Abort(UpdateError::HtmlNotUtf8)));
}

#[test]
fn index_html_download_is_retried_on_failure() {
    let (mut s, _) = updater().run();
    s.advance(prod(&["m1"]));
    s.advance(manifest(1, standard_files()));
    for _ in 1..MAX_RETRIES {
        let a = s.advance(Event::Failed("timeout".to_string()));
        assert!(matches!(a, Action::Download { ref url } if *url == url_of(HTML.as_bytes())));
    }
    let a = s.advance(Event::Failed("last".to_string()));
    assert!(matches!(a, Action::Abort(UpdateError::Io(ref m)) if m == "last"));
}

#[test]
fn file_download_gives_up_after_three_attempts() {
    let (mut s, _) = updater().run();
    to_first_file(&mut s);
    s.advance(Event::Missing);
    let a = s.advance(Event::Failed("reset".to_string()));
    assert!(matches!(a, Action::Download { .. }));
    let a = s.advance(Event::Downloaded(b"nope".to_vec()));
    assert!(matches!(a, Action::Download { .. }));
    let a = s.advance(Event::Downloaded(b"nope".to_vec()));
    match a {
        Action::Abort(UpdateError::Sha1(m)) => {
            assert_eq!(m.expected, sha1_hex(b"AAAA"));
            assert_eq!(m.actual, sha1_hex(b"nope"));
        }
        other => panic!("unexpected {:?}", other),
    }
    assert!(matches!(s.phase, Phase::Failed));
}

#[test]
fn io_failures_abort() {
    let (mut s, _) = updater().run();
    let a = s.advance(Event::Failed("dns".to_string()));
    assert!(matches!(a, Action::Abort(UpdateError::Io(ref m)) if m == "dns"));
    let (mut s, _) = updater().run();
    to_first_file(&mut s);
    s.advance(Event::Missing);
    s.advance(Event::Downloaded(b"AAAA".to_vec()));
    let a = s.advance(Event::Failed("disk full".to_string()));
    assert!(matches!(a, Action::Abort(UpdateError::Io(ref m)) if m == "disk full"));
}

#[test]
fn revision_overflow_aborts_before_cache() {
    let (mut s, _) = updater().run();
    s.advance(prod(&["m1", "m2"]));
    s.advance(manifest(u64::MAX, vec![]));
    s.advance(manifest(1, vec![entry("launcher/assets/index.html", HTML.as_bytes())]));
    let a = s.advance(Event::Downloaded(HTML.as_bytes().to_vec()));
    assert!(matches!(a, Action::WritePatched { .. }));
    let a = s.advance(Event::Done);
    assert!(matches!(a, Action::Abort(UpdateError::RevisionOverflow)));
}

#[test]
fn unexpected_event_aborts() {
    let (mut s, _) = updater().run();
    let a = s.advance(Event::Done);
    assert!(matches!(a, Action::Abort(UpdateError::UnexpectedEvent)));
    assert!(matches!(s.phase, Phase::Failed));
}

#[test]
fn launch_only_repatches_and_launches_cached_target() {
    let (mut s, a) = updater().launch_only();
    assert!(matches!(a, Action::ReadInstalledHtml));
    let patched = inject_script_tag(HTML);
    let a = s.advance(Event::InstalledHtml(patched.clone()));
    match a {
        Action::WritePatched { index_html } => assert_eq!(index_html, patched),
        other => panic!("unexpected {:?}", other),
    }
    let a = s.advance(Event::Done);
    assert!(matches!(a, Action::ReadInfoCache));
    let a = s.advance(Event::LaunchTarget(Some(TARGET.to_string())));
    assert!(matches!(a, Action::Launch { ref target } if target == TARGET));
    let a = s.advance(Event::Done);
    assert!(matches!(a, Action::Finish));
}

#[test]
fn launch_only_errors() {
    let (mut s, _) = updater().launch_only();
    assert!(matches!(s.advance(Event::Missing), Action::Abort(UpdateError::InstalledHtmlMissing)));
    let (mut s, _) = updater().launch_only();
    s.advance(Event::InstalledHtml(HTML.to_string()));
    s.advance(Event::Done);
    assert!(matches!(s.advance(Event::Missing), Action::Abort(UpdateError::InfoCacheMissing)));
    let (mut s, _) = updater().launch_only();
    s.advance(Event::InstalledHtml(HTML.to_string()));
    s.advance(Event::Done);
    assert!(matches!(s.advance(Event::LaunchTarget(None)), Action::Abort(UpdateError::LaunchTargetMissing)));
}
