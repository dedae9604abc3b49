use plutonium_launcher::patch::{inject_script_tag, is_patched_file};

const TAG: &str = r#"<script src="controller-nav.js"></script>"#;

#[test]
fn injects_before_body_close() {
    let html = r#"<html><body><div id="app"></div></body></html>"#;
    let out = inject_script_tag(html);
    assert!(out.contains(r#"<script src="controller-nav.js"></script></body>"#));
}

#[test]
fn does_not_double_inject() {
    let html = r#"<body><script src="controller-nav.js"></script></body>"#;
    let out = inject_script_tag(html);
    let count = out.matches(r#"controller-nav.js"#).count();
    assert_eq!(count, 1);
}

#[test]
fn injects_exactly_before_body_close() {
    let html = r#"<html><body><div id="app"></div></body></html>"#;
    let out = inject_script_tag(html);
    assert_eq!(
        out,
        format!(r#"<html><body><div id="app"></div>{}</body></html>"#, TAG)
    );
}

#[test]
fn injects_before_the_last_body_close() {
    let out = inject_script_tag("a</body>b</body>c");
    assert_eq!(out, format!("a</body>b{}</body>c", TAG));
}

#[test]
fn appends_when_there_is_no_body_close() {
    let out = inject_script_tag("<html><div></div></html>");
    assert_eq!(out, format!("<html><div></div></html>{}", TAG));
    assert_eq!(inject_script_tag(""), TAG);
}

#[test]
fn already_patched_page_is_unchanged() {
    let html = format!("<body>{}<p>x</p></body>", TAG);
    assert_eq!(inject_script_tag(&html), html);
}

#[test]
fn injection_is_idempotent() {
    for html in [
        "<html><body></body></html>",
        "no body here",
        "</body></body>",
        "<BODY></BODY>",
        "üñí</body>çødé",
    ] {
        let once = inject_script_tag(html);
        let twice = inject_script_tag(&once);
        assert_eq!(once, twice);
        assert_eq!(twice.matches(TAG).count(), 1);
    }
}

#[test]
fn non_ascii_page_keeps_its_characters() {
    let out = inject_script_tag("<body>日本語</body>");
    assert_eq!(out, format!("<body>日本語{}</body>", TAG));
}

#[test]
fn patched_files_are_the_two_managed_files() {
    assert!(is_patched_file("launcher/assets/index.html"));
    assert!(is_patched_file("launcher/assets/controller-nav.js"));
    assert!(!is_patched_file("launcher/assets/index.htm"));
    assert!(!is_patched_file("bin/plutonium-bootstrapper-win32.exe"));
    assert!(!is_patched_file(""));
    assert!(!is_patched_file("Launcher/assets/index.html"));
}
