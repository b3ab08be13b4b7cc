use webpage_app::address::{check_scheme, validate_url, UrlParts};
use webpage_app::error::ConvertError;
use webpage_app::package::{
    build_command, build_outcome, build_report, installer_path, BuildOutput,
};
use webpage_app::window::{preview_label, preview_title, preview_window};

const ROOT: &str = "C:/_code/generated-apps/example-com-app";

const INSTALLER: &str = "C:/_code/generated-apps/example-com-app/src-tauri/target/release/bundle/msi/example-com-app_0.1.0_x64_en-US.msi";

#[test]
fn preview_of_example_com() {
    let url = validate_url("https://example.com/page").unwrap();
    let plan = preview_window(&url, "main");
    assert_eq!(plan.label, "web-window-main");
    assert_eq!(plan.title, "example.com (Preview)");
    assert_eq!(plan.url, "https://example.com/page");
    assert_eq!(plan.width, 1024);
    assert_eq!(plan.height, 768);
    assert!(plan.centered);
    assert!(plan.decorated);
    assert!(plan.resizable);
    assert!(!plan.fullscreen);
    assert!(!plan.always_on_top);
}

#[test]
fn preview_of_an_address_host() {
    let url = validate_url("http://127.0.0.1/").unwrap();
    let plan = preview_window(&url, "settings");
    assert_eq!(plan.label, "web-window-settings");
    assert_eq!(plan.title, "127.0.0.1 (Preview)");
    assert_eq!(plan.url, "http://127.0.0.1/");
}

#[test]
fn preview_of_a_url_without_a_host() {
    let parts = UrlParts {
        scheme: "http".to_string(),
        host: None,
        href: "http:///".to_string(),
    };
    let url = check_scheme(parts, "http:///").unwrap();
    let plan = preview_window(&url, "settings");
    assert_eq!(plan.title, "unknown (Preview)");
    assert_eq!(plan.url, "http:///");
}

#[test]
fn preview_labels_follow_the_origin() {
    assert_eq!(preview_label(""), "web-window-");
    assert_eq!(preview_label("a"), "web-window-a");
    assert_ne!(preview_label("a"), preview_label("b"));
    assert_eq!(preview_title("x.y"), "x.y (Preview)");
}

#[test]
fn build_command_of_a_project() {
    let command = build_command(ROOT);
    assert_eq!(command.program, "cargo");
    assert_eq!(command.args, vec!["tauri", "build"]);
    assert_eq!(command.working_dir, "C:/_code/generated-apps/example-com-app/src-tauri");
}

#[test]
fn installer_path_of_example_com() {
    assert_eq!(installer_path(ROOT, "example.com"), INSTALLER);
}

#[test]
fn successful_build_names_the_installer() {
    let report = build_report(true, String::new(), ROOT, "example.com");
    assert_eq!(
        report,
        Ok(format!("App created successfully! You can find the installer at: {}", INSTALLER))
    );
    let text = report.unwrap();
    assert!(text.ends_with("/example-com-app_0.1.0_x64_en-US.msi"));
}

#[test]
fn successful_build_ignores_what_was_written() {
    let output = BuildOutput { success: true, stderr: b"warning: unused".to_vec() };
    let report = build_outcome(&output, ROOT, "example.com").unwrap();
    assert!(report.ends_with("example-com-app_0.1.0_x64_en-US.msi"));
    assert!(!report.contains("warning"));
}

#[test]
fn failed_build_reports_stderr_verbatim() {
    let stderr = "error: failed to run custom build command\n  caused by: boom\n";
    let report = build_report(false, stderr.to_string(), ROOT, "example.com");
    assert_eq!(report, Err(ConvertError::Build(stderr.to_string())));
    assert_eq!(report.unwrap_err().message(), stderr);
}

#[test]
fn failed_build_names_no_installer() {
    let output = BuildOutput { success: false, stderr: b"error: boom".to_vec() };
    let report = build_outcome(&output, ROOT, "example.com");
    assert_eq!(report, Err(ConvertError::Build("error: boom".to_string())));
    assert!(!report.unwrap_err().message().contains(".msi"));
}

#[test]
fn failed_build_with_empty_stderr() {
    let output = BuildOutput { success: false, stderr: Vec::new() };
    assert_eq!(build_outcome(&output, ROOT, "a.b"), Err(ConvertError::Build(String::new())));
}

#[test]
fn stderr_that_is_no_utf8_is_read_with_replacements() {
    let output = BuildOutput { success: false, stderr: vec![0x66, 0xff, 0x6f, 0xc3, 0xa9] };
    assert_eq!(
        build_outcome(&output, ROOT, "a.b"),
        Err(ConvertError::Build("f\u{fffd}o\u{e9}".to_string()))
    );
}

#[test]
fn stderr_that_is_utf8_is_reported_byte_for_byte() {
    let written = "erreur: caf\u{e9} \u{1f980} \u{4e2d}\n";
    let output = BuildOutput { success: false, stderr: written.as_bytes().to_vec() };
    let message = build_outcome(&output, ROOT, "a.b").unwrap_err().message();
    assert_eq!(message, written);
    assert_eq!(message.as_bytes(), output.stderr.as_slice());
}
