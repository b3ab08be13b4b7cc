use webpage_app::address::{check_scheme, validate_url, UrlParts};
use webpage_app::json::escape_json;
use webpage_app::scaffold::{generate_app_files, project_directories, scaffold_plan, ScaffoldConfig};
use webpage_app::templates::{build_manifest, window_config};

const EXPECTED_MANIFEST: &str = r#"[package]
name = "example-com-app"
version = "0.1.0"
description = "Generated app for example.com"
edition = "2021"

[build-dependencies]
tauri-build = { version = "1.5.0", features = [] }

[dependencies]
serde_json = "1.0"
serde = { version = "1.0", features = ["derive"] }
tauri = { version = "1.5.0", features = ["window-maximize", "window-minimize", "window-close"] }

[features]
custom-protocol = ["tauri/custom-protocol"]"#;

const EXPECTED_ENTRY_POINT: &str = r#"#![cfg_attr(not(debug_assertions), windows_subsystem = "windows")]

fn main() {
    tauri::Builder::default()
        .run(tauri::generate_context!())
        .expect("error while running tauri application");
}"#;

const EXPECTED_BUILD_SCRIPT: &str = r#"fn main() {
    tauri_build::build()
}"#;

const EXPECTED_CONFIG: &str = r#"{
  "identifier": "com.example-com.app",
  "productName": "example.com App",
  "version": "0.1.0",
  "build": {
    "beforeBuildCommand": "",
    "frontendDist": "../dist"
  },
  "app": {
    "windows": [
      {
        "fullscreen": false,
        "height": 768,
        "width": 1024,
        "resizable": true,
        "title": "example.com App",
        "url": "https://example.com/page",
        "decorations": true,
        "center": true
      }
    ]
  },
  "bundle": {
    "active": true,
    "targets": ["msi"]
  }
}"#;

const EXPECTED_PAGE: &str = r#"<!DOCTYPE html>
<html>
<head>
    <meta charset="UTF-8">
    <meta name="viewport" content="width=device-width, initial-scale=1.0">
    <title>Loading...</title>
</head>
<body>
    <div>Loading your app...</div>
</body>
</html>"#;

const EXPECTED_HOOK: &str = r#"// This file is required by Tauri
// It can be empty, but it needs to exist"#;

const EXPECTED_SCHEMA: &str = r#"{
  "$schema": "https://json-schema.org/draft/2019-09/schema#",
  "type": "object",
  "required": ["identifier"],
  "properties": {
    "identifier": { "type": "string" }
  }
}"#;

#[test]
fn manifest_of_example_com() {
    assert_eq!(build_manifest("example-com", "example.com"), EXPECTED_MANIFEST);
}

#[test]
fn window_config_of_example_com() {
    let text = window_config("example-com", "example.com", "https://example.com/page");
    assert_eq!(text, EXPECTED_CONFIG);
}

#[test]
fn window_config_points_at_the_url() {
    let text = window_config("example-com", "example.com", "https://example.com/page");
    assert!(text.contains("\"url\": \"https://example.com/page\""));
    assert!(text.contains("\"title\": \"example.com App\""));
    assert!(text.contains("\"productName\": \"example.com App\""));
    assert!(text.contains("\"identifier\": \"com.example-com.app\""));
    assert_eq!(text.matches("\"url\": ").count(), 1);
}

#[test]
fn window_config_escapes_what_it_is_given() {
    let text = window_config("a\"b", "a\"b", "http://a.b/?q=\"x\"&r=\\q\n");
    assert!(text.contains("\"url\": \"http://a.b/?q=\\\"x\\\"&r=\\\\q\\u000a\",\n"));
    assert!(text.contains("\"identifier\": \"com.a\\\"b.app\",\n"));
    assert!(text.contains("\"productName\": \"a\\\"b App\",\n"));
    assert!(text.contains("\"title\": \"a\\\"b App\",\n"));
}

#[test]
fn window_config_is_json_for_a_backslash_in_the_query() {
    let url = validate_url("https://example.com/?a=\\q#b\\c").unwrap();
    assert!(url.as_str().contains('\\'));
    let files = generate_app_files(&url);
    let document: serde_json::Value = serde_json::from_str(&files[3].content).unwrap();
    assert_eq!(document["app"]["windows"][0]["url"].as_str(), Some(url.as_str()));
    assert_eq!(document["app"]["windows"][0]["title"].as_str(), Some("example.com App"));
    assert_eq!(document["productName"].as_str(), Some("example.com App"));
    assert_eq!(document["identifier"].as_str(), Some("com.example-com.app"));
}

#[test]
fn window_config_is_json_whatever_it_is_given() {
    let nasty = "q\"u\\o\u{0}t\u{1f}e\n\t\u{7f}\u{e9}\u{1f980}/";
    let text = window_config(nasty, nasty, nasty);
    let document: serde_json::Value = serde_json::from_str(&text).unwrap();
    assert_eq!(document["app"]["windows"][0]["url"].as_str(), Some(nasty));
    assert_eq!(
        document["app"]["windows"][0]["title"].as_str(),
        Some(format!("{} App", nasty).as_str())
    );
    assert_eq!(document["productName"].as_str(), Some(format!("{} App", nasty).as_str()));
    assert_eq!(document["identifier"].as_str(), Some(format!("com.{}.app", nasty).as_str()));
    assert_eq!(document["version"].as_str(), Some("0.1.0"));
    assert_eq!(document["app"]["windows"][0]["width"].as_u64(), Some(1024));
    assert_eq!(document["app"]["windows"][0]["height"].as_u64(), Some(768));
    assert_eq!(document["bundle"]["targets"][0].as_str(), Some("msi"));
}

#[test]
fn escaping_spells_each_character() {
    assert_eq!(escape_json(""), "");
    assert_eq!(escape_json("https://example.com/page"), "https://example.com/page");
    assert_eq!(escape_json("\""), "\\\"");
    assert_eq!(escape_json("\\"), "\\\\");
    assert_eq!(escape_json("a\\q"), "a\\\\q");
    assert_eq!(escape_json("\u{0}"), "\\u0000");
    assert_eq!(escape_json("\n"), "\\u000a");
    assert_eq!(escape_json("\t\r"), "\\u0009\\u000d");
    assert_eq!(escape_json("\u{1b}\u{1f}"), "\\u001b\\u001f");
    assert_eq!(escape_json(" \u{7f}/'"), " \u{7f}/'");
    assert_eq!(escape_json("caf\u{e9} \u{1f980}"), "caf\u{e9} \u{1f980}");
}

#[test]
fn escaped_text_reads_back() {
    for code in 0u32..0x80 {
        let c = char::from_u32(code).unwrap();
        let text = format!("x{}y", c);
        let quoted = format!("\"{}\"", escape_json(&text));
        let read: String = serde_json::from_str(&quoted).unwrap();
        assert_eq!(read, text);
    }
}

#[test]
fn manifest_names_package_and_host() {
    let text = build_manifest("unknown", "unknown");
    assert!(text.starts_with("[package]\nname = \"unknown-app\"\nversion = \"0.1.0\"\n"));
    assert!(text.contains("description = \"Generated app for unknown\"\n"));
    assert!(text.ends_with("custom-protocol = [\"tauri/custom-protocol\"]"));
}

#[test]
fn files_of_example_com() {
    let url = validate_url("https://example.com/page").unwrap();
    let files = generate_app_files(&url);
    let paths: Vec<&str> = files.iter().map(|f| f.path.as_str()).collect();
    assert_eq!(
        paths,
        vec![
            "src-tauri/Cargo.toml",
            "src-tauri/src/main.rs",
            "src-tauri/build.rs",
            "src-tauri/tauri.conf.json",
            "dist/index.html",
            "src-tauri/build-utils/main.js",
            "src-tauri/schemas/desktop-schema.json",
        ]
    );
    assert_eq!(files[0].content, EXPECTED_MANIFEST);
    assert_eq!(files[1].content, EXPECTED_ENTRY_POINT);
    assert_eq!(files[2].content, EXPECTED_BUILD_SCRIPT);
    assert_eq!(files[3].content, EXPECTED_CONFIG);
    assert_eq!(files[4].content, EXPECTED_PAGE);
    assert_eq!(files[5].content, EXPECTED_HOOK);
    assert_eq!(files[6].content, EXPECTED_SCHEMA);
}

#[test]
fn files_use_the_normalized_url() {
    let url = validate_url("HTTPS://Example.COM").unwrap();
    let files = generate_app_files(&url);
    assert!(files[3].content.contains("\"url\": \"https://example.com/\""));
    assert!(files[3].content.contains("\"identifier\": \"com.example-com.app\""));
    assert!(files[0].content.contains("name = \"example-com-app\""));
}

#[test]
fn files_of_an_address_host() {
    let url = validate_url("http://127.0.0.1/x").unwrap();
    let files = generate_app_files(&url);
    assert!(files[0].content.starts_with("[package]\nname = \"127-0-0-1-app\"\n"));
    assert!(files[0].content.contains("Generated app for 127.0.0.1\""));
    assert!(files[3].content.contains("\"identifier\": \"com.127-0-0-1.app\""));
    assert!(files[3].content.contains("\"productName\": \"127.0.0.1 App\""));
    assert!(files[3].content.contains("\"url\": \"http://127.0.0.1/x\""));
    let plan = scaffold_plan(&ScaffoldConfig::default(), &url);
    assert_eq!(plan.root, "C:/_code/generated-apps/127-0-0-1-app");
}

#[test]
fn files_of_a_url_without_a_host() {
    let parts = UrlParts {
        scheme: "http".to_string(),
        host: None,
        href: "http:///x".to_string(),
    };
    let url = check_scheme(parts, "http:///x").unwrap();
    let files = generate_app_files(&url);
    assert!(files[0].content.contains("name = \"unknown-app\""));
    assert!(files[0].content.contains("Generated app for unknown\""));
    assert!(files[3].content.contains("\"productName\": \"unknown App\""));
    assert!(files[3].content.contains("\"url\": \"http:///x\""));
}

#[test]
fn file_paths_are_distinct_and_relative() {
    let url = validate_url("https://example.com/").unwrap();
    let files = generate_app_files(&url);
    assert_eq!(files.len(), 7);
    for (i, a) in files.iter().enumerate() {
        assert!(!a.path.is_empty());
        assert!(!a.path.starts_with('/'));
        for b in files.iter().skip(i + 1) {
            assert_ne!(a.path, b.path);
        }
    }
}

#[test]
fn every_file_lies_in_a_planned_directory() {
    let url = validate_url("https://example.com/").unwrap();
    let dirs = project_directories();
    assert_eq!(
        dirs,
        vec![
            "src-tauri",
            "src-tauri/src",
            "dist",
            "src-tauri/build-utils",
            "src-tauri/schemas"
        ]
    );
    for file in generate_app_files(&url) {
        let parent = &file.path[..file.path.rfind('/').unwrap()];
        assert!(dirs.iter().any(|d| d == parent));
    }
}

#[test]
fn plan_of_example_com() {
    let url = validate_url("https://example.com/page").unwrap();
    let plan = scaffold_plan(&ScaffoldConfig::default(), &url);
    assert_eq!(plan.root, "C:/_code/generated-apps/example-com-app");
    assert_eq!(plan.dirs, project_directories());
    assert_eq!(plan.files, generate_app_files(&url));
}
