use webpage_app::address::{check_scheme, validate_url, UrlParts};
use webpage_app::naming::{
    app_name, host_name, installer_file_name, join_path, project_dir_name, APP_VERSION,
};
use webpage_app::scaffold::{app_directory, ScaffoldConfig, DEFAULT_BASE_OUTPUT_DIR};

#[test]
fn app_name_of_example_com() {
    let url = validate_url("https://example.com/page").unwrap();
    let host = host_name(&url);
    assert_eq!(host, "example.com");
    assert_eq!(app_name(&host), "example-com");
}

#[test]
fn output_directory_of_example_com() {
    let url = validate_url("https://example.com/page").unwrap();
    let config = ScaffoldConfig::default();
    assert_eq!(
        app_directory(&config, &host_name(&url)),
        format!("{}/example-com-app", DEFAULT_BASE_OUTPUT_DIR)
    );
    assert_eq!(
        app_directory(&config, "example.com"),
        "C:/_code/generated-apps/example-com-app"
    );
}

#[test]
fn output_directory_follows_the_configured_base() {
    let config = ScaffoldConfig { base_output_dir: "/tmp/out".to_string() };
    assert_eq!(app_directory(&config, "a.b.c"), "/tmp/out/a-b-c-app");
    let slashed = ScaffoldConfig { base_output_dir: "/tmp/out/".to_string() };
    assert_eq!(app_directory(&slashed, "a.b.c"), "/tmp/out/a-b-c-app");
    let empty = ScaffoldConfig { base_output_dir: String::new() };
    assert_eq!(app_directory(&empty, "a.b.c"), "a-b-c-app");
}

#[test]
fn default_base_is_the_fixed_one() {
    assert_eq!(ScaffoldConfig::default().base_output_dir, "C:/_code/generated-apps");
}

#[test]
fn every_dot_becomes_a_hyphen() {
    assert_eq!(app_name("a.b"), "a-b");
    assert_eq!(app_name("sub.example.co.uk"), "sub-example-co-uk");
    assert_eq!(app_name("..."), "---");
    assert_eq!(app_name("localhost"), "localhost");
    assert_eq!(app_name(""), "");
    assert_eq!(app_name("already-dashed.io"), "already-dashed-io");
    assert_eq!(app_name("xn--bcher-kva.example"), "xn--bcher-kva-example");
}

#[test]
fn other_characters_are_kept() {
    assert_eq!(app_name("b\u{fc}cher.de"), "b\u{fc}cher-de");
    assert_eq!(app_name("a_b.c"), "a_b-c");
}

#[test]
fn app_name_is_dashed_once_and_for_all() {
    for host in ["example.com", "a.b.c.d", "", "x"] {
        let once = app_name(host);
        assert_eq!(app_name(&once), once);
        assert!(!once.contains('.'));
        assert_eq!(once.chars().count(), host.chars().count());
        assert_eq!(once, host.replace('.', "-"));
    }
}

#[test]
fn address_host_names_the_application() {
    let url = validate_url("http://127.0.0.1/x").unwrap();
    assert_eq!(host_name(&url), "127.0.0.1");
    assert_eq!(app_name(&host_name(&url)), "127-0-0-1");
    assert_eq!(project_dir_name(&host_name(&url)), "127-0-0-1-app");
    let six = validate_url("http://[::1]:8080/").unwrap();
    assert_eq!(host_name(&six), "[::1]");
    assert_eq!(project_dir_name(&host_name(&six)), "[::1]-app");
}

#[test]
fn url_without_a_host_is_unknown() {
    let parts = UrlParts {
        scheme: "http".to_string(),
        host: None,
        href: "http:///x".to_string(),
    };
    let url = check_scheme(parts, "http:///x").unwrap();
    assert_eq!(host_name(&url), "unknown");
    assert_eq!(app_name(&host_name(&url)), "unknown");
    assert_eq!(project_dir_name(&host_name(&url)), "unknown-app");
}

#[test]
fn project_directory_name_ends_in_app() {
    assert_eq!(project_dir_name("example.com"), "example-com-app");
    assert_eq!(project_dir_name(""), "-app");
}

#[test]
fn installer_file_name_of_example_com() {
    assert_eq!(installer_file_name("example.com"), "example-com-app_0.1.0_x64_en-US.msi");
    assert_eq!(APP_VERSION, "0.1.0");
    assert!(installer_file_name("a.b").ends_with("_0.1.0_x64_en-US.msi"));
    assert!(installer_file_name("a.b").starts_with("a-b-app"));
}

#[test]
fn join_puts_one_slash_between() {
    assert_eq!(join_path("a", "b"), "a/b");
    assert_eq!(join_path("a/", "b"), "a/b");
    assert_eq!(join_path("", "b"), "b");
    assert_eq!(join_path("/", "b"), "/b");
    assert_eq!(join_path("a", ""), "a/");
    assert_eq!(join_path("C:/_code", "x/y"), "C:/_code/x/y");
    assert_eq!(join_path("d\u{e9}j\u{e0}", "vu"), "d\u{e9}j\u{e0}/vu");
}
