//! The text of every file of a generated project. A template is a run of
//! fixed segments with the application's name, the host or the URL set
//! between them. In the window configuration, which is JSON, each of them is
//! spelled as a JSON string spells it; the build manifest takes them as
//! they are.

use vstd::prelude::*;
use crate::json::{
    escape_json, is_plain, json_escaped, lemma_escaped_field_reads_back,
    lemma_plain_head_reads_on, read_json_string,
};
use crate::naming::{APP_VERSION, PROJECT_SUFFIX};

verus! {

/// The build manifest, up to the package's name.
pub const MANIFEST_OPEN: &'static str = "[package]\nname = \"";

/// The build manifest, between the package's name and its version.
pub const MANIFEST_BEFORE_VERSION: &'static str = "\"\nversion = \"";

/// The build manifest, between the version and the host in the description.
pub const MANIFEST_BEFORE_HOST: &'static str = "\"\ndescription = \"Generated app for ";

/// The build manifest, from the end of the description on: the edition, the
/// build-time dependency, the runtime dependencies and the feature.
pub const MANIFEST_CLOSE: &'static str = "\"\nedition = \"2021\"\n\n[build-dependencies]\ntauri-build = { version = \"1.5.0\", features = [] }\n\n[dependencies]\nserde_json = \"1.0\"\nserde = { version = \"1.0\", features = [\"derive\"] }\ntauri = { version = \"1.5.0\", features = [\"window-maximize\", \"window-minimize\", \"window-close\"] }\n\n[features]\ncustom-protocol = [\"tauri/custom-protocol\"]";

/// The entry point of the generated application: it starts the GUI runtime
/// with its default startup routine.
pub const ENTRY_POINT_SOURCE: &'static str = "#![cfg_attr(not(debug_assertions), windows_subsystem = \"windows\")]\n\nfn main() {\n    tauri::Builder::default()\n        .run(tauri::generate_context!())\n        .expect(\"error while running tauri application\");\n}";

/// The build script of the generated application.
pub const BUILD_SCRIPT_SOURCE: &'static str = "fn main() {\n    tauri_build::build()\n}";

/// The window configuration, up to the string of the identifier.
pub const CONFIG_OPEN: &'static str = "{\n  \"identifier\": \"";

/// What precedes the application's name in the identifier.
pub const IDENTIFIER_HEAD: &'static str = "com.";

/// What follows the application's name in the identifier.
pub const IDENTIFIER_TAIL: &'static str = ".app";

/// The window configuration, between the identifier and the product's name,
/// from the quote that closes the identifier on.
pub const CONFIG_BEFORE_PRODUCT: &'static str = "\",\n  \"productName\": \"";

/// The window configuration, between the product's name and the version,
/// from the quote that closes the name on.
pub const CONFIG_BEFORE_VERSION: &'static str = "\",\n  \"version\": \"";

/// The window configuration, between the version and the window's title:
/// the build section and the window's size and mode.
pub const CONFIG_BEFORE_TITLE: &'static str = "\",\n  \"build\": {\n    \"beforeBuildCommand\": \"\",\n    \"frontendDist\": \"../dist\"\n  },\n  \"app\": {\n    \"windows\": [\n      {\n        \"fullscreen\": false,\n        \"height\": 768,\n        \"width\": 1024,\n        \"resizable\": true,\n        \"title\": \"";

/// The window configuration, between the window's title and its URL, from
/// the quote that closes the title on.
pub const CONFIG_BEFORE_URL: &'static str = "\",\n        \"url\": \"";

/// The window configuration, from the end of the URL on: the rest of the
/// window and the bundle section.
pub const CONFIG_CLOSE: &'static str = "\",\n        \"decorations\": true,\n        \"center\": true\n      }\n    ]\n  },\n  \"bundle\": {\n    \"active\": true,\n    \"targets\": [\"msi\"]\n  }\n}";

/// What follows the host in the product's name and in the window's title.
pub const APP_WORD: &'static str = " App";

/// The page shown while the real content loads.
pub const PLACEHOLDER_PAGE: &'static str = "<!DOCTYPE html>\n<html>\n<head>\n    <meta charset=\"UTF-8\">\n    <meta name=\"viewport\" content=\"width=device-width, initial-scale=1.0\">\n    <title>Loading...</title>\n</head>\n<body>\n    <div>Loading your app...</div>\n</body>\n</html>";

/// The build hook: a file that has to exist and does nothing.
pub const BUILD_HOOK_SOURCE: &'static str = "// This file is required by Tauri\n// It can be empty, but it needs to exist";

/// The schema stub.
pub const SCHEMA_STUB: &'static str = "{\n  \"$schema\": \"https://json-schema.org/draft/2019-09/schema#\",\n  \"type\": \"object\",\n  \"required\": [\"identifier\"],\n  \"properties\": {\n    \"identifier\": { \"type\": \"string\" }\n  }\n}";

/// The build manifest of the application `app_name` generated for `host`.
pub open spec fn manifest_text(app_name: Seq<char>, host: Seq<char>) -> Seq<char> {
    MANIFEST_OPEN@ + app_name + PROJECT_SUFFIX@ + MANIFEST_BEFORE_VERSION@ + APP_VERSION@
        + MANIFEST_BEFORE_HOST@ + host + MANIFEST_CLOSE@
}

/// The window configuration of the application `app_name` generated for
/// `host`, whose one window shows `url`: each of the three stands between
/// its quotes in its JSON spelling.
pub open spec fn window_config_text(
    app_name: Seq<char>,
    host: Seq<char>,
    url: Seq<char>,
) -> Seq<char> {
    config_before_url(app_name, host) + json_escaped(url) + CONFIG_CLOSE@
}

/// The window configuration up to the string of the product's name.
pub open spec fn config_before_product(app_name: Seq<char>) -> Seq<char> {
    CONFIG_OPEN@ + IDENTIFIER_HEAD@ + json_escaped(app_name) + IDENTIFIER_TAIL@
        + CONFIG_BEFORE_PRODUCT@
}

/// The window configuration between the product's name and the window's
/// title.
pub open spec fn config_before_title(app_name: Seq<char>, host: Seq<char>) -> Seq<char> {
    config_before_product(app_name) + json_escaped(host) + APP_WORD@ + CONFIG_BEFORE_VERSION@
        + APP_VERSION@ + CONFIG_BEFORE_TITLE@
}

/// The window configuration up to the string of the `url` field.
pub open spec fn config_before_url(app_name: Seq<char>, host: Seq<char>) -> Seq<char> {
    config_before_title(app_name, host) + json_escaped(host) + APP_WORD@ + CONFIG_BEFORE_URL@
}

/// The build manifest: the package is named after the application, carries
/// the fixed version and names the host in its description.
pub fn build_manifest(app_name: &str, host: &str) -> (text: String)
    ensures
        text@ == manifest_text(app_name@, host@),
{
    let mut text = String::from_str(MANIFEST_OPEN);
    text.append(app_name);
    text.append(PROJECT_SUFFIX);
    text.append(MANIFEST_BEFORE_VERSION);
    text.append(APP_VERSION);
    text.append(MANIFEST_BEFORE_HOST);
    text.append(host);
    text.append(MANIFEST_CLOSE);
    text
}

/// The window configuration from the quote that closes the window's title
/// on.
pub open spec fn config_from_url_key(url: Seq<char>) -> Seq<char> {
    CONFIG_BEFORE_URL@ + json_escaped(url) + CONFIG_CLOSE@
}

/// The window configuration from the quote that closes the identifier on.
pub open spec fn config_from_product_key(host: Seq<char>, url: Seq<char>) -> Seq<char> {
    CONFIG_BEFORE_PRODUCT@ + json_escaped(host) + APP_WORD@ + config_from_version(host, url)
}

/// The window configuration from the quote that closes the product's name
/// on.
pub open spec fn config_from_version(host: Seq<char>, url: Seq<char>) -> Seq<char> {
    CONFIG_BEFORE_VERSION@ + APP_VERSION@ + CONFIG_BEFORE_TITLE@ + json_escaped(host) + APP_WORD@
        + config_from_url_key(url)
}

/// The window configuration: the identifier is made of the application's
/// name, product name and title of the host, and the one window's `url` is
/// the URL itself. All three are escaped, so that the strings they stand in
/// end where the template closes them, whatever they hold.
pub fn window_config(app_name: &str, host: &str, url: &str) -> (text: String)
    ensures
        text@ == window_config_text(app_name@, host@, url@),
{
    let name_spelled = escape_json(app_name);
    let host_spelled = escape_json(host);
    let url_spelled = escape_json(url);
    let mut text = String::from_str(CONFIG_OPEN);
    text.append(IDENTIFIER_HEAD);
    text.append(name_spelled.as_str());
    text.append(IDENTIFIER_TAIL);
    text.append(CONFIG_BEFORE_PRODUCT);
    text.append(host_spelled.as_str());
    text.append(APP_WORD);
    text.append(CONFIG_BEFORE_VERSION);
    text.append(APP_VERSION);
    text.append(CONFIG_BEFORE_TITLE);
    text.append(host_spelled.as_str());
    text.append(APP_WORD);
    text.append(CONFIG_BEFORE_URL);
    text.append(url_spelled.as_str());
    text.append(CONFIG_CLOSE);
    text
}

/// In the window configuration, the string of the `url` field reads back as
/// the URL itself, character for character, and ends at the quote with
/// which the template closes it, whatever the URL holds.
pub proof fn lemma_window_config_url_reads_back(
    app_name: Seq<char>,
    host: Seq<char>,
    url: Seq<char>,
)
    ensures
        window_config_text(app_name, host, url) == config_before_url(app_name, host) + (
        json_escaped(url) + CONFIG_CLOSE@),
        read_json_string(json_escaped(url) + CONFIG_CLOSE@) == Some(
            (url, json_escaped(url).len() as int),
        ),
{
    reveal_strlit(
        "\",\n        \"decorations\": true,\n        \"center\": true\n      }\n    ]\n  },\n  \"bundle\": {\n    \"active\": true,\n    \"targets\": [\"msi\"]\n  }\n}",
    );
    assert(CONFIG_CLOSE@.len() > 0 && CONFIG_CLOSE@[0] == '"');
    lemma_escaped_field_reads_back(url, Seq::<char>::empty(), CONFIG_CLOSE@);
    assert(json_escaped(url) + Seq::<char>::empty() + CONFIG_CLOSE@ =~= json_escaped(url)
        + CONFIG_CLOSE@);
    assert(url + Seq::<char>::empty() =~= url);
    assert(window_config_text(app_name, host, url) =~= config_before_url(app_name, host) + (
    json_escaped(url) + CONFIG_CLOSE@));
}

/// In the window configuration, the string of the product's name and the
/// string of the window's title both read back as the host followed by
/// ` App`, and end at the quote with which the template closes them,
/// whatever the host holds.
pub proof fn lemma_window_config_names_host(app_name: Seq<char>, host: Seq<char>, url: Seq<char>)
    ensures
        window_config_text(app_name, host, url) == config_before_product(app_name) + (json_escaped(
            host,
        ) + APP_WORD@ + config_from_version(host, url)),
        read_json_string(json_escaped(host) + APP_WORD@ + config_from_version(host, url)) == Some(
            (host + APP_WORD@, (json_escaped(host).len() + APP_WORD@.len()) as int),
        ),
        window_config_text(app_name, host, url) == config_before_title(app_name, host) + (
        json_escaped(host) + APP_WORD@ + config_from_url_key(url)),
        read_json_string(json_escaped(host) + APP_WORD@ + config_from_url_key(url)) == Some(
            (host + APP_WORD@, (json_escaped(host).len() + APP_WORD@.len()) as int),
        ),
{
    reveal_strlit("\",\n  \"version\": \"");
    reveal_strlit("\",\n        \"url\": \"");
    reveal_strlit(" App");
    assert(is_plain(APP_WORD@));
    assert(CONFIG_BEFORE_VERSION@[0] == '"');
    assert(CONFIG_BEFORE_URL@[0] == '"');
    lemma_escaped_field_reads_back(host, APP_WORD@, config_from_version(host, url));
    lemma_escaped_field_reads_back(host, APP_WORD@, config_from_url_key(url));
    assert(window_config_text(app_name, host, url) =~= config_before_product(app_name) + (
    json_escaped(host) + APP_WORD@ + config_from_version(host, url)));
    assert(window_config_text(app_name, host, url) =~= config_before_title(app_name, host) + (
    json_escaped(host) + APP_WORD@ + config_from_url_key(url)));
}

/// In the window configuration, the string of the identifier reads back as
/// `com.`, the application's name and `.app`, and ends at the quote with
/// which the template closes it, whatever the name holds.
pub proof fn lemma_window_config_identifier(app_name: Seq<char>, host: Seq<char>, url: Seq<char>)
    ensures
        window_config_text(app_name, host, url) == CONFIG_OPEN@ + (IDENTIFIER_HEAD@ + (json_escaped(
            app_name,
        ) + IDENTIFIER_TAIL@ + config_from_product_key(host, url))),
        read_json_string(
            IDENTIFIER_HEAD@ + (json_escaped(app_name) + IDENTIFIER_TAIL@ + config_from_product_key(
                host,
                url,
            )),
        ) == Some(
            (
                IDENTIFIER_HEAD@ + (app_name + IDENTIFIER_TAIL@),
                (IDENTIFIER_HEAD@.len() + json_escaped(app_name).len() + IDENTIFIER_TAIL@.len())
                    as int,
            ),
        ),
{
    reveal_strlit("com.");
    reveal_strlit(".app");
    reveal_strlit("\",\n  \"productName\": \"");
    assert(is_plain(IDENTIFIER_HEAD@));
    assert(is_plain(IDENTIFIER_TAIL@));
    assert(CONFIG_BEFORE_PRODUCT@[0] == '"');
    let rest = config_from_product_key(host, url);
    lemma_escaped_field_reads_back(app_name, IDENTIFIER_TAIL@, rest);
    lemma_plain_head_reads_on(
        IDENTIFIER_HEAD@,
        json_escaped(app_name) + IDENTIFIER_TAIL@ + rest,
    );
    assert(window_config_text(app_name, host, url) =~= CONFIG_OPEN@ + (IDENTIFIER_HEAD@ + (
    json_escaped(app_name) + IDENTIFIER_TAIL@ + rest)));
}

} // verus!
