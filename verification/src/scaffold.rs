//! The project scaffold: where it goes, which directories and files it is
//! made of, and what laying it out does to a file tree.

use vstd::prelude::*;
use crate::address::{UrlView, ValidatedUrl};
use crate::naming::{
    app_name, dashed, host_name, host_or_unknown, join_path, joined, project_dir_name,
    project_dir_name_of,
};
use crate::templates::{
    build_manifest, manifest_text, window_config, window_config_text, BUILD_HOOK_SOURCE,
    BUILD_SCRIPT_SOURCE, ENTRY_POINT_SOURCE, PLACEHOLDER_PAGE, SCHEMA_STUB,
};

verus! {

/// The base directory used where none is configured.
pub const DEFAULT_BASE_OUTPUT_DIR: &'static str = "C:/_code/generated-apps";

/// The directory of the native project, below the project's root.
pub const NATIVE_DIR: &'static str = "src-tauri";

/// The directory of the native project's sources.
pub const NATIVE_SOURCE_DIR: &'static str = "src-tauri/src";

/// The directory of the web assets.
pub const ASSET_DIR: &'static str = "dist";

/// The directory of the build hook.
pub const BUILD_HOOK_DIR: &'static str = "src-tauri/build-utils";

/// The directory of the schema.
pub const SCHEMA_DIR: &'static str = "src-tauri/schemas";

/// Where the build manifest goes.
pub const MANIFEST_PATH: &'static str = "src-tauri/Cargo.toml";

/// Where the entry point goes.
pub const ENTRY_POINT_PATH: &'static str = "src-tauri/src/main.rs";

/// Where the build script goes.
pub const BUILD_SCRIPT_PATH: &'static str = "src-tauri/build.rs";

/// Where the window configuration goes.
pub const CONFIG_PATH: &'static str = "src-tauri/tauri.conf.json";

/// Where the placeholder page goes.
pub const PLACEHOLDER_PATH: &'static str = "dist/index.html";

/// Where the build hook goes.
pub const BUILD_HOOK_PATH: &'static str = "src-tauri/build-utils/main.js";

/// Where the schema stub goes.
pub const SCHEMA_PATH: &'static str = "src-tauri/schemas/desktop-schema.json";

/// Where generated projects are put.
#[derive(Clone, Debug, PartialEq, Eq)]
pub struct ScaffoldConfig {
    /// The directory below which each project gets a directory of its own.
    pub base_output_dir: String,
}

impl Default for ScaffoldConfig {
    fn default() -> (config: Self)
        ensures
            config.base_output_dir@ == DEFAULT_BASE_OUTPUT_DIR@,
    {
        ScaffoldConfig { base_output_dir: String::from_str(DEFAULT_BASE_OUTPUT_DIR) }
    }
}

/// One file of a project: where it goes, relative to the project's root, and
/// what it holds.
#[derive(Clone, Debug, PartialEq, Eq)]
pub struct ProjectFile {
    pub path: String,
    pub content: String,
}

/// The mathematical content of a [`ProjectFile`].
pub struct ProjectFileView {
    pub path: Seq<char>,
    pub content: Seq<char>,
}

impl View for ProjectFile {
    type V = ProjectFileView;

    open spec fn view(&self) -> ProjectFileView {
        ProjectFileView { path: self.path@, content: self.content@ }
    }
}

/// All that has to be done on disk for one project: the root is emptied if
/// it exists and made anew, the directories are made below it, and the files
/// are written below it, in this order.
#[derive(Clone, Debug, PartialEq, Eq)]
pub struct ScaffoldPlan {
    /// The project's root directory.
    pub root: String,
    /// The directories below the root, relative to it.
    pub dirs: Vec<String>,
    /// The files below the root.
    pub files: Vec<ProjectFile>,
}

/// The mathematical content of a [`ScaffoldPlan`].
pub struct ScaffoldPlanView {
    pub root: Seq<char>,
    pub dirs: Seq<Seq<char>>,
    pub files: Seq<ProjectFileView>,
}

/// The views of a run of files.
pub open spec fn files_view(files: Seq<ProjectFile>) -> Seq<ProjectFileView> {
    files.map_values(|f: ProjectFile| f@)
}

/// The views of a run of texts.
pub open spec fn texts_view(texts: Seq<String>) -> Seq<Seq<char>> {
    texts.map_values(|t: String| t@)
}

impl View for ScaffoldPlan {
    type V = ScaffoldPlanView;

    open spec fn view(&self) -> ScaffoldPlanView {
        ScaffoldPlanView {
            root: self.root@,
            dirs: texts_view(self.dirs@),
            files: files_view(self.files@),
        }
    }
}

/// The root directory of the project generated for a host.
pub open spec fn app_directory_of(base: Seq<char>, host: Seq<char>) -> Seq<char> {
    joined(base, project_dir_name_of(host))
}

/// The directories of every project, relative to its root.
pub open spec fn project_dirs() -> Seq<Seq<char>> {
    seq![NATIVE_DIR@, NATIVE_SOURCE_DIR@, ASSET_DIR@, BUILD_HOOK_DIR@, SCHEMA_DIR@]
}

/// The files of the project generated for a URL.
pub open spec fn project_files(url: UrlView) -> Seq<ProjectFileView> {
    let host = host_or_unknown(url);
    let name = dashed(host);
    seq![
        ProjectFileView { path: MANIFEST_PATH@, content: manifest_text(name, host) },
        ProjectFileView { path: ENTRY_POINT_PATH@, content: ENTRY_POINT_SOURCE@ },
        ProjectFileView { path: BUILD_SCRIPT_PATH@, content: BUILD_SCRIPT_SOURCE@ },
        ProjectFileView { path: CONFIG_PATH@, content: window_config_text(name, host, url.href) },
        ProjectFileView { path: PLACEHOLDER_PATH@, content: PLACEHOLDER_PAGE@ },
        ProjectFileView { path: BUILD_HOOK_PATH@, content: BUILD_HOOK_SOURCE@ },
        ProjectFileView { path: SCHEMA_PATH@, content: SCHEMA_STUB@ },
    ]
}

/// The plan of the project generated for a URL below a base directory.
pub open spec fn plan_of(base: Seq<char>, url: UrlView) -> ScaffoldPlanView {
    ScaffoldPlanView {
        root: app_directory_of(base, host_or_unknown(url)),
        dirs: project_dirs(),
        files: project_files(url),
    }
}

/// The root directory of the project generated for `host`: the base
/// directory joined with the application's name and `-app`.
pub fn app_directory(config: &ScaffoldConfig, host: &str) -> (dir: String)
    ensures
        dir@ == app_directory_of(config.base_output_dir@, host@),
{
    let name = project_dir_name(host);
    join_path(config.base_output_dir.as_str(), name.as_str())
}

fn project_file(path: &str, content: String) -> (file: ProjectFile)
    ensures
        file@ == (ProjectFileView { path: path@, content: content@ }),
{
    ProjectFile { path: String::from_str(path), content }
}

/// The files of the project generated for `url`, in the order in which they
/// are written: the build manifest, the entry point, the build script, the
/// window configuration, the placeholder page, the build hook and the schema
/// stub.
pub fn generate_app_files(url: &ValidatedUrl) -> (files: Vec<ProjectFile>)
    ensures
        files_view(files@) == project_files(url@),
{
    let host = host_name(url);
    let name = app_name(host.as_str());
    let mut files: Vec<ProjectFile> = Vec::new();
    files.push(project_file(MANIFEST_PATH, build_manifest(name.as_str(), host.as_str())));
    files.push(project_file(ENTRY_POINT_PATH, String::from_str(ENTRY_POINT_SOURCE)));
    files.push(project_file(BUILD_SCRIPT_PATH, String::from_str(BUILD_SCRIPT_SOURCE)));
    files.push(
        project_file(CONFIG_PATH, window_config(name.as_str(), host.as_str(), url.as_str())),
    );
    files.push(project_file(PLACEHOLDER_PATH, String::from_str(PLACEHOLDER_PAGE)));
    files.push(project_file(BUILD_HOOK_PATH, String::from_str(BUILD_HOOK_SOURCE)));
    files.push(project_file(SCHEMA_PATH, String::from_str(SCHEMA_STUB)));
    assert(files_view(files@) =~= project_files(url@));
    files
}

/// The directories of every project, in the order in which they are made.
pub fn project_directories() -> (dirs: Vec<String>)
    ensures
        texts_view(dirs@) == project_dirs(),
{
    let mut dirs: Vec<String> = Vec::new();
    dirs.push(String::from_str(NATIVE_DIR));
    dirs.push(String::from_str(NATIVE_SOURCE_DIR));
    dirs.push(String::from_str(ASSET_DIR));
    dirs.push(String::from_str(BUILD_HOOK_DIR));
    dirs.push(String::from_str(SCHEMA_DIR));
    assert(texts_view(dirs@) =~= project_dirs());
    dirs
}

/// The whole plan of the project generated for `url`.
pub fn scaffold_plan(config: &ScaffoldConfig, url: &ValidatedUrl) -> (plan: ScaffoldPlan)
    ensures
        plan@ == plan_of(config.base_output_dir@, url@),
{
    let host = host_name(url);
    ScaffoldPlan {
        root: app_directory(config, host.as_str()),
        dirs: project_directories(),
        files: generate_app_files(url),
    }
}

} // verus!
