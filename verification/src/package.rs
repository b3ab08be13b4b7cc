//! Packaging: the command that builds the installer, where the installer is
//! expected, and what is reported once the toolchain has run. That the
//! installer is in fact there is not checked: the path is the one the
//! toolchain is expected to write to.

use vstd::prelude::*;
use vstd::utf8::{decode_utf8_encode_utf8, encode_utf8, valid_utf8};
use crate::error::{message_text, ConvertError, ConvertErrorView};
use crate::naming::{
    installer_file_name, installer_file_name_of, join_path, joined, lemma_joined_ends_with_child,
};
use crate::scaffold::NATIVE_DIR;
use crate::text::{decode_lossy, text_of};

verus! {

/// The program that is run.
pub const BUILD_PROGRAM: &'static str = "cargo";

/// Its first argument: the toolchain.
pub const BUILD_TOOL: &'static str = "tauri";

/// Its second argument: the toolchain's subcommand.
pub const BUILD_SUBCOMMAND: &'static str = "build";

/// Where the toolchain puts installers, below the native project.
pub const BUNDLE_DIR: &'static str = "target/release/bundle/msi";

/// What precedes the installer's path in the report of a success.
pub const SUCCESS_PREFIX: &'static str =
    "App created successfully! You can find the installer at: ";

/// A command to be run to its end, with its output captured.
#[derive(Clone, Debug, PartialEq, Eq)]
pub struct BuildCommand {
    pub program: String,
    pub args: Vec<String>,
    /// The directory the command is run in.
    pub working_dir: String,
}

/// The mathematical content of a [`BuildCommand`].
pub struct BuildCommandView {
    pub program: Seq<char>,
    pub args: Seq<Seq<char>>,
    pub working_dir: Seq<char>,
}

impl View for BuildCommand {
    type V = BuildCommandView;

    open spec fn view(&self) -> BuildCommandView {
        BuildCommandView {
            program: self.program@,
            args: self.args@.map_values(|a: String| a@),
            working_dir: self.working_dir@,
        }
    }
}

/// What a finished command left: whether it exited with success, and what it
/// wrote to its standard error stream.
#[derive(Clone, Debug, PartialEq, Eq)]
pub struct BuildOutput {
    pub success: bool,
    pub stderr: Vec<u8>,
}

/// The mathematical content of a [`BuildOutput`].
pub struct BuildOutputView {
    pub success: bool,
    pub stderr: Seq<u8>,
}

impl View for BuildOutput {
    type V = BuildOutputView;

    open spec fn view(&self) -> BuildOutputView {
        BuildOutputView { success: self.success, stderr: self.stderr@ }
    }
}

/// The directory of the native project of the project rooted at `root`.
pub open spec fn native_dir_of(root: Seq<char>) -> Seq<char> {
    joined(root, NATIVE_DIR@)
}

/// The command that packages the project rooted at `root`.
pub open spec fn build_command_of(root: Seq<char>) -> BuildCommandView {
    BuildCommandView {
        program: BUILD_PROGRAM@,
        args: seq![BUILD_TOOL@, BUILD_SUBCOMMAND@],
        working_dir: native_dir_of(root),
    }
}

/// Where the installer of the project rooted at `root`, generated for
/// `host`, is expected.
pub open spec fn installer_path_of(root: Seq<char>, host: Seq<char>) -> Seq<char> {
    joined(joined(native_dir_of(root), BUNDLE_DIR@), installer_file_name_of(host))
}

/// What is reported of a finished build: on success the sentence that names
/// the installer's path, else the toolchain's own words as a build error.
pub open spec fn build_report_of(
    success: bool,
    stderr_text: Seq<char>,
    root: Seq<char>,
    host: Seq<char>,
) -> Result<Seq<char>, ConvertErrorView> {
    if success {
        Ok(SUCCESS_PREFIX@ + installer_path_of(root, host))
    } else {
        Err(ConvertErrorView::Build(stderr_text))
    }
}

/// What is reported of a finished build, given what it left.
pub open spec fn build_outcome_of(output: BuildOutputView, root: Seq<char>, host: Seq<char>) -> Result<
    Seq<char>,
    ConvertErrorView,
> {
    build_report_of(output.success, text_of(output.stderr), root, host)
}

/// The view of a report.
pub open spec fn report_view(r: Result<String, ConvertError>) -> Result<
    Seq<char>,
    ConvertErrorView,
> {
    match r {
        Ok(text) => Ok(text@),
        Err(e) => Err(e@),
    }
}

/// The command that packages the project rooted at `root`: the toolchain's
/// build subcommand, run in the directory of the native project.
pub fn build_command(root: &str) -> (command: BuildCommand)
    ensures
        command@ == build_command_of(root@),
{
    let mut args: Vec<String> = Vec::new();
    args.push(String::from_str(BUILD_TOOL));
    args.push(String::from_str(BUILD_SUBCOMMAND));
    let command = BuildCommand {
        program: String::from_str(BUILD_PROGRAM),
        args,
        working_dir: join_path(root, NATIVE_DIR),
    };
    assert(command@.args =~= build_command_of(root@).args);
    command
}

/// Where the installer is expected: below the native project, in the
/// toolchain's bundle directory, under a file name made of the application's
/// name and the fixed version.
pub fn installer_path(root: &str, host: &str) -> (path: String)
    ensures
        path@ == installer_path_of(root@, host@),
{
    let native = join_path(root, NATIVE_DIR);
    let bundle = join_path(native.as_str(), BUNDLE_DIR);
    let file = installer_file_name(host);
    join_path(bundle.as_str(), file.as_str())
}

/// What is reported of a finished build, given whether it succeeded and the
/// text of its standard error stream.
pub fn build_report(success: bool, stderr_text: String, root: &str, host: &str) -> (r: Result<
    String,
    ConvertError,
>)
    ensures
        report_view(r) == build_report_of(success, stderr_text@, root@, host@),
{
    if success {
        let path = installer_path(root, host);
        let mut text = String::from_str(SUCCESS_PREFIX);
        text.append(path.as_str());
        Ok(text)
    } else {
        Err(ConvertError::Build(stderr_text))
    }
}

/// What is reported of a finished build. The standard error stream is read
/// as text only where the build failed: as the text it encodes where it is
/// UTF-8, else with replacements as the standard library makes them.
pub fn build_outcome(output: &BuildOutput, root: &str, host: &str) -> (r: Result<
    String,
    ConvertError,
>)
    ensures
        report_view(r) == build_outcome_of(output@, root@, host@),
{
    let stderr_text = if output.success {
        String::new()
    } else {
        decode_lossy(output.stderr.as_slice())
    };
    build_report(output.success, stderr_text, root, host)
}

/// A failed build is reported with the toolchain's own words, unchanged and
/// with nothing added, and names no installer.
pub proof fn lemma_failed_build_reports_stderr(
    stderr_text: Seq<char>,
    root: Seq<char>,
    host: Seq<char>,
)
    ensures
        build_report_of(false, stderr_text, root, host) is Err,
        build_report_of(false, stderr_text, root, host) == Err::<Seq<char>, ConvertErrorView>(
            ConvertErrorView::Build(stderr_text),
        ),
        message_text(build_report_of(false, stderr_text, root, host)->Err_0) == stderr_text,
{
}

/// A failed build whose standard error stream is UTF-8 is reported with
/// exactly those bytes.
pub proof fn lemma_failed_build_keeps_bytes(
    output: BuildOutputView,
    root: Seq<char>,
    host: Seq<char>,
)
    requires
        !output.success,
        valid_utf8(output.stderr),
    ensures
        build_outcome_of(output, root, host) is Err,
        encode_utf8(message_text(build_outcome_of(output, root, host)->Err_0)) == output.stderr,
{
    decode_utf8_encode_utf8(output.stderr);
}

/// A successful build is reported with a sentence that ends in the
/// installer's path, which ends in the installer's file name: the
/// application's name, `-app_`, the fixed version and the platform suffix.
pub proof fn lemma_successful_build_names_installer(
    stderr_text: Seq<char>,
    root: Seq<char>,
    host: Seq<char>,
)
    ensures
        build_report_of(true, stderr_text, root, host) is Ok,
        installer_path_of(root, host).is_suffix_of(
            build_report_of(true, stderr_text, root, host)->Ok_0,
        ),
        installer_file_name_of(host).is_suffix_of(installer_path_of(root, host)),
        installer_file_name_of(host).is_suffix_of(
            build_report_of(true, stderr_text, root, host)->Ok_0,
        ),
{
    let path = installer_path_of(root, host);
    let file = installer_file_name_of(host);
    let text = SUCCESS_PREFIX@ + path;
    lemma_joined_ends_with_child(joined(native_dir_of(root), BUNDLE_DIR@), file);
    assert(text.subrange(text.len() - path.len(), text.len() as int) =~= path);
    assert(text.subrange(text.len() - file.len(), text.len() as int) =~= path.subrange(
        path.len() - file.len(),
        path.len() as int,
    ));
}

} // verus!
