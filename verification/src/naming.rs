//! Names derived from a URL's host: the application's name, its project
//! directory, the installer's file name, and how paths are put together.

use vstd::prelude::*;
use crate::address::{UrlView, ValidatedUrl};
use crate::text::push_char;

verus! {

/// The name used for the host of a URL that has none.
pub const UNKNOWN_HOST: &'static str = "unknown";

/// What follows the application's name in the name of its project directory.
pub const PROJECT_SUFFIX: &'static str = "-app";

/// The version every generated application carries.
pub const APP_VERSION: &'static str = "0.1.0";

/// What follows the version in the installer's file name.
pub const INSTALLER_SUFFIX: &'static str = "_x64_en-US.msi";

/// The text with every dot replaced by a hyphen and nothing else changed.
pub open spec fn dashed(s: Seq<char>) -> Seq<char> {
    s.map_values(|c: char| if c == '.' { '-' } else { c })
}

/// The host a URL is known by: its own, or `unknown` where it has none.
pub open spec fn host_or_unknown(url: UrlView) -> Seq<char> {
    match url.host {
        Some(h) => h,
        None => UNKNOWN_HOST@,
    }
}

/// The name of the project directory of a host.
pub open spec fn project_dir_name_of(host: Seq<char>) -> Seq<char> {
    dashed(host) + PROJECT_SUFFIX@
}

/// The file name of the installer built for a host.
pub open spec fn installer_file_name_of(host: Seq<char>) -> Seq<char> {
    project_dir_name_of(host) + seq!['_'] + APP_VERSION@ + INSTALLER_SUFFIX@
}

/// A path followed by a relative one: a slash stands between them unless the
/// first is empty or already ends in one.
pub open spec fn joined(base: Seq<char>, child: Seq<char>) -> Seq<char> {
    if base.len() == 0 || base.last() == '/' {
        base + child
    } else {
        base + seq!['/'] + child
    }
}

/// The host a URL is known by: its own, or `unknown` where it has none.
pub fn host_name(url: &ValidatedUrl) -> (host: String)
    ensures
        host@ == host_or_unknown(url@),
{
    match url.host() {
        Some(h) => String::from_str(h),
        None => String::from_str(UNKNOWN_HOST),
    }
}

/// The application's name: the host with every dot replaced by a hyphen.
pub fn app_name(host: &str) -> (name: String)
    ensures
        name@ == dashed(host@),
{
    let mut name = String::new();
    for c in it: host.chars()
        invariant
            it.seq() == host@,
            name@ == dashed(host@.take(it.index())),
    {
        let d = if c == '.' { '-' } else { c };
        push_char(&mut name, d);
        assert(host@.take(it.index() + 1) == host@.take(it.index()).push(c));
    }
    assert(host@.take(host@.len() as int) == host@);
    name
}

/// The name of the project directory: the application's name and `-app`.
pub fn project_dir_name(host: &str) -> (name: String)
    ensures
        name@ == project_dir_name_of(host@),
{
    let mut name = app_name(host);
    name.append(PROJECT_SUFFIX);
    name
}

/// The installer's file name: the project directory's name, an underscore,
/// the fixed version and the platform suffix.
pub fn installer_file_name(host: &str) -> (name: String)
    ensures
        name@ == installer_file_name_of(host@),
{
    let mut name = project_dir_name(host);
    push_char(&mut name, '_');
    name.append(APP_VERSION);
    name.append(INSTALLER_SUFFIX);
    name
}

/// Puts a relative path behind a base path.
pub fn join_path(base: &str, child: &str) -> (path: String)
    ensures
        path@ == joined(base@, child@),
{
    let mut path = String::from_str(base);
    let n = base.unicode_len();
    if n > 0 && base.get_char(n - 1) != '/' {
        push_char(&mut path, '/');
    }
    path.append(child);
    path
}

/// A dashed name holds no dot, and is as long as the host it was made from.
pub proof fn lemma_dashed_has_no_dot(host: Seq<char>)
    ensures
        dashed(host).len() == host.len(),
        forall|i: int| 0 <= i < host.len() ==> dashed(host)[i] != '.',
        forall|i: int|
            0 <= i < host.len() && host[i] != '.' ==> #[trigger] dashed(host)[i] == host[i],
{
}

/// An installer's file name ends in the fixed version and the platform
/// suffix, and begins with the project directory's name.
pub proof fn lemma_installer_file_name_shape(host: Seq<char>)
    ensures
        project_dir_name_of(host).is_prefix_of(installer_file_name_of(host)),
        (seq!['_'] + APP_VERSION@ + INSTALLER_SUFFIX@).is_suffix_of(installer_file_name_of(host)),
{
    let name = installer_file_name_of(host);
    let tail = seq!['_'] + APP_VERSION@ + INSTALLER_SUFFIX@;
    let head = project_dir_name_of(host);
    assert(name =~= head + tail);
    assert(name.subrange(0, head.len() as int) =~= head);
    assert(name.subrange(name.len() - tail.len(), name.len() as int) =~= tail);
}

/// A joined path ends in the relative path it was given.
pub proof fn lemma_joined_ends_with_child(base: Seq<char>, child: Seq<char>)
    ensures
        child.is_suffix_of(joined(base, child)),
        base.is_prefix_of(joined(base, child)),
{
    let path = joined(base, child);
    assert(path.subrange(path.len() - child.len(), path.len() as int) =~= child);
    assert(path.subrange(0, base.len() as int) =~= base);
}

} // verus!
