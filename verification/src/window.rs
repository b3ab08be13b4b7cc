//! The preview window: a top-level window that shows the URL itself, with a
//! fixed size and fixed chrome.

use vstd::prelude::*;
use crate::address::{UrlView, ValidatedUrl};
use crate::naming::{host_name, host_or_unknown};

verus! {

/// What precedes the originating window's label in the preview's label.
pub const PREVIEW_LABEL_PREFIX: &'static str = "web-window-";

/// What follows the host in the preview's title.
pub const PREVIEW_TITLE_SUFFIX: &'static str = " (Preview)";

/// The preview's width.
pub const PREVIEW_WIDTH: u32 = 1024;

/// The preview's height.
pub const PREVIEW_HEIGHT: u32 = 768;

/// A window to be opened.
#[derive(Clone, Debug, PartialEq, Eq)]
pub struct WindowPlan {
    /// The label by which the window system knows the window.
    pub label: String,
    /// The title shown on it.
    pub title: String,
    /// The address of the page it shows.
    pub url: String,
    pub width: u32,
    pub height: u32,
    pub centered: bool,
    pub decorated: bool,
    pub resizable: bool,
    pub fullscreen: bool,
    pub always_on_top: bool,
}

/// The mathematical content of a [`WindowPlan`].
pub struct WindowPlanView {
    pub label: Seq<char>,
    pub title: Seq<char>,
    pub url: Seq<char>,
    pub width: u32,
    pub height: u32,
    pub centered: bool,
    pub decorated: bool,
    pub resizable: bool,
    pub fullscreen: bool,
    pub always_on_top: bool,
}

impl View for WindowPlan {
    type V = WindowPlanView;

    open spec fn view(&self) -> WindowPlanView {
        WindowPlanView {
            label: self.label@,
            title: self.title@,
            url: self.url@,
            width: self.width,
            height: self.height,
            centered: self.centered,
            decorated: self.decorated,
            resizable: self.resizable,
            fullscreen: self.fullscreen,
            always_on_top: self.always_on_top,
        }
    }
}

/// The label of the preview opened from the window labelled `origin_label`.
pub open spec fn preview_label_of(origin_label: Seq<char>) -> Seq<char> {
    PREVIEW_LABEL_PREFIX@ + origin_label
}

/// The title of the preview of a host.
pub open spec fn preview_title_of(host: Seq<char>) -> Seq<char> {
    host + PREVIEW_TITLE_SUFFIX@
}

/// The preview of a URL, opened from the window labelled `origin_label`.
pub open spec fn preview_of(url: UrlView, origin_label: Seq<char>) -> WindowPlanView {
    WindowPlanView {
        label: preview_label_of(origin_label),
        title: preview_title_of(host_or_unknown(url)),
        url: url.href,
        width: PREVIEW_WIDTH,
        height: PREVIEW_HEIGHT,
        centered: true,
        decorated: true,
        resizable: true,
        fullscreen: false,
        always_on_top: false,
    }
}

/// The preview's label: a fixed prefix and the originating window's label,
/// so that previews opened from different windows have different labels.
pub fn preview_label(origin_label: &str) -> (label: String)
    ensures
        label@ == preview_label_of(origin_label@),
{
    let mut label = String::from_str(PREVIEW_LABEL_PREFIX);
    label.append(origin_label);
    label
}

/// The preview's title: the host and ` (Preview)`.
pub fn preview_title(host: &str) -> (title: String)
    ensures
        title@ == preview_title_of(host@),
{
    let mut title = String::from_str(host);
    title.append(PREVIEW_TITLE_SUFFIX);
    title
}

/// The preview window of `url`: 1024 by 768, centered, decorated and
/// resizable, neither fullscreen nor kept on top.
pub fn preview_window(url: &ValidatedUrl, origin_label: &str) -> (plan: WindowPlan)
    ensures
        plan@ == preview_of(url@, origin_label@),
{
    let host = host_name(url);
    WindowPlan {
        label: preview_label(origin_label),
        title: preview_title(host.as_str()),
        url: String::from_str(url.as_str()),
        width: PREVIEW_WIDTH,
        height: PREVIEW_HEIGHT,
        centered: true,
        decorated: true,
        resizable: true,
        fullscreen: false,
        always_on_top: false,
    }
}

/// Previews opened from windows with different labels have different labels.
pub proof fn lemma_preview_labels_differ(first: Seq<char>, second: Seq<char>)
    requires
        first != second,
    ensures
        preview_label_of(first) != preview_label_of(second),
{
    let prefix = PREVIEW_LABEL_PREFIX@;
    if preview_label_of(first) == preview_label_of(second) {
        assert((prefix + first).subrange(prefix.len() as int, (prefix + first).len() as int)
            =~= first);
        assert((prefix + second).subrange(prefix.len() as int, (prefix + second).len() as int)
            =~= second);
    }
}

} // verus!
