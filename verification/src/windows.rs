//! The desktop app's own windows: which windows are Yap's, and what closing
//! one does.
use vstd::prelude::*;

use crate::text::str_eq;

verus! {

/// The labels of the app's own windows.
pub open spec fn app_window_labels() -> Seq<Seq<char>> {
    seq!["settings"@]
}

/// Whether a window is one of the app's own windows.
pub fn is_app_window(label: &str) -> (r: bool)
    ensures
        r == app_window_labels().contains(label@),
{
    let r = str_eq(label, "settings");
    proof {
        if r {
            assert(app_window_labels()[0] == label@);
        } else {
            assert forall|i: int| 0 <= i < app_window_labels().len() implies app_window_labels()[i]
                != label@ by {}
        }
    }
    r
}

/// The error for a window that does not exist.
pub fn window_not_found(label: &str) -> (r: String)
    ensures
        r@ == "window not found: "@ + label@,
{
    crate::text::concat2("window not found: ", label)
}

/// What a request to close a window comes to.
#[derive(Clone, Copy, PartialEq, Eq, Debug, Structural)]
pub enum CloseDecision {
    /// Let the window close.
    Close,
    /// Keep it open and hide it instead.
    Hide,
}

/// Closing one of the app's own windows hides it instead; other windows
/// close.
pub fn close_requested(label: &str) -> (r: CloseDecision)
    ensures
        r == (if app_window_labels().contains(label@) {
            CloseDecision::Hide
        } else {
            CloseDecision::Close
        }),
{
    if is_app_window(label) {
        CloseDecision::Hide
    } else {
        CloseDecision::Close
    }
}

/// Whether the app should leave the foreground: none of its windows is
/// visible.
pub fn no_window_visible(visible: &Vec<bool>) -> (r: bool)
    ensures
        r == (forall|i: int| 0 <= i < visible@.len() ==> !visible@[i]),
{
    let mut i: usize = 0;
    while i < visible.len()
        invariant
            i <= visible@.len(),
            forall|j: int| 0 <= j < i ==> !visible@[j],
        decreases visible@.len() - i,
    {
        if visible[i] {
            return false;
        }
        i += 1;
    }
    true
}

} // verus!
