//! The theme: the style constants that the components of one render tree
//! share.

use crate::styles::{StyleConstants, StyleConstantsView};
use vstd::prelude::*;

verus! {

/// The style constants that one render tree shares.
#[derive(Debug)]
pub struct Theme {
    /// The constants.
    pub styles: StyleConstants,
}

impl Default for Theme {
    /// The theme that a render tree starts with.
    fn default() -> (theme: Self)
        ensures
            theme.styles@ == StyleConstantsView::defaults(),
    {
        Theme { styles: StyleConstants::default() }
    }
}

/// Gives a component the theme of its render tree. `shared` is what the
/// tree holds for the component: the handle of the theme that the tree
/// shares. The handle is handed on as it is, so that every component of a
/// tree gets the same theme.
///
/// Outside a render tree there is no theme to share, and `shared` is
/// `None`: a missing context. That is a mistake in the program, not a state
/// of the page, and there is nothing to recover: the function is not to be
/// called then, and the caller stops.
pub fn use_theme<H>(shared: Option<H>) -> (theme: H)
    requires
        shared is Some,
    ensures
        shared == Some(theme),
{
    shared.unwrap()
}

} // verus!
