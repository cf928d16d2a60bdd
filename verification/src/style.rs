//! The look of the editor.

use vstd::prelude::*;

verus! {

/// The colour scheme of the editor. There is one.
#[derive(Debug, Clone, Copy, PartialEq, Eq, Structural)]
pub enum Theme {
    Dark,
}

impl Default for Theme {
    fn default() -> (theme: Theme)
        ensures
            theme == Theme::Dark,
    {
        Theme::Dark
    }
}

} // verus!
