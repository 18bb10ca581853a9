//! Labels of the client's menu bar and sidebar.

use vstd::prelude::*;

verus! {

/// A labelled item of the client's menu bar or sidebar.
#[derive(Debug, Clone, Copy, PartialEq, Eq, Structural)]
pub enum Text {
    /// The menu bar's file menu.
    File,
    /// The sidebar's home item.
    Home,
}

impl Text {
    /// The label shown for the item.
    pub fn name(&self) -> (r: &'static str)
        ensures
            r@ == match self {
                Text::File => "File"@,
                Text::Home => "Home"@,
            },
    {
        match self {
            Text::File => "File",
            Text::Home => "Home",
        }
    }
}

} // verus!
