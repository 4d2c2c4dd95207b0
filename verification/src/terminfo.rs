//! How the interpreter finds the terminfo database.

use vstd::prelude::*;

verus! {

/// Where the `terminfo` database is looked for.
#[derive(Clone, Debug)]
pub enum TerminfoResolution {
    /// Resolve the database the way the current operating system does.
    Dynamic,
    /// Do not set the database up at all.
    Disabled,
    /// Use this string as the value of `TERMINFO_DIRS`. Any string is taken;
    /// nothing is looked up.
    Static(String),
}

/// A terminfo policy as a mathematical value.
pub enum TerminfoResolutionView {
    Dynamic,
    Disabled,
    Static(Seq<char>),
}

impl View for TerminfoResolution {
    type V = TerminfoResolutionView;

    open spec fn view(&self) -> TerminfoResolutionView {
        match self {
            TerminfoResolution::Dynamic => TerminfoResolutionView::Dynamic,
            TerminfoResolution::Disabled => TerminfoResolutionView::Disabled,
            TerminfoResolution::Static(dirs) => TerminfoResolutionView::Static(dirs@),
        }
    }
}

} // verus!
