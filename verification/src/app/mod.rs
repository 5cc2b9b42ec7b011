pub mod programmer;
pub mod performance;
pub mod boot;
pub mod palette_editor;
pub mod setup;
pub mod host;
use vstd::prelude::*;

verus! {

/// The apps the host can run.
#[derive(Copy, Clone, PartialEq, Eq, Structural, Debug)]
pub enum AppId {
    Boot,
    Setup,
    Performance,
    Programmer,
    PaletteEditor,
}

} // verus!
