//! The windowing collaborator's interface.
//!
//! Window creation and its native message loop live outside the library.
//! The pipeline only needs an opaque, fully constructed presentation
//! target, handed over as a plain handle value that it never mutates and
//! never outlives.

use vstd::prelude::*;

use crate::error::Error;

verus! {

/// An opaque, platform-specific presentation target.
#[derive(Clone, Copy, Debug, PartialEq, Eq, Structural)]
pub enum Handle {
    /// A native Win32 window handle value.
    Win32(isize),
    /// A caller-defined handle value.
    Custom(i32),
}

/// A window that can hand the pipeline its presentation target.  The
/// windowing layer implements this for its own window types.
pub trait Window {
    /// Surrenders the window's handle to the pipeline.
    fn handle(self) -> Result<Handle, Error>;
}

} // verus!
