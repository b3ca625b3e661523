//! Events that a view receives while files are dragged over it.

use crate::external_paths::ExternalPaths;
use crate::geometry::{Pixels, Point};
use vstd::prelude::*;

verus! {

/// One step of a file drag over a view.
pub enum FileDropEvent {
    /// A drag carrying `paths` entered the view at `position`.
    Entered { position: Point<Pixels>, paths: ExternalPaths },
    /// The drag moved to `position` while over the view.
    Pending { position: Point<Pixels> },
    /// The files were dropped at `position`.
    Submit { position: Point<Pixels> },
    /// The drag left the view, or ended.
    Exited,
}

} // verus!
