//! What a view asks the stage to do.

use vstd::prelude::*;

verus! {

/// A change of scene that a view asks for.
#[derive(Clone, Copy, Debug, PartialEq, Eq, Structural)]
pub enum Action {
    /// Show the picture at this position of the gallery by itself.
    ShowPreview(usize),
    /// Show the gallery of thumbnails.
    ShowGallery,
}

} // verus!
