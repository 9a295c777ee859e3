//! The pictures of a gallery.

use vstd::prelude::*;

verus! {

/// One picture: where its thumbnail and where the picture itself is found.
#[derive(Debug, PartialEq, Eq)]
pub struct Picture {
    pub preview: String,
    pub url: String,
}

/// The pictures of a gallery, in the order in which they are shown.
#[derive(Debug, PartialEq, Eq)]
pub struct Gallery {
    pub pics: Vec<Picture>,
}

/// The sources of the pictures themselves, in order.
pub open spec fn urls_of(pics: Seq<Picture>) -> Seq<Seq<char>> {
    Seq::new(pics.len(), |i: int| pics[i].url@)
}

/// The source at position `i`, and the empty source where there is no such
/// position.
pub open spec fn source_at(sources: Seq<Seq<char>>, i: int) -> Seq<char> {
    if 0 <= i < sources.len() {
        sources[i]
    } else {
        Seq::empty()
    }
}

} // verus!
