//! Touch gesture recognition and a bounded, momentum-driven scroll, zoom and
//! paging engine for a carousel-style image viewer.
//!
//! The library decides; it never draws, reads a clock, or touches a file.
//! Raw finger events come in, with the reading of a monotonic clock and a
//! register of the images that are loaded; states, load requests and
//! rectangles to draw into come out.
//!
//! All quantities that vary continuously (normalised viewport coordinates,
//! sub-pixel offsets, zoom factors, velocities) are fixed-point integers with
//! six decimal places; see [`fixed`].
//!
//! The mathematics of each component stands in a module of its own, as
//! functions on plain states, together with the laws that hold of it:
//! [`stream`] for gesture recognition, [`scroll`] for a single view,
//! [`carousel`] for the paging of three views, [`thumbs`] for the grid of
//! thumbnails. The executable types ([`gesture::GestureDetector`],
//! [`view::ScrollView`], [`view::Preview`], [`view::GalleryView`],
//! [`stage::Stage`]) compute exactly what those functions say.

pub mod actions;
pub mod carousel;
pub mod display;
pub mod fit;
pub mod fixed;
pub mod gesture;
pub mod loader;
pub mod mean;
pub mod model;
pub mod rect;
pub mod scroll;
pub mod stage;
pub mod stream;
pub mod thumbs;
pub mod transition;
pub mod utils;
pub mod view;
