//! The views of the viewer: the scroll view of one picture, the carousel of
//! three of them, and the grid of thumbnails.

pub mod gallery_view;
pub mod preview;
pub mod scroll_view;

pub use self::gallery_view::GalleryView;
pub use self::preview::Preview;
pub use self::preview::PreviewLayout;
pub use self::scroll_view::apply_friction;
pub use self::scroll_view::ScrollView;
