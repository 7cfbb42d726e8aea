//! An image viewer core: discovering image paths from mixed file and
//! directory arguments, decoding them into RGBA pixel buffers, and
//! navigating the resulting collection cyclically while deriving the
//! window title, the fullscreen mode and the available actions.

pub mod discovery;
pub mod image_data;
pub mod text;
pub mod viewer;

pub use text::dec_string;
pub use text::file_name_of;
pub use text::extension_of;
