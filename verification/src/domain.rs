//! The validated values a paste is made of: its identifier and its content.

pub mod new_paste;
pub mod paste_content;
pub mod paste_id;
pub mod text;

pub use new_paste::NewPaste;
pub use paste_content::PasteContent;
pub use paste_id::PasteId;
