//! The request-level operations: validate the raw input, delegate to the
//! repository, translate the outcome into a response.

pub mod paste;

pub use paste::create_paste;
pub use paste::create_paste_random_id;
pub use paste::get_paste;
pub use paste::Response;
