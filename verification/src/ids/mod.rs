//! The segments that make up a version.

mod dev_id;
mod post_id;
mod pre_id;
mod release_id;

pub use dev_id::DevHead;
pub use post_id::{PostHead, PostHeader};
pub use pre_id::PreHeader;
pub use release_id::ReleaseHeader;
