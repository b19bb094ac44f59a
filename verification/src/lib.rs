//! A small blog-post repository: posts are created with a generated id,
//! looked up by id, and listed, behind a bounded connection pool whose
//! exhaustion surfaces as a typed error rather than a hang.

pub mod error;
pub mod pool;
pub mod post;
pub mod repository;
pub mod text;

pub use error::ApiError;
pub use error::Cause;
pub use pool::Pool;
pub use post::NewPost;
pub use post::Post;
pub use repository::Repository;
