//! Background-refresh cache for paginated story feeds and a lazily filled
//! comment-tree cache, as used by a news reader's render loop.
pub mod comments;
pub mod display;
pub mod feed;
pub mod refresh;
pub mod store;
pub mod text;
