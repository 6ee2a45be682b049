//! A fixed-capacity, cache-line-packed collection of short immutable strings.
//!
//! The collection is meant for small, bounded vocabularies (tags, symbol
//! names, labels). Every string is stored inline in a [`SmallString`] cell,
//! cells are grouped into [`SSCacheLine`]s, and a [`SmallStringCollection`]
//! owns the lines and answers membership queries by a linear scan.
pub mod cache_line;
pub mod collection;
pub mod error;
pub mod laws;
pub mod layout;
pub mod model;
pub mod small_string;
pub mod text;

pub use cache_line::SSCacheLine;
pub use collection::SmallStringCollection;
pub use error::SSErrorType;
pub use layout::{
    CACHELINE_WIDTH, INLINE_CAPACITY, SMALL_STRING_SIZE, SS_CACHELINE_PADDING, SS_PER_CACHELINE,
};
pub use small_string::SmallString;
