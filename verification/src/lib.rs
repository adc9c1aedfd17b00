//! Asset fetching for the chopped engine: where an asset is looked up, how
//! the outcome of each platform's fetch is turned into bytes or an error, and
//! the text that describes each error.
pub mod error;
pub mod native;
pub mod text;
pub mod web;

pub use error::AssetFetchError;
