//! Verified core of a package-index chat bot: response models, the HTML
//! formatter for package details and search results, request-URL construction,
//! and the command-routing rules. Network transport and the bot framework
//! live outside this crate and hand plain values in and out.

pub mod format;
pub mod laws;
pub mod models;
pub mod numtext;
pub mod pct;
pub mod router;
pub mod urls;

pub use models::Meta;
pub use models::Pkg;
pub use models::SearchPackage;
pub use models::SearchResult;
pub use models::Version;
