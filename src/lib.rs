pub mod create_short_url;
pub mod di;
pub mod get_full_url;
pub mod id_provider;

pub use create_short_url::{CreateShortUrlCommand, CreateShortUrlRepository};
pub use di::Container;
pub use get_full_url::{GetFullUrlQuery, GetFullUrlRepository};
pub use id_provider::IDProvider;
