//! A client library for a homeserver's admin API: resolving server profiles
//! from settings, reading the access token from a secret store's output,
//! describing admin requests, and turning replies into tables or errors.
use vstd::prelude::*;

pub mod config;
pub mod error;
pub mod render;
pub mod request;
pub mod token;

pub use config::get_server_config;
pub use config::Config;
pub use config::ServerConfig;
pub use error::APIErrorMessage;
pub use error::APIErrorResponse;
pub use error::MatrixAPIError;
pub use render::TableCell;
pub use render::User;
pub use render::UserList;
pub use render::UserListReply;
pub use request::GetRequest;

verus! {

} // verus!
