//! Value types shared by the client: requests, responses, errors, options
//! and the typed results the operation layer extracts from replies.

pub mod errors;
pub mod options;
pub mod request;
pub mod response;
pub mod token_validity;
pub mod user;
pub mod user_right;

pub use self::errors::{ErrorData, KuzzleError, KuzzleErrorData, SdkError};
pub use self::options::{KuzzleOptions, QueryOptions};
pub use self::request::KuzzleRequest;
pub use self::response::KuzzleResponse;
pub use self::token_validity::TokenValidity;
pub use self::user::User;
pub use self::user_right::UserRight;
