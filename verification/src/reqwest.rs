//! A scripted stand-in for an HTTP client, its request builder, its
//! responses and its errors.

pub mod body;
pub mod client;
pub mod error;
pub mod headers;
pub mod response;
pub mod status;
pub mod url;

pub use client::{
    create_mock_client, try_create_mock_client, Method, MockClient, MockFailure,
    MockRequestBuilder,
};
pub use error::MockError;
pub use response::{create_mock_response, try_create_mock_response, MockResponse};
pub use status::StatusCode;
pub use url::Url;
