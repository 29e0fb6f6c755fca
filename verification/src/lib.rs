//! Resilient request execution against a certificate-transparency search
//! service: the request, the retry policy, the decoding of the response
//! into certificate records, and what a verbose or timed run shows.
//!
//! Nothing here sends, waits or prints. A caller sends the request, tells
//! [`retry::next_step`] how each attempt ended, and does what it says.

pub mod config;
pub mod crt;
pub mod decode;
pub mod diagnostics;
pub mod json;
pub mod outside;
pub mod request;
pub mod response;
pub mod retry;
pub mod table;
pub mod text;

pub use config::Config;
pub use crt::Crt;
pub use response::{ResponseInfo, TimingInfo};
