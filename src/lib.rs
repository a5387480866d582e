//! An authorization gate for an HTTP service.
//!
//! For each inbound request it decides, in a fixed order, whether the
//! request may proceed: loopback callers pass, other callers must present a
//! bearer credential, the credential is checked by an external token review
//! authority, and the reviewed identity must be on an allow-list.
pub mod address;
pub mod config;
pub mod credential;
pub mod gate;
pub mod review;

pub use address::IpAddress;
pub use config::Config;
pub use gate::{check_request, check_review, Decision, Extractor, Request, Step};
pub use review::{ReviewRequest, ReviewResult, UserInfo};
