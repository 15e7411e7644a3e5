//! A client core for the Harvest time-tracking service.
//!
//! The crate holds the typed resources of the service, the documents they are
//! read from and written to, the requests that each operation issues, and the
//! rule by which a paginated listing is gathered. Carrying a request out is
//! left to the caller: every operation takes the function that does it.

pub mod client;
mod clock;
pub mod decode;
pub mod encode;
pub mod json;
pub mod model;
pub mod pagination;
pub mod request;
pub mod text;
pub mod transport;
pub mod wire;
