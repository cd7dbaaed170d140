//! Connection settings of one model provider: the address of its API and
//! the key that opens it.
//!
//! Every function carries a contract over the text that a value holds,
//! and Verus proves each body against it. Addresses are parsed by the
//! `url` crate. Two contracts are believed, not proved: that of the
//! parser's wrapper in `endpoint`, and that of the comparison of string
//! slices in `api_key`.

pub mod api_key;
pub mod descriptor;
pub mod endpoint;
pub mod model;
