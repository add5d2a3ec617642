//! Resolution of a name-service domain to the on-chain record of its
//! sub-domain registrar: the registrar's address is derived from the domain,
//! the account stored there is fetched by the caller, and its bytes are
//! checked for the registrar tag and decoded.
pub mod account;
pub mod address;
pub mod error;

pub use account::{parse_registrar_account, registrar_from_fetch, FetchError};
pub use address::{get_domain_key, registrar_address};
pub use error::LookupError;
