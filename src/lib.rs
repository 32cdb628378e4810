//! Detection keywords over LDAP transactions: option parsing, per-response
//! field extraction, and quantified matching across a transaction's responses.

pub mod types;
pub mod fields;
pub mod index;
pub mod decimal;
pub mod uint;
pub mod options;
pub mod detect;
