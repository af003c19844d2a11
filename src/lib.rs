//! Validation, decoding and encoding of Romanian personal numeric codes
//! (CNP): thirteen decimal digits that carry sex, birth date, a county
//! code, an ordinal and a check digit.

pub mod checksum;
pub mod codec;
pub mod digits;
pub mod identifier;
pub mod laws;
pub mod validate;

pub use checksum::check_digit;
pub use identifier::{Cnp, CnpError, LeadRow, Sex};
pub use codec::{cnp_from_string, parse_primary};
pub use validate::{valid_cnp, valid_nif, valid_number};
