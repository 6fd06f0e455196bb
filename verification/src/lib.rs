//! Validation of International Bank Account Numbers (IBANs).
//!
//! A candidate string is judged on four independent criteria: whether it is
//! alphanumeric, whether its leading two characters name a known country,
//! whether its length is the one registered for that country, and whether the
//! ISO 7064 MOD 97-10 checksum over its base-36 digit expansion comes out at
//! remainder 1. Every outcome is reported as a flag in a verdict record;
//! malformed input never aborts an evaluation.

pub mod registry;
pub mod transform;
pub mod validator;

pub use registry::lookup_length;
pub use transform::divide_by_97;
pub use transform::replace_letters_with_numbers;
pub use validator::get_iban_vo_from_str;
pub use validator::is_alphanumeric;
pub use validator::validate_iban;
pub use validator::IbanVO;
