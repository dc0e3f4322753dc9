//! Hashing of quoted string literals to fixed-width integers.
//!
//! The crate offers two stateless hash functions over strings, a 32-bit
//! FNV-1a hash and the 64-bit hash of the standard library's default hasher,
//! together with the rules by which a token stream is reduced to the one
//! quoted string literal whose content is hashed.

pub mod default_hasher;
pub mod error;
pub mod expand;
pub mod fnv;
pub mod literal;
pub mod token;

pub use default_hasher::string_hash_default;
pub use error::HashError;
pub use error::LiteralDefect;
pub use error::UnexpectedToken;
pub use expand::str_hash_default;
pub use expand::str_hash_fnv1a;
pub use expand::str_hash_impl;
pub use fnv::string_hash_fnv1a;
pub use literal::validate_literal;
pub use token::TokenTree;
