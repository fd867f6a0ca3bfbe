pub mod extractor;
pub mod hashing;
pub mod identity;
pub mod jwt;
