pub mod encoding;
pub mod hashing;
pub mod random;
pub mod signing;
pub mod strength;
pub mod tabular;
pub mod text;
