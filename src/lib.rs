//! Fast, non-cryptographic 64-bit hashers for hash maps and sets.
//!
//! Three interchangeable streaming hashers share one byte-string mixer
//! ([`mix`]): [`MumAddHasher`] (the default, also known as [`FxHasher`]),
//! [`MultilinearHasher`] and [`PolyHasher`]. None of them resists
//! adversarial inputs.
pub mod mix;
pub mod multilinear_hasher;
pub mod mum_add_hasher;
pub mod poly_hasher;
pub mod stream;

pub use multilinear_hasher::MultilinearHasher;
pub use mum_add_hasher::MumAddHasher;
pub use mum_add_hasher::MumAddHasher as FxHasher;
pub use poly_hasher::PolyHasher;
