//! An RC4 stream cipher with an MD5-based key derivation wrapper.
//!
//! The engine generates the RC4 keystream from a secret key and applies it
//! in place to successive byte buffers; the wrapper derives the engine key
//! as `MD5(key || iv)` and delegates every transform to the engine it owns.

pub mod cipher;
pub mod engine;
pub mod keystream;
pub mod laws;
pub mod rng;

pub use cipher::Rc4Md5Cipher;
pub use engine::CipherError;
pub use engine::Mode;
pub use engine::Rc4;
pub use rng::random_bytes;
