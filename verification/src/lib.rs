//! Adapters that drive several third-party byte-stream compression codecs
//! through one uniform, contract-bearing interface, together with the
//! size-classification logic used when reporting byte counts.

pub mod compressor;
pub mod sizing;
