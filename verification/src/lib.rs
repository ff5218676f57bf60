//! A growable, contiguous buffer of bytes with an explicit length and an
//! explicit capacity.
//!
//! [`Uint8Array`] keeps a block of `capacity` byte slots of which the first
//! `length` hold valid data. Every operation is verified against a model of
//! the block as a `Seq<u8>`.

pub mod buffer;
pub mod foreign;
pub mod lemmas;

pub use crate::buffer::Uint8Array;
