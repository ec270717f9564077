//! Fetch-and-unpack logic for release assets, with contracts checked by Verus.
pub mod ascii;
pub mod asset;
pub mod error;
pub mod markup;
pub mod pause;
pub mod release;
pub mod unpack;
