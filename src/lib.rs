//! Validation and external rendering of signed chain messages.
//!
//! A message carries its addresses and token amounts in their textual form and
//! its call parameters already encoded. The library checks those fields, packs a
//! message with its signature, and renders the pair as the JSON document that a
//! chain node accepts.

pub mod text;
pub mod encoding;
pub mod address;
pub mod amount;
pub mod signature;
pub mod message;
pub mod render;
