//! Media toolkit: colours, media formats, error values, FFmpeg filter
//! descriptions and graphs, codec capabilities and the decisions encoders
//! and decoders make, with their behaviour stated as Verus contracts.

pub mod text;
pub mod colors;
pub mod flags;
pub mod error;
pub mod fmt;
pub mod filter;
pub mod codec;
pub mod encode;
pub mod decode;
