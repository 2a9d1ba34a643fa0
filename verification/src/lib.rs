//! Real-time frame pipeline for showing video on a grid of fixed-palette
//! map tiles.
//!
//! A decoded frame is a row of RGB pixels with a presentation timestamp.
//! Each pixel is classified to the nearest selectable entry of a fixed
//! 256-colour palette by one lookup in a baked table ([`quantizer`],
//! [`palette`]), and the palette indices are laid onto 128 by 128 tiles
//! ([`tiles`]). Which frame a display tick shows is decided from playback
//! time ([`playback`]): the latest frame whose time has come, while audio
//! clips of fixed length are cued once each. [`processor`] ties these to
//! the wall clock.
//!
//! Decoding, transport and storage are the caller's: the library works on
//! plain values and never blocks on a source.

pub mod command;
pub mod extractor;
pub mod palette;
pub mod playback;
pub mod processor;
pub mod quantizer;
pub mod resource_pack;
pub mod tiles;
pub mod util;
