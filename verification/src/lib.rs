//! Rendering, caching and diffing for a two-row character display built on
//! the ST7066U controller.
//!
//! A [`canvas::Canvas`] holds the pixels of sixteen cells. Rendering it gives
//! the two memory images that the controller should hold: for each cell an
//! address, either of a glyph in the read-only memory ([`ddrom`]) or of one
//! of the eight custom glyphs that the render pass put into the glyph memory
//! ([`cache`]). A [`diff::DiffUpdater`] compares the images with what the
//! controller holds and gives the writes that are needed. The [`driver`]
//! turns each write into signals on the lines of the controller, the [`bus`]
//! each byte into levels on the eight data lines.
//!
//! Nothing in here touches the hardware. Driver and bus hand out one signal
//! at a time through a [`transfer::Transfer`]; whoever holds the lines sends
//! it and reports how it ended.

pub mod bitmap;
pub mod bus;
pub mod cache;
pub mod canvas;
pub mod cmd;
pub mod ddrom;
pub mod diff;
pub mod driver;
pub mod transfer;
