//! An image-decoding adapter.
//!
//! Given a file path or an in-memory byte buffer, the adapter decodes an
//! image through a general-purpose image library and returns the raw pixel
//! bytes together with a fixed metadata tuple: the shape in
//! `(height, width, channels)` order, the pixel element type and the color
//! layout tag. The [`color`] module holds the classification table that
//! maps each color model to its metadata row; the [`decode`] module holds
//! the two decode operations and the exported tuple form.

pub mod color;
pub mod decode;
