//! Encodes print jobs into the ESC/POS byte protocol of receipt printers: a command table,
//! a text encoder, an image rasterizer, and a printer that sequences their bytes into a sink.
pub mod codec;
pub mod consts;
pub mod error;
pub mod img;
pub mod laws;
pub mod printer;
pub mod sink;
pub mod token;
