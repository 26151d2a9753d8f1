//! Core engine of a fast image viewer: file discovery, navigation state,
//! a bounded preload working set with worker bookkeeping, codec dispatch,
//! a Canon autofocus-point parser, and a byte-order probe for the raw
//! metadata returned by the EXIF library.

pub mod afinfo;
pub mod cmdline;
pub mod codecs;
pub mod files;
pub mod image;
pub mod numeric;
pub mod orientation;
pub mod probe;
