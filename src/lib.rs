//! Hardware-control core of a point-of-sale terminal: the wire protocol of a
//! Brother QL thermal label printer and of a serial weighing scale.
//!
//! Everything here works on plain values. Opening devices, moving bytes over
//! USB or a serial line, and running the polling thread is left to callers.

/// Printer models and their USB product identifiers.
pub mod model;

/// Label geometry per printer model and loaded media.
pub mod label;

/// Device and endpoint selection during USB attach.
pub mod attach;

/// Decoding of the printer's 32-byte status frame.
pub mod status;

/// Raster packing and the command sequence of a print job.
pub mod print;

/// Scale response parsing and the polling engine's decisions.
pub mod weight;
