//! Upload ingestion for a streaming file store.
//!
//! A request arrives as an ordered, single-pass sequence of multipart
//! parts: first a text field `relative_path` choosing the destination
//! under the configured storage root, then one part per file.  The
//! engine in [`upload`] validates the path field and every file name,
//! orders each file's bytes streamed to its target path, and, when a
//! request fails partway, hands back every path already written for
//! rollback.  [`upload_model`] is the engine's mathematical model,
//! [`laws`] the theorems proved of it, [`validators`] the file-name
//! rules, and [`configuration`] the settings the host process runs
//! under.  The transport and the disk belong to the host program; the
//! engine only decides.

pub mod configuration;
pub mod laws;
pub mod upload;
pub mod upload_model;
pub mod validators;
