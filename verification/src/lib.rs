//! Turns machine-generated security-scan reports into a narrative document
//! and into comments anchored to the lines of a merge request's diff.

pub mod delivery;
pub mod input_formats;
pub mod json;
pub mod pipeline;
pub mod poster;
pub mod sequence;
pub mod template;
pub mod text;
pub mod timestamp;

pub use input_formats::sast::{SastHandler, SastReport};
pub use input_formats::{Handlers, ReportFormatHandler, Severity};
pub use pipeline::{render_to_comment, render_to_diffs, ReportError};
pub use poster::DiffLineComment;
