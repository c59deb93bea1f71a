//! Unicode line breaking, and the wrapping of text to a width.
//!
//! `break_property` gives a code point its line-breaking class, `linebreaks` scans a
//! text for the positions at which a line may or must end, and `apply_newlines` puts
//! newlines into a text so that no line is wider than a budget.

pub mod class;
pub mod classify;
pub mod laws;
pub mod measure;
pub mod scan;
pub mod tables;
pub mod wrap;

pub use crate::class::BreakClass;
pub use crate::classify::break_property;
pub use crate::scan::linebreaks;
pub use crate::scan::BreakOpportunity;
pub use crate::wrap::apply_newlines;
pub use crate::wrap::LineBreakErr;
