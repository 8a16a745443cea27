//! Compiler-style diagnostics rendered against named source texts.
//!
//! A [`FileRegistry`] answers offset-to-line questions about the registered
//! texts; [`render`] turns a [`Diagnostic`] into terminal text through
//! codespan-reporting, after leaving out the labels that name no file and
//! cutting the others to their file.
use vstd::prelude::*;

pub mod config;
pub mod diagnostic;
pub mod files;
pub mod render;
pub mod term;

pub use config::{Chars, Color, ColorSpec, Config, DisplayStyle, Styles};
pub use diagnostic::{Diagnostic, Label, LabelStyle, RenderWarning, Severity};
pub use files::{FileError, FileRegistry, SourceFile};
pub use render::{render, RenderError, RenderOutput};

verus! {

} // verus!
