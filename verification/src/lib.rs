//! A compiler from a protocol-buffer schema language to Python and Go sources.
pub mod text;
pub mod util;
pub mod case_laws;
pub mod text_laws;
pub mod ast;
