//! The schema's syntax tree, its parser and the code generators.
pub mod comments;
pub mod compile_python;
pub mod field;
pub mod lexer;
pub mod message;
pub mod penum;
pub mod penum_field;
pub mod ptype;
pub mod descriptor;
pub mod compile_go;
pub mod go_templates;
pub mod properties;
pub mod go_laws;
pub mod python_laws;
pub mod descriptor_laws;
pub mod comment_laws;
