//! Renders a structured configuration value as a commented text document:
//! `[section]` headers, `key = value` lines, and in front of each a comment
//! block that reproduces the documentation of the type and of its fields.
//!
//! A type is described by a [`TypeDescriptor`]; [`derive_toml_comment`] derives
//! one from the declaration of the type, and [`classify`] decides the shape of
//! each field from its declared type. [`try_render`] renders a [`Value`]
//! along a description, and [`fmt_value`] writes a single value.

pub mod descriptor;
pub mod document;
pub mod laws;
pub mod render;
pub mod schema;
pub mod text;
pub mod value;

pub use descriptor::{
    derive_toml_comment, FieldDecl, SchemaError, SchemaNode, StructDecl, TypeDescriptor,
};
pub use document::{
    conforms, render, render_into, try_render, try_render_into, RenderError, TomlComment,
};
pub use render::emit_docs;
pub use schema::{classify, is_option_type, is_section_type, FieldType, Shape};
pub use value::{fmt_value, Date, Datetime, Offset, Time, Value};
