//! Host-side mirrors of shader struct layouts.
//!
//! `wgsl_type` holds the catalog of shader vector and matrix types with their
//! alignment and size, and the maps from those types to host types.
//! `rust_type` describes host types and their sizes. `rust_struct_builder`
//! derives, from a shader struct's members and layout, the description of a
//! host struct whose layout matches it byte for byte: its fields and padding,
//! derives, representation, constructor, alternate `Init` form and layout
//! checks. `layout_laws` proves what those descriptions guarantee.

pub mod layout_laws;
pub mod options;
pub mod rust_struct_builder;
pub mod rust_type;
pub mod wgsl_type;
