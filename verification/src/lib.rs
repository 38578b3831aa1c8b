//! A field-wrapping generator: given the declaration of a record type, it
//! produces the declaration of a companion type whose fields each track
//! presence or absence, together with accessors, a setter per field, and
//! two constructors.
//!
//! The generator itself is a pure declaration-to-declaration transform: it
//! takes a record declaration as plain data ([`decl::InputDecl`]), derives
//! the companion's shape ([`generate::nullable`]) and renders it as source
//! text ([`render::render`]). The runtime behaviour that the emitted code
//! exhibits is written out and verified once, on a representative record,
//! in [`companion`].

pub mod companion;
pub mod decl;
pub mod generate;
pub mod render;
