//! A verified generator of a flat, C-callable wrapper layer over a C++
//! class library.
//!
//! Given a metadata description of C++ types and methods, the library
//! decides how every type is represented on the C side, how every method's
//! arguments and return value cross the C++/C boundary, and emits the
//! header and source text implementing that crossing.  A small companion
//! module plans the cmake commands that compile the generated sources.
pub mod cmake;
pub mod decl;
pub mod generator;
pub mod method;
pub mod model;
pub mod text;
pub mod translate;
