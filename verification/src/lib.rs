//! A thin, verified object layer over a handle-based, bind-then-operate
//! 3D graphics API.
//!
//! The library describes GPU-side resources — shader programs, vertex and
//! index buffers, attribute layouts, typed uniform values — and computes the
//! exact sequence of bind/configure/unbind calls that realises each
//! description. The commands are plain data (`GlCommand`); an unverified
//! front end executes them against the real graphics context and hands the
//! few results the API reports (fresh object names, compile and link status,
//! diagnostic text) back into the library, which alone decides what they
//! mean. A specification-level model of the API's global binding state
//! (`GlState`) gives the command sequences their meaning, and the proofs
//! show that each builder's sequence leaves that state configured as the
//! description demands.

use vstd::prelude::*;

pub mod commands;
pub mod model;
pub mod buffer;
pub mod shader;
pub mod shader_program;
pub mod uniform_vector;
pub mod vertex_array;

verus! {

} // verus!
