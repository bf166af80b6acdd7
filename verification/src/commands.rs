//! The commands the library issues against the underlying graphics API,
//! as plain data.
//!
//! Every builder in this crate turns a resource description into a
//! `Vec<GlCommand>`. The sequences are what the contracts and the binding
//! model (`crate::model`) speak about; an unverified front end translates
//! each command into the one API entry point it names.

use vstd::prelude::*;

verus! {

/// The two buffer targets of the binding context: vertex data and index
/// data.
#[derive(Clone, Copy, Debug, PartialEq, Eq, Structural)]
pub enum BufferKind {
    /// Vertex-data target (the default for a new buffer).
    Array,
    /// Index-data target. Its binding is recorded per vertex array while
    /// one is current.
    ElementArray,
}

/// The scalar type of the values a vertex attribute reads from its buffer.
#[derive(Clone, Copy, Debug, PartialEq, Eq, Structural)]
pub enum DataType {
    Float,
    Int,
    UnsignedInt,
    UnsignedByte,
}

impl DataType {
    /// Size in bytes of one scalar of this type, used to turn
    /// element-counted strides and offsets into byte counts.
    pub open spec fn size_spec(self) -> u32 {
        match self {
            DataType::Float => 4,
            DataType::Int => 4,
            DataType::UnsignedInt => 4,
            DataType::UnsignedByte => 1,
        }
    }

    /// Executable twin of [`Self::size_spec`].
    pub fn size_bytes(self) -> (s: u32)
        ensures
            s == self.size_spec(),
    {
        match self {
            DataType::Float => 4,
            DataType::Int => 4,
            DataType::UnsignedInt => 4,
            DataType::UnsignedByte => 1,
        }
    }
}

/// The scalar family of a uniform upload: one of the three the API batches
/// its typed upload entry points by.
#[derive(Clone, Copy, Debug, PartialEq, Eq, Structural)]
pub enum ScalarKind {
    Float,
    Int,
    UnsignedInt,
}

/// One call against the graphics API, with everything that call needs.
///
/// Data-carrying payloads (buffer contents, uniform values) travel as raw
/// 32-bit scalar words; the front end reinterprets them per the command's
/// type tags when it issues the call.
#[derive(Clone, Debug, PartialEq)]
pub enum GlCommand {
    /// Attach a compiled shader stage to a program object.
    AttachShader { program: u32, shader: u32 },
    /// Link the stages attached to a program object.
    LinkProgram { program: u32 },
    /// Make a program current for subsequent draw calls.
    UseProgram { program: u32 },
    /// Bind a buffer object to one of the two buffer targets.
    BindBuffer { target: BufferKind, buffer: u32 },
    /// Upload `data` into the buffer currently bound to `target`.
    BufferData { target: BufferKind, data: Vec<u32> },
    /// Make a vertex array current (`array == 0` unbinds).
    BindVertexArray { array: u32 },
    /// Describe where attribute `location` reads its data inside the buffer
    /// currently bound to the vertex-data target. `stride` and `offset` are
    /// in bytes.
    VertexAttribPointer {
        location: u32,
        components: u32,
        data_type: DataType,
        normalize: bool,
        stride: u32,
        offset: u32,
    },
    /// Enable attribute `location` on the current vertex array.
    EnableVertexAttribArray { location: u32 },
    /// Upload `count` values of shape `kind` × `components` to the uniform
    /// at `location` of `program`. A negative location is the "name not
    /// found" sentinel and makes the call a no-op.
    ProgramUniform {
        kind: ScalarKind,
        components: u32,
        program: u32,
        location: i32,
        count: usize,
        data: Vec<u32>,
    },
}

} // verus!
