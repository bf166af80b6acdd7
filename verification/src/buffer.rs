//! A GPU-resident buffer of scalar data, and the builder that uploads one.
//!
//! The builder takes the CPU-side array and a target kind and, at `build`,
//! produces the two commands that bind the fresh buffer object to its
//! target and upload the full contents. Upload has no surfaced failure
//! path: the underlying API reports buffer errors only through a separate
//! global query, outside this layer.

use vstd::prelude::*;

use crate::commands::{BufferKind, GlCommand};
use crate::model::{bound_buffer, run, step, GlState};

verus! {

/// A handle to an uploaded buffer: the object name, the target it was
/// built for, and how many scalar words it holds. The GPU copy is
/// independent of the CPU array after upload.
#[derive(Clone, Copy, Debug, PartialEq, Eq, Structural)]
pub struct Buffer {
    pub id: u32,
    pub kind: BufferKind,
    pub count: usize,
}

impl Buffer {
    /// Start describing a buffer holding `data`, aimed at the vertex-data
    /// target unless `kind` changes it.
    pub fn new(data: Vec<u32>) -> (b: BufferBuilder)
        ensures
            b.data@ == data@,
            b.kind == BufferKind::Array,
    {
        BufferBuilder { data, kind: BufferKind::Array }
    }

    /// The command that re-binds this buffer to its target, as required
    /// before attribute configuration or an indexed draw.
    pub fn bind(&self) -> (c: GlCommand)
        ensures
            c == (GlCommand::BindBuffer { target: self.kind, buffer: self.id }),
    {
        GlCommand::BindBuffer { target: self.kind, buffer: self.id }
    }
}

/// Accumulates the description of one buffer until `build` uploads it.
pub struct BufferBuilder {
    pub data: Vec<u32>,
    pub kind: BufferKind,
}

impl BufferBuilder {
    /// Choose the target the buffer will be bound and uploaded to.
    pub fn kind(self, kind: BufferKind) -> (b: Self)
        ensures
            b.data@ == self.data@,
            b.kind == kind,
    {
        BufferBuilder { data: self.data, kind }
    }

    /// The commands that realise this buffer in object `id`: bind it to
    /// its target, then upload the full contents. The returned handle
    /// records the object name, the kind, and the element count.
    pub fn build(self, id: u32) -> (r: (Buffer, Vec<GlCommand>))
        ensures
            r.0 == (Buffer { id, kind: self.kind, count: self.data@.len() as usize }),
            r.1@.len() == 2,
            r.1@[0] == (GlCommand::BindBuffer { target: self.kind, buffer: id }),
            r.1@[1] matches GlCommand::BufferData { target, data } && target == self.kind
                && data@ == self.data@,
    {
        let BufferBuilder { data, kind } = self;
        let count: usize = data.len();
        let mut cmds: Vec<GlCommand> = Vec::new();
        cmds.push(GlCommand::BindBuffer { target: kind, buffer: id });
        cmds.push(GlCommand::BufferData { target: kind, data });
        (Buffer { id, kind, count }, cmds)
    }
}

/// Law: running a buffer's build sequence from any context records exactly
/// the uploaded words under the fresh object name, and disturbs no other
/// buffer's contents.
pub proof fn lemma_upload_records(s: GlState, c0: GlCommand, c1: GlCommand, id: u32, kind: BufferKind, data: Seq<u32>)
    requires
        id != 0,
        c0 == (GlCommand::BindBuffer { target: kind, buffer: id }),
        c1 matches GlCommand::BufferData { target, data: d } && target == kind && d@ == data,
    ensures
        run(s, seq![c0, c1]).buffers =~= s.buffers.insert(id, data),
        bound_buffer(run(s, seq![c0, c1]), kind) == id,
        run(s, seq![c0, c1]).current_vao == s.current_vao,
        run(s, seq![c0, c1]).current_program == s.current_program,
        run(s, seq![c0, c1]).programs == s.programs,
        run(s, seq![c0, c1]).uniforms == s.uniforms,
{
    crate::model::lemma_run_two(s, c0, c1);
    assert(run(s, seq![c0, c1]) == step(step(s, c0), c1));
}

} // verus!
