//! Vertex arrays: attribute layout descriptors and the builder that
//! assembles buffers and descriptors into one configured array object.
//!
//! The build order is load-bearing under the API's bind-then-operate model:
//! the array is made current first, the buffers are bound while it is
//! current (so their association is recorded on it), each attribute pointer
//! is configured and enabled in turn, and the array is unbound last so no
//! global bind state leaks into unrelated calls. `lemma_build_configures`
//! proves the produced sequence does exactly that to the binding model.

use vstd::prelude::*;

use crate::buffer::Buffer;
use crate::commands::{BufferKind, DataType, GlCommand};
use crate::model::{attrib_of, run, step, vao_of, AttribState, GlState, VaoState};

verus! {

/// A pure value describing how one vertex attribute reads its data out of
/// the vertex buffer bound when it is configured: attribute location,
/// vector width, scalar type, normalization, and byte stride and offset.
#[derive(Clone, Copy, Debug, PartialEq, Eq, Structural)]
pub struct ArrayPointer {
    pub location: u32,
    pub components: u32,
    pub data_type: DataType,
    pub normalize: bool,
    /// Distance in bytes from one vertex's value to the next; 0 means
    /// tightly packed.
    pub stride: u32,
    /// Byte offset of the first value inside the buffer.
    pub offset: u32,
}

impl ArrayPointer {
    /// The descriptor every field of which is still at its default.
    pub open spec fn initial() -> ArrayPointer {
        ArrayPointer {
            location: 0,
            components: 0,
            data_type: DataType::Float,
            normalize: false,
            stride: 0,
            offset: 0,
        }
    }

    /// Start from the defaults: location 0, no components yet, float data,
    /// unnormalized, tightly packed at offset 0.
    pub fn new() -> (p: ArrayPointer)
        ensures
            p == ArrayPointer::initial(),
    {
        ArrayPointer {
            location: 0,
            components: 0,
            data_type: DataType::Float,
            normalize: false,
            stride: 0,
            offset: 0,
        }
    }

    /// Set the attribute location explicitly.
    pub fn location(self, location: u32) -> (p: ArrayPointer)
        ensures
            p == (ArrayPointer { location, ..self }),
    {
        ArrayPointer { location, ..self }
    }

    /// Take the location a name query against a linked program resolved
    /// to. The query's "name not found" sentinel is negative and is not an
    /// error: the descriptor is then left as it was.
    pub fn shader_attribute(self, location: i32) -> (p: ArrayPointer)
        ensures
            location >= 0 ==> p == (ArrayPointer { location: location as u32, ..self }),
            location < 0 ==> p == self,
    {
        if location >= 0 {
            ArrayPointer { location: location as u32, ..self }
        } else {
            self
        }
    }

    /// Set the vector width. The API recognises widths one through four.
    pub fn components(self, components: u32) -> (p: ArrayPointer)
        requires
            1 <= components <= 4,
        ensures
            p == (ArrayPointer { components, ..self }),
    {
        ArrayPointer { components, ..self }
    }

    /// Set the scalar type the attribute reads. Set it before `stride` or
    /// `offset`: both count in units of this type.
    pub fn data_type(self, data_type: DataType) -> (p: ArrayPointer)
        ensures
            p == (ArrayPointer { data_type, ..self }),
    {
        ArrayPointer { data_type, ..self }
    }

    /// Choose whether fixed-point data is normalized when read.
    pub fn normalize(self, normalize: bool) -> (p: ArrayPointer)
        ensures
            p == (ArrayPointer { normalize, ..self }),
    {
        ArrayPointer { normalize, ..self }
    }

    /// Set the per-vertex stride, measured in scalars of the descriptor's
    /// data type; it is stored as the byte count the API expects.
    pub fn stride(self, elements: u32) -> (p: ArrayPointer)
        requires
            elements * self.data_type.size_spec() <= u32::MAX,
        ensures
            p == (ArrayPointer { stride: (elements * self.data_type.size_spec()) as u32, ..self }),
    {
        let stride: u32 = elements * self.data_type.size_bytes();
        ArrayPointer { stride, ..self }
    }

    /// Set the starting offset, measured in scalars of the descriptor's
    /// data type; it is stored as the byte count the API expects.
    pub fn offset(self, elements: u32) -> (p: ArrayPointer)
        requires
            elements * self.data_type.size_spec() <= u32::MAX,
        ensures
            p == (ArrayPointer { offset: (elements * self.data_type.size_spec()) as u32, ..self }),
    {
        let offset: u32 = elements * self.data_type.size_bytes();
        ArrayPointer { offset, ..self }
    }
}

/// What the vertex-array builder remembers of one accumulated buffer: its
/// object name and the target it binds to.
#[derive(Clone, Copy, Debug, PartialEq, Eq, Structural)]
pub struct BufferBinding {
    pub id: u32,
    pub kind: BufferKind,
}

/// A handle to a built vertex-array object.
#[derive(Clone, Copy, Debug, PartialEq, Eq, Structural)]
pub struct VertexArray {
    pub id: u32,
}

impl VertexArray {
    /// Start accumulating buffers and attribute descriptors.
    pub fn new() -> (b: VertexArrayBuilder)
        ensures
            b.buffers@ == Seq::<BufferBinding>::empty(),
            b.pointers@ == Seq::<ArrayPointer>::empty(),
            b.pending == ArrayPointer::initial(),
    {
        VertexArrayBuilder {
            buffers: Vec::new(),
            pointers: Vec::new(),
            pending: ArrayPointer::new(),
        }
    }

    /// The command that makes this array current for subsequent draws.
    pub fn bind(&self) -> (c: GlCommand)
        ensures
            c == (GlCommand::BindVertexArray { array: self.id }),
    {
        GlCommand::BindVertexArray { array: self.id }
    }

    /// The command that binds the "no array" sentinel, leaving no vertex
    /// array current.
    pub fn unbind() -> (c: GlCommand)
        ensures
            c == (GlCommand::BindVertexArray { array: 0 }),
    {
        GlCommand::BindVertexArray { array: 0 }
    }
}

/// Accumulates buffers and attribute descriptors for one vertex array.
///
/// Descriptors come in through `pointer`; the four single-configuration
/// setters instead edit one pending descriptor, which `build` applies
/// after the explicit ones once a vector width has been given.
pub struct VertexArrayBuilder {
    pub buffers: Vec<BufferBinding>,
    pub pointers: Vec<ArrayPointer>,
    pub pending: ArrayPointer,
}

/// The bind commands for the accumulated buffers, in accumulation order.
pub open spec fn bind_cmds(bs: Seq<BufferBinding>) -> Seq<GlCommand> {
    Seq::new(bs.len(), |i: int| GlCommand::BindBuffer { target: bs[i].kind, buffer: bs[i].id })
}

/// The two commands that realise one attribute descriptor: configure the
/// pointer, then enable the attribute.
pub open spec fn ptr_pair(p: ArrayPointer) -> Seq<GlCommand> {
    seq![
        GlCommand::VertexAttribPointer {
            location: p.location,
            components: p.components,
            data_type: p.data_type,
            normalize: p.normalize,
            stride: p.stride,
            offset: p.offset,
        },
        GlCommand::EnableVertexAttribArray { location: p.location },
    ]
}

/// The commands for a list of descriptors, applied in order.
pub open spec fn ptr_cmds(ps: Seq<ArrayPointer>) -> Seq<GlCommand>
    decreases ps.len(),
{
    if ps.len() == 0 {
        Seq::empty()
    } else {
        ptr_cmds(ps.drop_last()) + ptr_pair(ps.last())
    }
}

/// The whole build sequence: make the fresh array current, bind every
/// buffer while it is current, configure and enable every attribute, and
/// unbind the array so no global state leaks.
pub open spec fn build_cmds(id: u32, bs: Seq<BufferBinding>, ps: Seq<ArrayPointer>) -> Seq<
    GlCommand,
> {
    seq![GlCommand::BindVertexArray { array: id }] + bind_cmds(bs) + ptr_cmds(ps) + seq![
        GlCommand::BindVertexArray { array: 0 },
    ]
}

/// The descriptors `build` applies: the explicit ones, then the pending
/// single configuration if it was ever given a vector width.
pub open spec fn effective_pointers(b: VertexArrayBuilder) -> Seq<ArrayPointer> {
    if b.pending.components >= 1 {
        b.pointers@.push(b.pending)
    } else {
        b.pointers@
    }
}

impl VertexArrayBuilder {
    /// Accumulate a buffer; at build time it is bound while the array is
    /// current, so the array records the association.
    pub fn buffer(self, buffer: &Buffer) -> (b: Self)
        ensures
            b.buffers@ == self.buffers@.push(BufferBinding { id: buffer.id, kind: buffer.kind }),
            b.pointers@ == self.pointers@,
            b.pending == self.pending,
    {
        let mut buffers = self.buffers;
        buffers.push(BufferBinding { id: buffer.id, kind: buffer.kind });
        VertexArrayBuilder { buffers, pointers: self.pointers, pending: self.pending }
    }

    /// Accumulate one attribute descriptor.
    pub fn pointer(self, pointer: &ArrayPointer) -> (b: Self)
        requires
            1 <= pointer.components <= 4,
        ensures
            b.pointers@ == self.pointers@.push(*pointer),
            b.buffers@ == self.buffers@,
            b.pending == self.pending,
    {
        let mut pointers = self.pointers;
        pointers.push(*pointer);
        VertexArrayBuilder { buffers: self.buffers, pointers, pending: self.pending }
    }

    /// Set the pending configuration's attribute location.
    pub fn location(self, location: u32) -> (b: Self)
        ensures
            b.pending == (ArrayPointer { location, ..self.pending }),
            b.buffers@ == self.buffers@,
            b.pointers@ == self.pointers@,
    {
        VertexArrayBuilder {
            buffers: self.buffers,
            pointers: self.pointers,
            pending: self.pending.location(location),
        }
    }

    /// Set the pending configuration's vector width (one through four);
    /// giving a width is what makes the pending configuration take part in
    /// the build.
    pub fn components(self, components: u32) -> (b: Self)
        requires
            1 <= components <= 4,
        ensures
            b.pending == (ArrayPointer { components, ..self.pending }),
            b.buffers@ == self.buffers@,
            b.pointers@ == self.pointers@,
    {
        VertexArrayBuilder {
            buffers: self.buffers,
            pointers: self.pointers,
            pending: self.pending.components(components),
        }
    }

    /// Set the pending configuration's scalar type.
    pub fn data_type(self, data_type: DataType) -> (b: Self)
        ensures
            b.pending == (ArrayPointer { data_type, ..self.pending }),
            b.buffers@ == self.buffers@,
            b.pointers@ == self.pointers@,
    {
        VertexArrayBuilder {
            buffers: self.buffers,
            pointers: self.pointers,
            pending: self.pending.data_type(data_type),
        }
    }

    /// Set the pending configuration's normalization flag.
    pub fn normalize(self, normalize: bool) -> (b: Self)
        ensures
            b.pending == (ArrayPointer { normalize, ..self.pending }),
            b.buffers@ == self.buffers@,
            b.pointers@ == self.pointers@,
    {
        VertexArrayBuilder {
            buffers: self.buffers,
            pointers: self.pointers,
            pending: self.pending.normalize(normalize),
        }
    }

    /// The commands that assemble the accumulated description into the
    /// fresh array object `id`, in the order the binding model requires.
    pub fn build(self, id: u32) -> (r: (VertexArray, Vec<GlCommand>))
        ensures
            r.0.id == id,
            r.1@ == build_cmds(id, self.buffers@, effective_pointers(self)),
    {
        let mut ptrs = self.pointers;
        if self.pending.components >= 1 {
            ptrs.push(self.pending);
        }
        let mut cmds: Vec<GlCommand> = Vec::new();
        cmds.push(GlCommand::BindVertexArray { array: id });
        let mut i: usize = 0;
        while i < self.buffers.len()
            invariant
                i <= self.buffers.len(),
                cmds@.len() == 1 + i,
                cmds@[0] == (GlCommand::BindVertexArray { array: id }),
                forall|j: int|
                    0 <= j < i ==> cmds@[1 + j] == (GlCommand::BindBuffer {
                        target: self.buffers@[j].kind,
                        buffer: self.buffers@[j].id,
                    }),
            decreases self.buffers.len() - i,
        {
            let b = self.buffers[i];
            cmds.push(GlCommand::BindBuffer { target: b.kind, buffer: b.id });
            i = i + 1;
        }
        proof {
            assert(cmds@ =~= seq![GlCommand::BindVertexArray { array: id }] + bind_cmds(
                self.buffers@,
            ));
        }
        let ghost head = cmds@;
        let mut k: usize = 0;
        while k < ptrs.len()
            invariant
                k <= ptrs.len(),
                cmds@ == head + ptr_cmds(ptrs@.subrange(0, k as int)),
            decreases ptrs.len() - k,
        {
            let p = ptrs[k];
            cmds.push(
                GlCommand::VertexAttribPointer {
                    location: p.location,
                    components: p.components,
                    data_type: p.data_type,
                    normalize: p.normalize,
                    stride: p.stride,
                    offset: p.offset,
                },
            );
            cmds.push(GlCommand::EnableVertexAttribArray { location: p.location });
            proof {
                assert(ptrs@.subrange(0, k + 1 as int).drop_last() =~= ptrs@.subrange(
                    0,
                    k as int,
                ));
                assert(cmds@ =~= head + ptr_cmds(ptrs@.subrange(0, k + 1 as int)));
            }
            k = k + 1;
        }
        cmds.push(GlCommand::BindVertexArray { array: 0 });
        proof {
            assert(ptrs@.subrange(0, ptrs@.len() as int) =~= ptrs@);
            assert(ptrs@ =~= effective_pointers(self));
            assert(cmds@ =~= build_cmds(id, self.buffers@, effective_pointers(self)));
        }
        (VertexArray { id }, cmds)
    }
}

/// The vertex-data buffer left bound after binding `bs` in order, starting
/// from `init`: the last vertex-data entry wins.
pub open spec fn last_array(bs: Seq<BufferBinding>, init: u32) -> u32
    decreases bs.len(),
{
    if bs.len() == 0 {
        init
    } else if bs.last().kind == BufferKind::Array {
        bs.last().id
    } else {
        last_array(bs.drop_last(), init)
    }
}

/// The index buffer the current vertex array records after binding `bs`
/// in order, starting from `init`: the last index-data entry wins.
pub open spec fn last_element(bs: Seq<BufferBinding>, init: u32) -> u32
    decreases bs.len(),
{
    if bs.len() == 0 {
        init
    } else if bs.last().kind == BufferKind::ElementArray {
        bs.last().id
    } else {
        last_element(bs.drop_last(), init)
    }
}

/// The attribute record descriptor `p` leaves behind when configured while
/// vertex-data buffer `buf` is bound: enabled, with exactly `p`'s layout.
pub open spec fn configured(p: ArrayPointer, buf: u32) -> AttribState {
    AttribState {
        enabled: true,
        components: p.components,
        data_type: p.data_type,
        normalize: p.normalize,
        stride: p.stride,
        offset: p.offset,
        buffer: buf,
    }
}

/// No two descriptors aim at the same attribute location.
pub open spec fn distinct_locations(ps: Seq<ArrayPointer>) -> bool {
    forall|i: int, j: int| 0 <= i < j < ps.len() ==> ps[i].location != ps[j].location
}

/// Binding the accumulated buffers while a vertex array is current moves
/// only the two buffer bindings: the global vertex-data slot and the
/// current array's recorded index buffer.
proof fn lemma_bind_cmds_model(s: GlState, bs: Seq<BufferBinding>)
    requires
        s.current_vao != 0,
        s.vaos.dom().contains(s.current_vao),
    ensures
        ({
            let f = run(s, bind_cmds(bs));
            &&& f.current_vao == s.current_vao
            &&& f.current_program == s.current_program
            &&& f.element_buffer == s.element_buffer
            &&& f.array_buffer == last_array(bs, s.array_buffer)
            &&& f.programs == s.programs
            &&& f.uniforms == s.uniforms
            &&& f.buffers == s.buffers
            &&& f.vaos =~= s.vaos.insert(
                s.current_vao,
                VaoState {
                    element_buffer: last_element(bs, s.vaos[s.current_vao].element_buffer),
                    attribs: s.vaos[s.current_vao].attribs,
                },
            )
        }),
    decreases bs.len(),
{
    if bs.len() == 0 {
        assert(bind_cmds(bs) =~= Seq::<GlCommand>::empty());
        assert(s.vaos =~= s.vaos.insert(s.current_vao, s.vaos[s.current_vao]));
    } else {
        assert(bind_cmds(bs).drop_last() =~= bind_cmds(bs.drop_last()));
        lemma_bind_cmds_model(s, bs.drop_last());
        let f1 = run(s, bind_cmds(bs.drop_last()));
        let f = step(f1, bind_cmds(bs).last());
        if bs.last().kind == BufferKind::ElementArray {
            assert(f.vaos =~= s.vaos.insert(
                s.current_vao,
                VaoState {
                    element_buffer: last_element(bs, s.vaos[s.current_vao].element_buffer),
                    attribs: s.vaos[s.current_vao].attribs,
                },
            ));
        }
    }
}

/// Configuring the descriptors while a vertex array is current and a
/// vertex-data buffer is bound records each descriptor, enabled, against
/// that buffer, and touches nothing else: not the bindings, not the other
/// attributes, not the array's index buffer, not the other objects.
#[verifier::rlimit(60)]
proof fn lemma_ptr_cmds_model(s: GlState, ps: Seq<ArrayPointer>)
    requires
        s.current_vao != 0,
        s.vaos.dom().contains(s.current_vao),
        distinct_locations(ps),
    ensures
        ({
            let f = run(s, ptr_cmds(ps));
            &&& f.current_vao == s.current_vao
            &&& f.current_program == s.current_program
            &&& f.element_buffer == s.element_buffer
            &&& f.array_buffer == s.array_buffer
            &&& f.programs == s.programs
            &&& f.uniforms == s.uniforms
            &&& f.buffers == s.buffers
            &&& f.vaos.dom() == s.vaos.dom()
            &&& forall|v: u32| v != s.current_vao ==> vao_of(f, v) == vao_of(s, v)
            &&& vao_of(f, s.current_vao).element_buffer == vao_of(s, s.current_vao).element_buffer
            &&& forall|i: int|
                0 <= i < ps.len() ==> attrib_of(f, s.current_vao, ps[i].location) == configured(
                    ps[i],
                    s.array_buffer,
                )
            &&& forall|l: u32|
                (forall|i: int| 0 <= i < ps.len() ==> ps[i].location != l) ==> attrib_of(
                    f,
                    s.current_vao,
                    l,
                ) == attrib_of(s, s.current_vao, l)
        }),
    decreases ps.len(),
{
    if ps.len() == 0 {
        assert(ptr_cmds(ps) =~= Seq::<GlCommand>::empty());
    } else {
        lemma_ptr_cmds_model(s, ps.drop_last());
        crate::model::lemma_run_append(s, ptr_cmds(ps.drop_last()), ptr_pair(ps.last()));
        let f1 = run(s, ptr_cmds(ps.drop_last()));
        let pair = ptr_pair(ps.last());
        assert(pair =~= seq![pair[0], pair[1]]);
        crate::model::lemma_run_two(f1, pair[0], pair[1]);
        let f = step(step(f1, pair[0]), pair[1]);
        assert(run(s, ptr_cmds(ps)) == f);
        assert(attrib_of(f, s.current_vao, ps.last().location) == configured(
            ps.last(),
            s.array_buffer,
        ));
        assert(forall|i: int|
            0 <= i < ps.len() - 1 ==> ps[i] == ps.drop_last()[i] && ps[i].location
                != ps.last().location);
    }
}

/// Law: the vertex-array build sequence, run from any starting context,
/// leaves the array fully configured — every descriptor's attribute
/// enabled and pointing into the vertex-data buffer that was current when
/// it was configured (the last vertex-data buffer supplied, whatever the
/// order of the others), with the descriptor's exact layout — records the
/// last supplied index buffer on the array, leaves no vertex array
/// current afterwards, and disturbs no program, buffer contents or
/// uniform state.
pub proof fn lemma_build_configures(s: GlState, id: u32, bs: Seq<BufferBinding>, ps: Seq<ArrayPointer>)
    requires
        id != 0,
        distinct_locations(ps),
    ensures
        ({
            let f = run(s, build_cmds(id, bs, ps));
            &&& f.current_vao == 0
            &&& forall|i: int|
                0 <= i < ps.len() ==> attrib_of(f, id, ps[i].location) == configured(
                    ps[i],
                    last_array(bs, s.array_buffer),
                )
            &&& vao_of(f, id).element_buffer == last_element(bs, vao_of(s, id).element_buffer)
            &&& f.current_program == s.current_program
            &&& f.programs == s.programs
            &&& f.buffers == s.buffers
            &&& f.uniforms == s.uniforms
        }),
{
    let open_cmd = seq![GlCommand::BindVertexArray { array: id }];
    let close_cmd = seq![GlCommand::BindVertexArray { array: 0 }];
    let cs = build_cmds(id, bs, ps);
    crate::model::lemma_run_append(s, open_cmd, bind_cmds(bs));
    crate::model::lemma_run_append(s, open_cmd + bind_cmds(bs), ptr_cmds(ps));
    crate::model::lemma_run_append(s, open_cmd + bind_cmds(bs) + ptr_cmds(ps), close_cmd);
    assert(cs =~= (open_cmd + bind_cmds(bs) + ptr_cmds(ps)) + close_cmd);
    crate::model::lemma_run_one(s, GlCommand::BindVertexArray { array: id });
    let s1 = run(s, open_cmd);
    assert(s1 == step(s, GlCommand::BindVertexArray { array: id }));
    lemma_bind_cmds_model(s1, bs);
    let s2 = run(s1, bind_cmds(bs));
    lemma_ptr_cmds_model(s2, ps);
    let s3 = run(s2, ptr_cmds(ps));
    crate::model::lemma_run_one(s3, GlCommand::BindVertexArray { array: 0 });
    let f = run(s3, close_cmd);
    assert(f == step(s3, GlCommand::BindVertexArray { array: 0 }));
    assert(vao_of(s2, id).element_buffer == last_element(bs, vao_of(s, id).element_buffer));
    assert(forall|i: int|
        0 <= i < ps.len() ==> attrib_of(s3, id, ps[i].location) == configured(
            ps[i],
            last_array(bs, s.array_buffer),
        ));
}

/// Law: the attribute configuration the build records does not depend on
/// the order or make-up of the accumulated buffers beyond the vertex-data
/// buffer left bound when the descriptors are configured. Two buffer
/// lists that leave the same vertex-data buffer current give every
/// descriptor the identical attribute record.
pub proof fn lemma_buffer_order_irrelevant(
    s: GlState,
    id: u32,
    bs1: Seq<BufferBinding>,
    bs2: Seq<BufferBinding>,
    ps: Seq<ArrayPointer>,
)
    requires
        id != 0,
        distinct_locations(ps),
        last_array(bs1, s.array_buffer) == last_array(bs2, s.array_buffer),
    ensures
        forall|i: int|
            0 <= i < ps.len() ==> attrib_of(run(s, build_cmds(id, bs1, ps)), id, ps[i].location)
                == attrib_of(run(s, build_cmds(id, bs2, ps)), id, ps[i].location),
{
    lemma_build_configures(s, id, bs1, ps);
    lemma_build_configures(s, id, bs2, ps);
}

} // verus!
