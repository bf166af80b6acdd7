//! A specification-level model of the API's global binding context.
//!
//! The underlying graphics API is bind-then-operate: a configuring call acts
//! on whatever object is currently bound, not on an object named in the
//! call. `GlState` makes that shared context explicit — the current program,
//! the current vertex array, the buffer bound to each target, and the state
//! the recorded objects have accumulated — and `step` says what each
//! `GlCommand` does to it. The builders' correctness theorems are stated as
//! properties of `run` over the command sequences they produce.

use vstd::prelude::*;

use crate::commands::{BufferKind, DataType, GlCommand, ScalarKind};

verus! {

/// What a vertex array records for one attribute location: whether the
/// attribute is enabled, its pointer configuration, and the vertex-data
/// buffer that was bound when the pointer call was issued.
#[verifier::ext_equal]
pub ghost struct AttribState {
    pub enabled: bool,
    pub components: u32,
    pub data_type: DataType,
    pub normalize: bool,
    pub stride: u32,
    pub offset: u32,
    pub buffer: u32,
}

impl AttribState {
    /// The state of an attribute nothing has configured yet.
    pub open spec fn initial() -> AttribState {
        AttribState {
            enabled: false,
            components: 0,
            data_type: DataType::Float,
            normalize: false,
            stride: 0,
            offset: 0,
            buffer: 0,
        }
    }
}

/// The state a vertex-array object accumulates: its per-attribute records
/// and its own index-buffer binding (the index target is per vertex array,
/// which is why index buffers must be bound while the array is current).
#[verifier::ext_equal]
pub ghost struct VaoState {
    pub element_buffer: u32,
    pub attribs: Map<u32, AttribState>,
}

impl VaoState {
    /// A freshly generated vertex array: nothing configured.
    pub open spec fn initial() -> VaoState {
        VaoState { element_buffer: 0, attribs: Map::empty() }
    }
}

/// The state a program object accumulates before its link status is
/// queried: the stages attached so far, in order, and whether the link
/// operation has been issued.
#[verifier::ext_equal]
pub ghost struct ProgramState {
    pub attached: Seq<u32>,
    pub link_issued: bool,
}

impl ProgramState {
    /// A freshly created program object.
    pub open spec fn initial() -> ProgramState {
        ProgramState { attached: Seq::empty(), link_issued: false }
    }
}

/// The last value uploaded to one uniform location: shape tag, value count
/// and the raw scalar words. Uniform state is last-write-wins.
#[verifier::ext_equal]
pub ghost struct UniformWrite {
    pub kind: ScalarKind,
    pub components: u32,
    pub count: int,
    pub data: Seq<u32>,
}

/// The whole binding context: the "current" slots plus the recorded state
/// of every object the commands have touched. Object name 0 is the API's
/// "nothing bound" sentinel throughout.
#[verifier::ext_equal]
pub ghost struct GlState {
    pub current_program: u32,
    pub current_vao: u32,
    pub array_buffer: u32,
    /// The index-target binding that applies while no vertex array is
    /// current.
    pub element_buffer: u32,
    pub vaos: Map<u32, VaoState>,
    pub programs: Map<u32, ProgramState>,
    pub buffers: Map<u32, Seq<u32>>,
    pub uniforms: Map<(u32, i32), UniformWrite>,
}

/// The recorded state of vertex array `v`, or a fresh one if never touched.
pub open spec fn vao_of(s: GlState, v: u32) -> VaoState {
    if s.vaos.dom().contains(v) {
        s.vaos[v]
    } else {
        VaoState::initial()
    }
}

/// The recorded state of program `p`, or a fresh one if never touched.
pub open spec fn program_of(s: GlState, p: u32) -> ProgramState {
    if s.programs.dom().contains(p) {
        s.programs[p]
    } else {
        ProgramState::initial()
    }
}

/// The attribute record of location `l` in vertex array `v`.
pub open spec fn attrib_of(s: GlState, v: u32, l: u32) -> AttribState {
    if vao_of(s, v).attribs.dom().contains(l) {
        vao_of(s, v).attribs[l]
    } else {
        AttribState::initial()
    }
}

/// Which buffer object a data upload against `target` would write to.
pub open spec fn bound_buffer(s: GlState, target: BufferKind) -> u32 {
    match target {
        BufferKind::Array => s.array_buffer,
        BufferKind::ElementArray => if s.current_vao != 0 {
            vao_of(s, s.current_vao).element_buffer
        } else {
            s.element_buffer
        },
    }
}

/// The effect of one command on the binding context.
pub open spec fn step(s: GlState, c: GlCommand) -> GlState {
    match c {
        GlCommand::AttachShader { program, shader } => GlState {
            programs: s.programs.insert(
                program,
                ProgramState {
                    attached: program_of(s, program).attached.push(shader),
                    link_issued: program_of(s, program).link_issued,
                },
            ),
            ..s
        },
        GlCommand::LinkProgram { program } => GlState {
            programs: s.programs.insert(
                program,
                ProgramState { attached: program_of(s, program).attached, link_issued: true },
            ),
            ..s
        },
        GlCommand::UseProgram { program } => GlState { current_program: program, ..s },
        GlCommand::BindBuffer { target, buffer } => match target {
            BufferKind::Array => GlState { array_buffer: buffer, ..s },
            BufferKind::ElementArray => if s.current_vao != 0 {
                GlState {
                    vaos: s.vaos.insert(
                        s.current_vao,
                        VaoState {
                            element_buffer: buffer,
                            attribs: vao_of(s, s.current_vao).attribs,
                        },
                    ),
                    ..s
                }
            } else {
                GlState { element_buffer: buffer, ..s }
            },
        },
        GlCommand::BufferData { target, data } => if bound_buffer(s, target) != 0 {
            GlState { buffers: s.buffers.insert(bound_buffer(s, target), data@), ..s }
        } else {
            s
        },
        GlCommand::BindVertexArray { array } => GlState {
            current_vao: array,
            vaos: if array != 0 && !s.vaos.dom().contains(array) {
                s.vaos.insert(array, VaoState::initial())
            } else {
                s.vaos
            },
            ..s
        },
        GlCommand::VertexAttribPointer {
            location,
            components,
            data_type,
            normalize,
            stride,
            offset,
        } => if s.current_vao != 0 {
            GlState {
                vaos: s.vaos.insert(
                    s.current_vao,
                    VaoState {
                        element_buffer: vao_of(s, s.current_vao).element_buffer,
                        attribs: vao_of(s, s.current_vao).attribs.insert(
                            location,
                            AttribState {
                                enabled: attrib_of(s, s.current_vao, location).enabled,
                                components,
                                data_type,
                                normalize,
                                stride,
                                offset,
                                buffer: s.array_buffer,
                            },
                        ),
                    },
                ),
                ..s
            }
        } else {
            s
        },
        GlCommand::EnableVertexAttribArray { location } => if s.current_vao != 0 {
            GlState {
                vaos: s.vaos.insert(
                    s.current_vao,
                    VaoState {
                        element_buffer: vao_of(s, s.current_vao).element_buffer,
                        attribs: vao_of(s, s.current_vao).attribs.insert(
                            location,
                            AttribState { enabled: true, ..attrib_of(s, s.current_vao, location) },
                        ),
                    },
                ),
                ..s
            }
        } else {
            s
        },
        GlCommand::ProgramUniform { kind, components, program, location, count, data } => if location
            < 0 {
            s
        } else {
            GlState {
                uniforms: s.uniforms.insert(
                    (program, location),
                    UniformWrite { kind, components, count: count as int, data: data@ },
                ),
                ..s
            }
        },
    }
}

/// The effect of a whole command sequence, issued left to right.
pub open spec fn run(s: GlState, cs: Seq<GlCommand>) -> GlState
    decreases cs.len(),
{
    if cs.len() == 0 {
        s
    } else {
        step(run(s, cs.drop_last()), cs.last())
    }
}

/// Running a single command is stepping it.
pub proof fn lemma_run_one(s: GlState, c: GlCommand)
    ensures
        run(s, seq![c]) == step(s, c),
{
    assert(seq![c].drop_last() =~= Seq::<GlCommand>::empty());
    assert(seq![c].last() == c);
    assert(run(s, seq![c].drop_last()) == s);
}

/// Running a pair of commands is stepping them in order.
pub proof fn lemma_run_two(s: GlState, c0: GlCommand, c1: GlCommand)
    ensures
        run(s, seq![c0, c1]) == step(step(s, c0), c1),
{
    assert(seq![c0, c1].drop_last() =~= seq![c0]);
    assert(seq![c0, c1].last() == c1);
    lemma_run_one(s, c0);
    assert(run(s, seq![c0, c1].drop_last()) == step(s, c0));
}

/// Running a concatenation is running the parts in order.
pub proof fn lemma_run_append(s: GlState, a: Seq<GlCommand>, b: Seq<GlCommand>)
    ensures
        run(s, a + b) == run(run(s, a), b),
    decreases b.len(),
{
    if b.len() == 0 {
        assert(a + b =~= a);
    } else {
        lemma_run_append(s, a, b.drop_last());
        assert((a + b).drop_last() =~= a + b.drop_last());
    }
}

} // verus!
