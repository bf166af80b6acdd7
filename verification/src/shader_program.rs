//! A linked, executable shader program, and the builder that links one
//! from compiled stages.
//!
//! The builder is a pure accumulator: `with` collects compiled stages, and
//! the terminal `build` is the only place a usable handle or an explicit
//! failure is produced. The commands that attach and link run through the
//! binding model, and `lemma_link_commands_model` shows they attach every
//! accumulated stage, in order, before the link is issued.

use vstd::prelude::*;

use crate::commands::GlCommand;
use crate::model::{program_of, run, step, GlState};
use crate::shader::{GlError, InfoLog, Shader};

verus! {

/// A linked program. A value exists only for a link whose status reported
/// success: `ShaderProgramBuilder::build` is the sole constructor.
pub struct ShaderProgram {
    pub id: u32,
}

impl ShaderProgram {
    /// Start accumulating stages for a new program.
    pub fn new() -> (b: ShaderProgramBuilder)
        ensures
            b@ == Seq::<u32>::empty(),
    {
        ShaderProgramBuilder { shaders: Vec::new() }
    }

    /// The command that makes this program current for subsequent draws.
    /// Binding an already-linked handle has no failure mode.
    pub fn bind(&self) -> (c: GlCommand)
        ensures
            c == (GlCommand::UseProgram { program: self.id }),
    {
        GlCommand::UseProgram { program: self.id }
    }
}

/// Accumulates references to compiled stages until `build` links them.
pub struct ShaderProgramBuilder {
    shaders: Vec<u32>,
}

impl View for ShaderProgramBuilder {
    type V = Seq<u32>;

    /// The object names of the stages accumulated so far, in order.
    closed spec fn view(&self) -> Seq<u32> {
        self.shaders@
    }
}

/// The attach commands for stages `ids` against program `program`, in the
/// order the stages were accumulated.
pub open spec fn attach_cmds(ids: Seq<u32>, program: u32) -> Seq<GlCommand> {
    Seq::new(ids.len(), |i: int| GlCommand::AttachShader { program, shader: ids[i] })
}

/// The full link sequence: attach every stage, then issue the link.
pub open spec fn link_cmds(ids: Seq<u32>, program: u32) -> Seq<GlCommand> {
    attach_cmds(ids, program).push(GlCommand::LinkProgram { program })
}

impl ShaderProgramBuilder {
    /// Accumulate one more compiled stage. Only compiled stages can be
    /// attached: holding a `&Shader` is proof its compile succeeded.
    pub fn with(self, shader: &Shader) -> (b: Self)
        ensures
            b@ == self@.push(shader.id_spec()),
    {
        let mut shaders = self.shaders;
        shaders.push(shader.id());
        ShaderProgramBuilder { shaders }
    }

    /// The commands that attach every accumulated stage to the program
    /// object `program` and issue the link operation.
    pub fn link_commands(&self, program: u32) -> (cmds: Vec<GlCommand>)
        ensures
            cmds@ == link_cmds(self@, program),
    {
        let mut cmds: Vec<GlCommand> = Vec::new();
        let mut i: usize = 0;
        while i < self.shaders.len()
            invariant
                i <= self.shaders.len(),
                cmds@.len() == i,
                forall|j: int|
                    0 <= j < i ==> cmds@[j] == (GlCommand::AttachShader {
                        program,
                        shader: self.shaders@[j],
                    }),
            decreases self.shaders.len() - i,
        {
            cmds.push(GlCommand::AttachShader { program, shader: self.shaders[i] });
            i = i + 1;
        }
        cmds.push(GlCommand::LinkProgram { program });
        proof {
            assert(cmds@ =~= link_cmds(self@, program));
        }
        cmds
    }

    /// Decide the outcome the API reported for linking `program`: a usable
    /// handle exactly when the link status reported success; otherwise a
    /// `LinkFailure` carrying the program object's diagnostic text, and no
    /// handle at all.
    pub fn build(&self, program: u32, status: bool, log: String) -> (r: Result<
        ShaderProgram,
        GlError,
    >)
        ensures
            status <==> r is Ok,
            r matches Ok(sp) ==> sp.id == program,
            r matches Err(e) ==> (e matches GlError::LinkFailure(l) && l.text@ == log@),
    {
        if status {
            Ok(ShaderProgram { id: program })
        } else {
            Err(GlError::LinkFailure(InfoLog { text: log }))
        }
    }
}

/// Attaching stages `ids` records exactly those stages, in order, on the
/// program object, and touches nothing else it had.
proof fn lemma_attach_cmds_model(s: GlState, ids: Seq<u32>, program: u32)
    ensures
        program_of(run(s, attach_cmds(ids, program)), program).attached == program_of(
            s,
            program,
        ).attached + ids,
        program_of(run(s, attach_cmds(ids, program)), program).link_issued == program_of(
            s,
            program,
        ).link_issued,
    decreases ids.len(),
{
    if ids.len() == 0 {
        assert(attach_cmds(ids, program) =~= Seq::<GlCommand>::empty());
        assert(program_of(s, program).attached + ids =~= program_of(s, program).attached);
    } else {
        assert(attach_cmds(ids, program).drop_last() =~= attach_cmds(ids.drop_last(), program));
        lemma_attach_cmds_model(s, ids.drop_last(), program);
        assert(program_of(s, program).attached + ids =~= (program_of(s, program).attached
            + ids.drop_last()).push(ids.last()));
    }
}

/// Law: running a builder's link sequence attaches every accumulated
/// stage, in the order accumulated, and issues the link on that program —
/// whatever state the binding context started in.
pub proof fn lemma_link_commands_model(s: GlState, ids: Seq<u32>, program: u32)
    ensures
        program_of(run(s, link_cmds(ids, program)), program).attached == program_of(
            s,
            program,
        ).attached + ids,
        program_of(run(s, link_cmds(ids, program)), program).link_issued,
{
    lemma_attach_cmds_model(s, ids, program);
    assert(link_cmds(ids, program).drop_last() =~= attach_cmds(ids, program));
    assert(run(s, link_cmds(ids, program)) == step(
        run(s, attach_cmds(ids, program)),
        GlCommand::LinkProgram { program },
    ));
}

} // verus!
