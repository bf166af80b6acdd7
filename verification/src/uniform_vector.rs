//! Typed uniform dispatch: resolve once which upload entry point a value
//! array's shape needs, then issue it any number of times.
//!
//! The API batches its uniform uploads by scalar family × component count,
//! twelve entry points in all. A binding is constructed from a uniform
//! location, a program, and the caller-declared element type of the value
//! array; classification against the closed shape set happens once, at
//! construction, and an unrecognized shape yields no binding at all — so
//! an upload can never be issued with an unresolved shape. A missed name
//! lookup is not a failure: the negative sentinel location makes the
//! upload a no-op, proved against the binding model below.

use vstd::prelude::*;

use crate::commands::{GlCommand, ScalarKind};
use crate::model::{lemma_run_one, lemma_run_two, run, step, GlState, UniformWrite};
use crate::shader_program::ShaderProgram;

verus! {

/// The scalar families a caller can declare for a value array's elements.
#[derive(Clone, Copy, Debug, PartialEq, Eq, Structural)]
pub enum ElementScalar {
    Float,
    Double,
    Int,
    UnsignedInt,
    Bool,
}

/// The caller-declared element type of a value array: a scalar family and
/// a lane count. Lane counts are open-ended; only one through four are
/// recognized shapes.
#[derive(Clone, Copy, Debug, PartialEq, Eq, Structural)]
pub struct ElementType {
    pub scalar: ElementScalar,
    pub lanes: usize,
}

/// The closed classification: the twelve recognized shapes are the three
/// uploadable scalar families at one through four lanes; everything else
/// is rejected.
pub open spec fn classify(element: ElementType) -> Option<(ScalarKind, usize)> {
    if 1 <= element.lanes <= 4 {
        match element.scalar {
            ElementScalar::Float => Some((ScalarKind::Float, element.lanes)),
            ElementScalar::Int => Some((ScalarKind::Int, element.lanes)),
            ElementScalar::UnsignedInt => Some((ScalarKind::UnsignedInt, element.lanes)),
            ElementScalar::Double => None,
            ElementScalar::Bool => None,
        }
    } else {
        None
    }
}

/// The position of a resolved shape's upload entry point in the API's
/// 3 × 4 table of typed upload functions.
pub open spec fn setter_index(kind: ScalarKind, components: usize) -> int {
    (match kind {
        ScalarKind::Float => 0int,
        ScalarKind::Int => 1int,
        ScalarKind::UnsignedInt => 2int,
    }) * 4 + (components - 1)
}

/// The entry point a declared element type resolves to, or -1 where the
/// shape is rejected.
pub open spec fn entry_of(element: ElementType) -> int {
    match classify(element) {
        Some((kind, components)) => setter_index(kind, components),
        None => -1,
    }
}

/// Law: each of the twelve recognized shapes resolves to its own,
/// deterministic upload entry point — distinct recognized shapes never
/// share one, and every resolved entry point lies in the table.
pub proof fn lemma_entry_point_injective(a: ElementType, b: ElementType)
    requires
        classify(a) is Some,
        classify(b) is Some,
        entry_of(a) == entry_of(b),
    ensures
        a == b,
        0 <= entry_of(a) < 12,
{
}

/// A resolved uniform binding: the owning program, the resolved location,
/// the value words, and the shape tag fixed at construction.
pub struct UniformVector {
    pub program: u32,
    pub location: i32,
    /// The value array, flattened to raw scalar words: `components` words
    /// per value.
    pub uniforms: Vec<u32>,
    pub kind: ScalarKind,
    pub components: usize,
}

impl UniformVector {
    /// What construction guarantees: a recognized shape, whole values, and
    /// a value count the API's signed count argument can carry.
    pub open spec fn wf(self) -> bool {
        &&& 1 <= self.components <= 4
        &&& self.uniforms@.len() as int % (self.components as int) == 0
        &&& self.uniforms@.len() <= i32::MAX
    }

    /// The one upload command a resolved binding issues: its entry point
    /// is the resolved shape's, and it carries the whole value array.
    pub open spec fn set_cmd(self, c: GlCommand) -> bool {
        &&& c matches GlCommand::ProgramUniform { kind, components, program, location, count, data }
        &&& c->ProgramUniform_kind == self.kind
        &&& c->ProgramUniform_components == self.components as u32
        &&& c->ProgramUniform_program == self.program
        &&& c->ProgramUniform_location == self.location
        &&& c->ProgramUniform_count as int == self.uniforms@.len() as int / (
        self.components as int)
        &&& c->ProgramUniform_data@ == self.uniforms@
    }

    /// The executable twin of [`classify`]: match the declared element
    /// type against the closed set of recognized shapes.
    pub fn kind_components(element: ElementType) -> (r: Option<(ScalarKind, usize)>)
        ensures
            r == classify(element),
    {
        if 1 <= element.lanes && element.lanes <= 4 {
            match element.scalar {
                ElementScalar::Float => Some((ScalarKind::Float, element.lanes)),
                ElementScalar::Int => Some((ScalarKind::Int, element.lanes)),
                ElementScalar::UnsignedInt => Some((ScalarKind::UnsignedInt, element.lanes)),
                ElementScalar::Double => None,
                ElementScalar::Bool => None,
            }
        } else {
            None
        }
    }

    /// Resolve a binding: succeeds for exactly the recognized shapes,
    /// whatever the location — a missed name lookup (the negative
    /// sentinel) is not a failure. An unrecognized shape yields no
    /// binding, so nothing can ever be uploaded under it.
    pub fn new(location: i32, shader: &ShaderProgram, uniforms: Vec<u32>, element: ElementType) -> (r:
        Option<UniformVector>)
        requires
            element.lanes >= 1 ==> uniforms@.len() as int % (element.lanes as int) == 0,
            uniforms@.len() <= i32::MAX,
        ensures
            r is Some <==> classify(element) is Some,
            r matches Some(u) ==> {
                &&& u.program == shader.id
                &&& u.location == location
                &&& u.uniforms@ == uniforms@
                &&& classify(element) == Some((u.kind, u.components))
                &&& u.wf()
            },
    {
        match Self::kind_components(element) {
            Some((kind, components)) => Some(
                UniformVector { program: shader.id, location, uniforms, kind, components },
            ),
            None => None,
        }
    }

    /// Issue the upload resolved at construction: the entry point fixed by
    /// the shape tag, the resolved location, the value count, and the
    /// value words. Pure with respect to the binding, so repeated calls
    /// issue the identical command.
    pub fn set(&self) -> (c: GlCommand)
        requires
            self.wf(),
        ensures
            self.set_cmd(c),
    {
        let count: usize = self.uniforms.len() / self.components;
        let mut data: Vec<u32> = Vec::new();
        let mut i: usize = 0;
        while i < self.uniforms.len()
            invariant
                i <= self.uniforms.len(),
                data@ == self.uniforms@.subrange(0, i as int),
            decreases self.uniforms.len() - i,
        {
            data.push(self.uniforms[i]);
            i = i + 1;
        }
        proof {
            assert(data@ =~= self.uniforms@);
        }
        GlCommand::ProgramUniform {
            kind: self.kind,
            components: self.components as u32,
            program: self.program,
            location: self.location,
            count,
            data,
        }
    }
}

/// Law: uploading a resolved binding twice with the same values leaves
/// the uniform state exactly as a single upload — last write wins, and a
/// repeated write of the same record changes nothing.
pub proof fn lemma_set_idempotent(s: GlState, u: UniformVector, c1: GlCommand, c2: GlCommand)
    requires
        u.set_cmd(c1),
        u.set_cmd(c2),
    ensures
        run(s, seq![c1, c2]) == run(s, seq![c1]),
{
    lemma_run_two(s, c1, c2);
    lemma_run_one(s, c1);
    if u.location >= 0 {
        let k = (u.program, u.location);
        let w = UniformWrite {
            kind: u.kind,
            components: u.components as u32,
            count: u.uniforms@.len() as int / (u.components as int),
            data: u.uniforms@,
        };
        assert(step(s, c1).uniforms =~= s.uniforms.insert(k, w));
        assert(step(step(s, c1), c2).uniforms =~= s.uniforms.insert(k, w));
        assert(step(step(s, c1), c2) == step(s, c1));
    }
}

/// Law: a name-resolution miss is non-fatal all the way down — an upload
/// against the "not found" sentinel location is a no-op on the binding
/// context, not a crash and not a write.
pub proof fn lemma_missing_location_noop(s: GlState, u: UniformVector, c: GlCommand)
    requires
        u.set_cmd(c),
        u.location < 0,
    ensures
        run(s, seq![c]) == s,
{
    lemma_run_one(s, c);
}

} // verus!
