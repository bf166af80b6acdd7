//! One compiled shader stage, and the diagnostic log of a failed compile
//! or link.
//!
//! Compilation itself happens in the graphics driver; the front end performs
//! it and reports the object name, the status bit and the diagnostic text.
//! The decision lives here: a `Shader` value is produced exactly when the
//! status reported success, so holding a `Shader` is proof that its stage
//! compiled. A failed compile never exposes its transient handle.

use vstd::prelude::*;

verus! {

/// The two shader stages a program is linked from.
#[derive(Clone, Copy, Debug, PartialEq, Eq, Structural)]
pub enum ShaderStage {
    Vertex,
    Fragment,
}

/// Human-readable text retrieved from the API after a failed compile or
/// link, before the failing object is discarded.
#[derive(Clone, Debug, PartialEq, Eq)]
pub struct InfoLog {
    pub text: String,
}

impl InfoLog {
    /// Wrap the diagnostic text the API reported.
    pub fn new(text: String) -> (l: InfoLog)
        ensures
            l.text@ == text@,
    {
        InfoLog { text }
    }
}

/// The two failure kinds of resource construction. Both are terminal for
/// the attempted object and carry the diagnostic log.
#[derive(Clone, Debug, PartialEq, Eq)]
pub enum GlError {
    /// One shader stage failed to compile.
    CompileFailure(InfoLog),
    /// A program failed to link its attached stages.
    LinkFailure(InfoLog),
}

impl GlError {
    /// The diagnostic text the failure carries.
    pub fn log(&self) -> (l: &InfoLog)
        ensures
            self matches GlError::CompileFailure(m) ==> l == m,
            self matches GlError::LinkFailure(m) ==> l == m,
    {
        match self {
            GlError::CompileFailure(m) => m,
            GlError::LinkFailure(m) => m,
        }
    }
}

/// A successfully compiled shader stage. Values of this type exist only
/// for compiles whose status reported success: the constructors below are
/// the sole way to obtain one.
#[derive(Debug)]
pub struct Shader {
    id: u32,
    stage: ShaderStage,
}

impl Shader {
    /// The native object name of the compiled stage.
    pub closed spec fn id_spec(&self) -> u32 {
        self.id
    }

    /// Which stage this shader is.
    pub closed spec fn stage_spec(&self) -> ShaderStage {
        self.stage
    }

    /// The native object name, for attaching and for the front end.
    pub fn id(&self) -> (i: u32)
        ensures
            i == self.id_spec(),
    {
        self.id
    }

    /// Decide the outcome the API reported for compiling stage `stage` into
    /// object `id`: expose the handle exactly on success, and on failure
    /// surface the diagnostic text instead of the handle.
    fn finish(stage: ShaderStage, id: u32, status: bool, log: String) -> (r: Result<
        Shader,
        GlError,
    >)
        ensures
            status <==> r is Ok,
            r matches Ok(sh) ==> sh.id_spec() == id && sh.stage_spec() == stage,
            r matches Err(e) ==> (e matches GlError::CompileFailure(l) && l.text@ == log@),
    {
        if status {
            Ok(Shader { id, stage })
        } else {
            Err(GlError::CompileFailure(InfoLog { text: log }))
        }
    }

    /// Outcome of compiling a vertex stage: a handle exactly when `status`
    /// reported success, else a `CompileFailure` carrying `log`.
    pub fn vert(id: u32, status: bool, log: String) -> (r: Result<Shader, GlError>)
        ensures
            status <==> r is Ok,
            r matches Ok(sh) ==> sh.id_spec() == id && sh.stage_spec() == ShaderStage::Vertex,
            r matches Err(e) ==> (e matches GlError::CompileFailure(l) && l.text@ == log@),
    {
        Self::finish(ShaderStage::Vertex, id, status, log)
    }

    /// Outcome of compiling a fragment stage: a handle exactly when
    /// `status` reported success, else a `CompileFailure` carrying `log`.
    pub fn frag(id: u32, status: bool, log: String) -> (r: Result<Shader, GlError>)
        ensures
            status <==> r is Ok,
            r matches Ok(sh) ==> sh.id_spec() == id && sh.stage_spec() == ShaderStage::Fragment,
            r matches Err(e) ==> (e matches GlError::CompileFailure(l) && l.text@ == log@),
    {
        Self::finish(ShaderStage::Fragment, id, status, log)
    }
}

} // verus!
