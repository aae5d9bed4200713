//! Building a shader program, as a state machine.
//!
//! The graphics calls themselves are made by the host. A `ProgramBuilder`
//! says which call comes next (`BuildStep`); the host makes it and reports
//! whether it succeeded; the builder then says what follows. On a failure
//! the builder lists every GPU object created so far for release, so that a
//! failed build leaves nothing allocated.
use vstd::prelude::*;
use vstd::string::*;

verus! {

/// A shader stage.
#[derive(Clone, Copy, Debug, PartialEq, Eq, Structural)]
pub enum Stage {
    Vertex,
    Fragment,
}

/// The two program variants.
#[derive(Clone, Copy, Debug, PartialEq, Eq, Structural)]
pub enum ProgramKind {
    /// Paints its quad in one colour.
    Color2D,
    /// Paints its quad with a gradient between two colours.
    Color2DGradient,
}

/// A GPU object that a build creates.
#[derive(Clone, Copy, Debug, PartialEq, Eq, Structural)]
pub enum GpuObject {
    Shader(Stage),
    Program,
    QuadBuffer,
}

/// Why a program, and so a client, could not be built.
#[derive(Debug)]
pub enum BuildError {
    /// No usable rendering context, or it refused to create an object.
    ContextUnavailable,
    ShaderCompileError { stage: Stage, log: String },
    ProgramLinkError { log: String },
    LocationNotFoundError { name: String },
}

/// Where a build stands: the call it waits on, or its end.
#[derive(Clone, Copy, Debug, PartialEq, Eq, Structural)]
pub enum Phase {
    CompileVertex,
    CompileFragment,
    Link,
    UploadQuad,
    /// Resolving the location of the attribute or uniform at this index of
    /// `location_name`.
    Locate(usize),
    Ready,
    Failed,
}

/// What the host is to do next.
#[derive(Debug)]
pub enum BuildStep {
    /// Create a shader of this stage from its source and compile it.
    Compile(Stage),
    /// Create the program, attach both shaders and link it.
    Link,
    /// Create the geometry buffer and upload the unit quad into it.
    UploadQuad,
    /// Resolve the location of `location_name(kind, i)`.
    Locate(usize),
    /// The program is complete.
    Ready,
    /// Delete each of `release`, then give up with `error`.
    Abort { release: Vec<GpuObject>, error: BuildError },
}

/// How many attribute and uniform locations a program of `kind` resolves.
pub open spec fn location_count(kind: ProgramKind) -> nat {
    match kind {
        ProgramKind::Color2D => 3,
        ProgramKind::Color2DGradient => 4,
    }
}

/// The names of the locations each variant resolves, in order.
pub open spec fn location_name_spec(kind: ProgramKind, i: int) -> Seq<char> {
    match kind {
        ProgramKind::Color2D => if i == 0 {
            "aPosition"@
        } else if i == 1 {
            "uColor"@
        } else {
            "uTransform"@
        },
        ProgramKind::Color2DGradient => if i == 0 {
            "aPosition"@
        } else if i == 1 {
            "uColorBottom"@
        } else if i == 2 {
            "uColorTop"@
        } else {
            "uTransform"@
        },
    }
}

/// The name of the `i`-th location that a program of `kind` resolves.
pub fn location_name(kind: ProgramKind, i: usize) -> (r: &'static str)
    requires
        i < location_count(kind),
    ensures
        r@ == location_name_spec(kind, i as int),
{
    match kind {
        ProgramKind::Color2D => if i == 0 {
            "aPosition"
        } else if i == 1 {
            "uColor"
        } else {
            "uTransform"
        },
        ProgramKind::Color2DGradient => if i == 0 {
            "aPosition"
        } else if i == 1 {
            "uColorBottom"
        } else if i == 2 {
            "uColorTop"
        } else {
            "uTransform"
        },
    }
}

/// Every object a build creates, in the order it creates them.
pub open spec fn all_objects() -> Seq<GpuObject> {
    seq![
        GpuObject::Shader(Stage::Vertex),
        GpuObject::Shader(Stage::Fragment),
        GpuObject::Program,
        GpuObject::QuadBuffer,
    ]
}

/// The objects that exist while the build is in `phase`, before the call it
/// waits on is made. A finished program keeps all of them; a failed build
/// keeps none.
pub open spec fn held(phase: Phase) -> Seq<GpuObject> {
    match phase {
        Phase::CompileVertex => all_objects().take(0),
        Phase::CompileFragment => all_objects().take(1),
        Phase::Link => all_objects().take(2),
        Phase::UploadQuad => all_objects().take(3),
        Phase::Locate(_) => all_objects(),
        Phase::Ready => all_objects(),
        Phase::Failed => Seq::empty(),
    }
}

/// The objects that exist once the call that `phase` waits on has been made
/// with outcome `ok`. A shader or a program exists once created, whether it
/// then compiles or links or not; a buffer that could not be created does
/// not.
pub open spec fn held_after(phase: Phase, ok: bool) -> Seq<GpuObject> {
    match phase {
        Phase::CompileVertex => all_objects().take(1),
        Phase::CompileFragment => all_objects().take(2),
        Phase::Link => all_objects().take(3),
        Phase::UploadQuad => if ok {
            all_objects()
        } else {
            all_objects().take(3)
        },
        _ => held(phase),
    }
}

pub open spec fn is_finished(phase: Phase) -> bool {
    phase is Ready || phase is Failed
}

/// The phase that follows a successful call in `phase`.
pub open spec fn next_phase(kind: ProgramKind, phase: Phase) -> Phase {
    match phase {
        Phase::CompileVertex => Phase::CompileFragment,
        Phase::CompileFragment => Phase::Link,
        Phase::Link => Phase::UploadQuad,
        Phase::UploadQuad => Phase::Locate(0),
        Phase::Locate(i) => if i + 1 < location_count(kind) {
            Phase::Locate((i + 1) as usize)
        } else {
            Phase::Ready
        },
        _ => phase,
    }
}

/// The step that the host takes in a phase that is not `Failed`.
pub open spec fn step_for(phase: Phase, s: BuildStep) -> bool {
    match phase {
        Phase::CompileVertex => s == BuildStep::Compile(Stage::Vertex),
        Phase::CompileFragment => s == BuildStep::Compile(Stage::Fragment),
        Phase::Link => s is Link,
        Phase::UploadQuad => s is UploadQuad,
        Phase::Locate(i) => s == BuildStep::Locate(i),
        Phase::Ready => s is Ready,
        Phase::Failed => false,
    }
}

/// The error that a failed call in `phase` gives, with `log` the message
/// the host reported.
pub open spec fn error_for(kind: ProgramKind, phase: Phase, log: Seq<char>, e: BuildError) -> bool {
    match phase {
        Phase::CompileVertex => e matches BuildError::ShaderCompileError { stage, log: l }
            && stage == Stage::Vertex && l@ == log,
        Phase::CompileFragment => e matches BuildError::ShaderCompileError { stage, log: l }
            && stage == Stage::Fragment && l@ == log,
        Phase::Link => e matches BuildError::ProgramLinkError { log: l } && l@ == log,
        Phase::UploadQuad => e is ContextUnavailable,
        Phase::Locate(i) => e matches BuildError::LocationNotFoundError { name }
            && name@ == location_name_spec(kind, i as int),
        _ => false,
    }
}

/// A build of one program in progress.
pub struct ProgramBuilder {
    pub kind: ProgramKind,
    pub phase: Phase,
}

impl ProgramBuilder {
    pub open spec fn wf(self) -> bool {
        self.phase matches Phase::Locate(i) ==> i < location_count(self.kind)
    }

    /// A build of a program of `kind`, about to compile its vertex shader.
    pub fn new(kind: ProgramKind) -> (r: ProgramBuilder)
        ensures
            r.kind == kind,
            r.phase == Phase::CompileVertex,
            r.wf(),
            held(r.phase).len() == 0,
    {
        ProgramBuilder { kind, phase: Phase::CompileVertex }
    }

    /// Whether the build has ended, in success or failure.
    pub fn is_done(&self) -> (r: bool)
        ensures
            r == is_finished(self.phase),
    {
        match self.phase {
            Phase::Ready | Phase::Failed => true,
            _ => false,
        }
    }

    /// The step the host is to take now.
    pub fn pending(&self) -> (r: BuildStep)
        requires
            !(self.phase is Failed),
        ensures
            step_for(self.phase, r),
    {
        match self.phase {
            Phase::CompileVertex => BuildStep::Compile(Stage::Vertex),
            Phase::CompileFragment => BuildStep::Compile(Stage::Fragment),
            Phase::Link => BuildStep::Link,
            Phase::UploadQuad => BuildStep::UploadQuad,
            Phase::Locate(i) => BuildStep::Locate(i),
            _ => BuildStep::Ready,
        }
    }

    /// Takes the outcome of the pending step (`ok`, and the message the
    /// host got on a failure) and says what the host is to do next.
    ///
    /// On success the build moves on. On failure it ends: every object that
    /// exists at that point is handed back for release, with the error.
    pub fn advance(&mut self, ok: bool, log: String) -> (r: BuildStep)
        requires
            old(self).wf(),
            !is_finished(old(self).phase),
        ensures
            final(self).wf(),
            final(self).kind == old(self).kind,
            ok ==> final(self).phase == next_phase(old(self).kind, old(self).phase),
            ok ==> held(final(self).phase) == held_after(old(self).phase, true),
            ok ==> step_for(final(self).phase, r),
            !ok ==> final(self).phase == Phase::Failed,
            !ok ==> (r matches BuildStep::Abort { release, error }
                && release@ == held_after(old(self).phase, false)
                && error_for(old(self).kind, old(self).phase, log@, error)),
    {
        let phase = self.phase;
        if ok {
            let next = match phase {
                Phase::CompileVertex => Phase::CompileFragment,
                Phase::CompileFragment => Phase::Link,
                Phase::Link => Phase::UploadQuad,
                Phase::UploadQuad => Phase::Locate(0),
                Phase::Locate(i) => {
                    let count: usize = match self.kind {
                        ProgramKind::Color2D => 3,
                        ProgramKind::Color2DGradient => 4,
                    };
                    if i + 1 < count {
                        Phase::Locate(i + 1)
                    } else {
                        Phase::Ready
                    }
                },
                _ => phase,
            };
            self.phase = next;
            proof {
                assert(all_objects().take(4) =~= all_objects());
            }
            self.pending()
        } else {
            let mut release: Vec<GpuObject> = Vec::new();
            release.push(GpuObject::Shader(Stage::Vertex));
            let error = match phase {
                Phase::CompileVertex => BuildError::ShaderCompileError { stage: Stage::Vertex, log },
                Phase::CompileFragment => {
                    release.push(GpuObject::Shader(Stage::Fragment));
                    BuildError::ShaderCompileError { stage: Stage::Fragment, log }
                },
                Phase::Link => {
                    release.push(GpuObject::Shader(Stage::Fragment));
                    release.push(GpuObject::Program);
                    BuildError::ProgramLinkError { log }
                },
                Phase::UploadQuad => {
                    release.push(GpuObject::Shader(Stage::Fragment));
                    release.push(GpuObject::Program);
                    BuildError::ContextUnavailable
                },
                _ => {
                    release.push(GpuObject::Shader(Stage::Fragment));
                    release.push(GpuObject::Program);
                    release.push(GpuObject::QuadBuffer);
                    let i = match phase {
                        Phase::Locate(i) => i,
                        _ => 0,
                    };
                    BuildError::LocationNotFoundError {
                        name: String::from_str(location_name(self.kind, i)),
                    }
                },
            };
            assert(release@ =~= held_after(phase, false));
            self.phase = Phase::Failed;
            BuildStep::Abort { release, error }
        }
    }
}

/// A failed step releases everything the build held before it, and the
/// build then holds nothing: no failure, at any point, leaks an object.
pub proof fn lemma_failure_releases_all(phase: Phase)
    requires
        !is_finished(phase),
    ensures
        held(phase).is_prefix_of(held_after(phase, false)),
        held(Phase::Failed).len() == 0,
{
    assert(all_objects().take(4) =~= all_objects());
}

} // verus!
