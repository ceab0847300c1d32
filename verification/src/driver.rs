//! Vocabulary shared by every resumable computation of the library: what is
//! asked of the collaborators, what they answer, and a step of progress.

use vstd::prelude::*;

use crate::engine::Event;
use crate::renderer::GlError;

verus! {

/// Bit of the driver's clear mask that selects the color buffer.
pub const COLOR_BUFFER_BIT: u32 = 0x4000;

/// Pipeline stage that a shader object is compiled for.
#[derive(Clone, Copy, Debug, PartialEq, Eq, Structural)]
pub enum Stage {
    Vertex,
    Fragment,
}

impl Stage {
    /// The driver's numeric name of the stage.
    pub open spec fn code(self) -> u32 {
        match self {
            Stage::Vertex => 0x8B31,
            Stage::Fragment => 0x8B30,
        }
    }

    /// The driver's numeric name of the stage.
    pub fn gl_enum(self) -> (code: u32)
        ensures
            code == self.code(),
    {
        match self {
            Stage::Vertex => 0x8B31,
            Stage::Fragment => 0x8B30,
        }
    }
}

/// What the driver can be asked about a shader or program object.
#[derive(Clone, Copy, Debug, PartialEq, Eq, Structural)]
pub enum Parameter {
    CompileStatus,
    LinkStatus,
    InfoLogLength,
}

impl Parameter {
    /// The driver's numeric name of the parameter.
    pub open spec fn code(self) -> u32 {
        match self {
            Parameter::CompileStatus => 0x8B81,
            Parameter::LinkStatus => 0x8B82,
            Parameter::InfoLogLength => 0x8B84,
        }
    }

    /// The driver's numeric name of the parameter.
    pub fn gl_enum(self) -> (code: u32)
        ensures
            code == self.code(),
    {
        match self {
            Parameter::CompileStatus => 0x8B81,
            Parameter::LinkStatus => 0x8B82,
            Parameter::InfoLogLength => 0x8B84,
        }
    }
}

/// The shape of an answer, without its content.
#[derive(Clone, Copy, Debug, PartialEq, Eq, Structural)]
pub enum ReplyKind {
    Done,
    Handle,
    Value,
    Log,
    Source,
    ErrorFlag,
    Events,
}

/// One operation asked of a collaborator: the event source, the
/// presentation surface, the asset loader, the graphics driver or the log.
#[derive(Debug, PartialEq, Eq)]
pub enum Request {
    /// Hand over the events that have come in since the last poll.
    PollEvents,
    /// Make the surface's drawing context current.
    MakeCurrent,
    /// Fill the driver's function table through the surface.
    LoadFunctions,
    /// Present the back buffer.
    SwapBuffers,
    /// Fetch the text of the named shader source.
    LoadSource(&'static str),
    /// Set the clear color; each channel runs from 0 to 255 (full).
    ClearColor { red: u8, green: u8, blue: u8, alpha: u8 },
    /// Clear the buffers that the mask selects.
    Clear(u32),
    /// Read and reset the driver's error flag.
    GetError,
    CreateShader(Stage),
    ShaderSource { shader: u32, source: String },
    CompileShader(u32),
    GetShaderiv { shader: u32, parameter: Parameter },
    GetShaderInfoLog { shader: u32, capacity: u32 },
    DeleteShader(u32),
    CreateProgram,
    AttachShader { program: u32, shader: u32 },
    LinkProgram(u32),
    GetProgramiv { program: u32, parameter: Parameter },
    GetProgramInfoLog { program: u32, capacity: u32 },
    DeleteProgram(u32),
    UseProgram(u32),
    /// Write a driver error to the log, at error severity.
    Report(GlError),
}

/// What a collaborator answers to a request.
#[derive(Debug, PartialEq, Eq)]
pub enum Reply {
    /// The operation ran; it has no result.
    Done,
    /// Name of a freshly made driver object.
    Handle(u32),
    /// Value of a queried parameter.
    Value(i32),
    /// Diagnostic log of a shader or program object: the buffer as the
    /// driver filled it.
    Log(Vec<u8>),
    /// Text of a shader source.
    Source(String),
    /// The driver's error flag as it stood before the reading reset it.
    ErrorFlag(u32),
    /// The events that have come in, oldest first.
    Events(Vec<Event>),
}

impl Request {
    /// The shape of the answer that the request calls for.
    pub open spec fn answer(self) -> ReplyKind {
        match self {
            Request::CreateShader(_) | Request::CreateProgram => ReplyKind::Handle,
            Request::GetShaderiv { .. } | Request::GetProgramiv { .. } => ReplyKind::Value,
            Request::GetShaderInfoLog { .. } | Request::GetProgramInfoLog { .. } => ReplyKind::Log,
            Request::LoadSource(_) => ReplyKind::Source,
            Request::GetError => ReplyKind::ErrorFlag,
            Request::PollEvents => ReplyKind::Events,
            _ => ReplyKind::Done,
        }
    }

    /// The shape of the answer that the request calls for.
    pub fn reply_kind(&self) -> (kind: ReplyKind)
        ensures
            kind == self.answer(),
    {
        match self {
            Request::CreateShader(_) | Request::CreateProgram => ReplyKind::Handle,
            Request::GetShaderiv { .. } | Request::GetProgramiv { .. } => ReplyKind::Value,
            Request::GetShaderInfoLog { .. } | Request::GetProgramInfoLog { .. } => ReplyKind::Log,
            Request::LoadSource(_) => ReplyKind::Source,
            Request::GetError => ReplyKind::ErrorFlag,
            Request::PollEvents => ReplyKind::Events,
            _ => ReplyKind::Done,
        }
    }
}

impl Reply {
    /// The shape of the answer.
    pub open spec fn shape(self) -> ReplyKind {
        match self {
            Reply::Done => ReplyKind::Done,
            Reply::Handle(_) => ReplyKind::Handle,
            Reply::Value(_) => ReplyKind::Value,
            Reply::Log(_) => ReplyKind::Log,
            Reply::Source(_) => ReplyKind::Source,
            Reply::ErrorFlag(_) => ReplyKind::ErrorFlag,
            Reply::Events(_) => ReplyKind::Events,
        }
    }

    /// The shape of the answer.
    pub fn kind(&self) -> (kind: ReplyKind)
        ensures
            kind == self.shape(),
    {
        match self {
            Reply::Done => ReplyKind::Done,
            Reply::Handle(_) => ReplyKind::Handle,
            Reply::Value(_) => ReplyKind::Value,
            Reply::Log(_) => ReplyKind::Log,
            Reply::Source(_) => ReplyKind::Source,
            Reply::ErrorFlag(_) => ReplyKind::ErrorFlag,
            Reply::Events(_) => ReplyKind::Events,
        }
    }
}

/// Progress of a resumable computation: it either waits for the answer to
/// its pending request, or has finished with a result.
#[derive(Debug, PartialEq, Eq)]
pub enum Step<S, T> {
    Pending(S),
    Done(T),
}

/// A computation that is suspended while a collaborator does its part.
///
/// The caller performs [`Resumable::pending`] and hands the answer to
/// [`Resumable::resume`], until the computation reports [`Step::Done`]. An
/// answer whose shape is not the one that the pending request calls for is
/// ignored: the computation stays where it is.
pub trait Resumable: Sized {
    /// What the computation yields when it finishes.
    type Output;

    /// The request that the computation waits on.
    spec fn request(&self) -> Request;

    /// Where the computation stands after an answer.
    spec fn next(self, reply: Reply) -> Step<Self, Self::Output>;

    /// The request that the computation waits on.
    fn pending(&self) -> (request: Request)
        ensures
            request == self.request(),
    ;

    /// Takes the answer to the pending request and moves on.
    fn resume(self, reply: Reply) -> (step: Step<Self, Self::Output>)
        ensures
            step == self.next(reply),
    ;

    /// An answer of another shape than the pending request calls for
    /// leaves the computation where it is.
    proof fn ignores_other_shapes(self, reply: Reply)
        requires
            reply.shape() != self.request().answer(),
        ensures
            self.next(reply) == Step::<Self, Self::Output>::Pending(self),
    ;
}

/// The requests issued, in order, and the point reached when a computation
/// that stands at `step` is given `replies[at..]` one by one; `issued` holds
/// the requests that came before. The pending request of a computation that
/// runs out of replies counts as issued.
pub open spec fn run_from<M: Resumable>(
    step: Step<M, M::Output>,
    replies: Seq<Reply>,
    at: int,
    issued: Seq<Request>,
) -> (Seq<Request>, Step<M, M::Output>)
    decreases replies.len() - at,
{
    match step {
        Step::Done(_) => (issued, step),
        Step::Pending(state) => {
            if 0 <= at < replies.len() {
                run_from(state.next(replies[at]), replies, at + 1, issued.push(state.request()))
            } else {
                (issued.push(state.request()), step)
            }
        },
    }
}

/// The requests that a computation issues from `start` on, and the point it
/// reaches, when its collaborators answer with `replies`.
pub open spec fn run<M: Resumable>(start: M, replies: Seq<Reply>) -> (
    Seq<Request>,
    Step<M, M::Output>,
) {
    run_from(Step::Pending(start), replies, 0, Seq::empty())
}

} // verus!
