//! The driver's error flag, and the renderer's life cycle.

use vstd::prelude::*;

pub mod shader;

use crate::driver::{
    run, run_from, Parameter, Reply, Request, Resumable, Stage, Step, COLOR_BUFFER_BIT,
};
use crate::renderer::shader::{
    log_capacity, log_text, Program, ProgramBuild, ProgramCreationError, FRAGMENT_SOURCE,
    VERTEX_SOURCE,
};
use crate::time::Span;

verus! {

/// An error that the driver's flag can hold. "No error" is not among them.
#[derive(Clone, Copy, Debug, PartialEq, Eq, Structural)]
pub enum GlError {
    InvalidEnum,
    InvalidValue,
    InvalidOperation,
    InvalidFramebufferOperation,
    OutOfMemory,
    StackUnderflow,
    StackOverflow,
    ContextLost,
    TableTooLarge,
}

/// The error that a value of the driver's flag stands for; `None` for the
/// no-error value and for every value outside the driver's table.
pub open spec fn flag_error(flag: u32) -> Option<GlError> {
    if flag == 0x0500 {
        Some(GlError::InvalidEnum)
    } else if flag == 0x0501 {
        Some(GlError::InvalidValue)
    } else if flag == 0x0502 {
        Some(GlError::InvalidOperation)
    } else if flag == 0x0503 {
        Some(GlError::StackOverflow)
    } else if flag == 0x0504 {
        Some(GlError::StackUnderflow)
    } else if flag == 0x0505 {
        Some(GlError::OutOfMemory)
    } else if flag == 0x0506 {
        Some(GlError::InvalidFramebufferOperation)
    } else if flag == 0x0507 {
        Some(GlError::ContextLost)
    } else if flag == 0x8031 {
        Some(GlError::TableTooLarge)
    } else {
        None
    }
}

/// Reads one value of the driver's error flag: `Err` with the error it
/// stands for, `Ok` where it stands for none.
pub fn get_gl_error(flag: u32) -> (result: Result<(), GlError>)
    ensures
        match flag_error(flag) {
            Some(error) => result == Err::<(), GlError>(error),
            None => result == Ok::<(), GlError>(()),
        },
{
    match flag {
        0x0500u32 => Err(GlError::InvalidEnum),
        0x0501u32 => Err(GlError::InvalidValue),
        0x0502u32 => Err(GlError::InvalidOperation),
        0x0503u32 => Err(GlError::StackOverflow),
        0x0504u32 => Err(GlError::StackUnderflow),
        0x0505u32 => Err(GlError::OutOfMemory),
        0x0506u32 => Err(GlError::InvalidFramebufferOperation),
        0x0507u32 => Err(GlError::ContextLost),
        0x8031u32 => Err(GlError::TableTooLarge),
        _ => Ok(()),
    }
}

/// Why no renderer came to be.
#[derive(Debug, PartialEq, Eq)]
pub enum RendererCreationError {
    ProgramCreationError(ProgramCreationError),
}

impl From<ProgramCreationError> for RendererCreationError {
    fn from(from: ProgramCreationError) -> (error: RendererCreationError) {
        RendererCreationError::ProgramCreationError(from)
    }
}

impl vstd::std_specs::convert::FromSpecImpl<ProgramCreationError> for RendererCreationError {
    open spec fn obeys_from_spec() -> bool {
        true
    }

    open spec fn from_spec(from: ProgramCreationError) -> RendererCreationError {
        RendererCreationError::ProgramCreationError(from)
    }
}

/// The renderer in its ready state: the driver's context is current, the
/// clear color is set, and the program it owns is the one in use.
#[derive(Debug, PartialEq, Eq)]
pub struct Renderer {
    program: Program,
}

impl Renderer {
    /// The renderer that owns `program`.
    pub closed spec fn of(program: Program) -> Renderer {
        Renderer { program }
    }

    /// The program that the renderer owns.
    pub closed spec fn program(self) -> Program {
        self.program
    }

    /// A renderer is the program it owns, and nothing else.
    pub broadcast proof fn of_program(program: Program)
        ensures
            #[trigger] Renderer::of(program).program() == program,
    {
    }

    /// Starts setting a renderer up.
    pub fn new() -> (setup: RendererSetup)
        ensures
            setup == RendererSetup::MakingCurrent,
    {
        RendererSetup::MakingCurrent
    }

    /// Starts a frame. The frame is the same whatever `delta_time` is, and
    /// the renderer stays as it is.
    pub fn render(&mut self, delta_time: Span) -> (frame: Frame)
        ensures
            frame == Frame::Clearing,
            *final(self) == *old(self),
    {
        Frame::Clearing
    }

    /// Gives the renderer up: the request that deletes its program.
    pub fn release(self) -> (request: Request)
        ensures
            request == Request::DeleteProgram(self.program().id()),
    {
        self.program.release()
    }
}

/// A renderer on its way to the ready state. Each state names the request
/// that it waits on.
#[derive(Debug, PartialEq, Eq)]
pub enum RendererSetup {
    /// Waits on `MakeCurrent`.
    MakingCurrent,
    /// Waits on `LoadFunctions`.
    LoadingFunctions,
    /// Waits on `ClearColor`.
    SettingClearColor,
    /// The program is being built.
    Building { build: ProgramBuild },
    /// Waits on `UseProgram`.
    Binding { program: Program },
}

impl Resumable for RendererSetup {
    type Output = Result<Renderer, RendererCreationError>;

    open spec fn request(&self) -> Request {
        match *self {
            RendererSetup::MakingCurrent => Request::MakeCurrent,
            RendererSetup::LoadingFunctions => Request::LoadFunctions,
            RendererSetup::SettingClearColor => Request::ClearColor {
                red: 255,
                green: 0,
                blue: 0,
                alpha: 255,
            },
            RendererSetup::Building { build } => build.request(),
            RendererSetup::Binding { program } => Request::UseProgram(program.id()),
        }
    }

    open spec fn next(self, reply: Reply) -> Step<Self, Self::Output> {
        match self {
            RendererSetup::MakingCurrent => match reply {
                Reply::Done => Step::Pending(RendererSetup::LoadingFunctions),
                _ => Step::Pending(self),
            },
            RendererSetup::LoadingFunctions => match reply {
                Reply::Done => Step::Pending(RendererSetup::SettingClearColor),
                _ => Step::Pending(self),
            },
            RendererSetup::SettingClearColor => match reply {
                Reply::Done => Step::Pending(
                    RendererSetup::Building { build: ProgramBuild::LoadingVertex },
                ),
                _ => Step::Pending(self),
            },
            RendererSetup::Building { build } => match build.next(reply) {
                Step::Pending(build) => Step::Pending(RendererSetup::Building { build }),
                Step::Done(Ok(program)) => Step::Pending(RendererSetup::Binding { program }),
                Step::Done(Err(error)) => Step::Done(
                    Err(RendererCreationError::ProgramCreationError(error)),
                ),
            },
            RendererSetup::Binding { program } => match reply {
                Reply::Done => Step::Done(Ok(Renderer::of(program))),
                _ => Step::Pending(self),
            },
        }
    }

    fn pending(&self) -> (request: Request) {
        match self {
            RendererSetup::MakingCurrent => Request::MakeCurrent,
            RendererSetup::LoadingFunctions => Request::LoadFunctions,
            RendererSetup::SettingClearColor => Request::ClearColor {
                red: 255,
                green: 0,
                blue: 0,
                alpha: 255,
            },
            RendererSetup::Building { build } => build.pending(),
            RendererSetup::Binding { program } => Request::UseProgram(program.handle()),
        }
    }

    fn resume(self, reply: Reply) -> (step: Step<Self, Self::Output>) {
        match self {
            RendererSetup::MakingCurrent => match reply {
                Reply::Done => Step::Pending(RendererSetup::LoadingFunctions),
                _ => Step::Pending(RendererSetup::MakingCurrent),
            },
            RendererSetup::LoadingFunctions => match reply {
                Reply::Done => Step::Pending(RendererSetup::SettingClearColor),
                _ => Step::Pending(RendererSetup::LoadingFunctions),
            },
            RendererSetup::SettingClearColor => match reply {
                Reply::Done => Step::Pending(RendererSetup::Building { build: Program::new() }),
                _ => Step::Pending(RendererSetup::SettingClearColor),
            },
            RendererSetup::Building { build } => match build.resume(reply) {
                Step::Pending(build) => Step::Pending(RendererSetup::Building { build }),
                Step::Done(Ok(program)) => Step::Pending(RendererSetup::Binding { program }),
                Step::Done(Err(error)) => Step::Done(Err(RendererCreationError::from(error))),
            },
            RendererSetup::Binding { program } => match reply {
                Reply::Done => Step::Done(Ok(Renderer { program })),
                _ => Step::Pending(RendererSetup::Binding { program }),
            },
        }
    }

    proof fn ignores_other_shapes(self, reply: Reply) {
        match self {
            RendererSetup::Building { build } => build.ignores_other_shapes(reply),
            _ => {},
        }
    }
}

/// One frame on its way to the screen. Each state names the request that it
/// waits on.
///
/// The frame clears the color buffer, presents, and then reads the driver's
/// error flag until it stands for no error, reporting each error it finds.
#[derive(Clone, Copy, Debug, PartialEq, Eq, Structural)]
pub enum Frame {
    /// Waits on `Clear`.
    Clearing,
    /// Waits on `SwapBuffers`.
    Presenting,
    /// Waits on the error flag.
    Polling,
    /// Waits on `Report`.
    Reporting { error: GlError },
}

impl Resumable for Frame {
    type Output = ();

    open spec fn request(&self) -> Request {
        match *self {
            Frame::Clearing => Request::Clear(COLOR_BUFFER_BIT),
            Frame::Presenting => Request::SwapBuffers,
            Frame::Polling => Request::GetError,
            Frame::Reporting { error } => Request::Report(error),
        }
    }

    open spec fn next(self, reply: Reply) -> Step<Self, Self::Output> {
        match (self, reply) {
            (Frame::Clearing, Reply::Done) => Step::Pending(Frame::Presenting),
            (Frame::Presenting, Reply::Done) => Step::Pending(Frame::Polling),
            (Frame::Polling, Reply::ErrorFlag(flag)) => match flag_error(flag) {
                Some(error) => Step::Pending(Frame::Reporting { error }),
                None => Step::Done(()),
            },
            (Frame::Reporting { error }, Reply::Done) => Step::Pending(Frame::Polling),
            (state, _) => Step::Pending(state),
        }
    }

    fn pending(&self) -> (request: Request) {
        match self {
            Frame::Clearing => Request::Clear(COLOR_BUFFER_BIT),
            Frame::Presenting => Request::SwapBuffers,
            Frame::Polling => Request::GetError,
            Frame::Reporting { error } => Request::Report(*error),
        }
    }

    fn resume(self, reply: Reply) -> (step: Step<Self, Self::Output>) {
        match (self, reply) {
            (Frame::Clearing, Reply::Done) => Step::Pending(Frame::Presenting),
            (Frame::Presenting, Reply::Done) => Step::Pending(Frame::Polling),
            (Frame::Polling, Reply::ErrorFlag(flag)) => match get_gl_error(flag) {
                Err(error) => Step::Pending(Frame::Reporting { error }),
                Ok(()) => Step::Done(()),
            },
            (Frame::Reporting { error }, Reply::Done) => Step::Pending(Frame::Polling),
            (state, _) => Step::Pending(state),
        }
    }

    proof fn ignores_other_shapes(self, reply: Reply) {
    }
}

/// The answers that a frame gets when the driver's error flag reads
/// `flags`, one value after the other, and then `last`: two for the clear
/// and the present, then each flag, followed by the answer to its report
/// where it is one of `flags`.
pub open spec fn frame_replies(flags: Seq<u32>, last: u32) -> Seq<Reply> {
    Seq::new(
        2 * flags.len() + 3,
        |i: int|
            if i < 2 || i % 2 == 1 {
                Reply::Done
            } else if i == 2 * flags.len() + 2 {
                Reply::ErrorFlag(last)
            } else {
                Reply::ErrorFlag(flags[(i - 2) / 2])
            },
    )
}

/// The requests of a frame in which the driver's error flag reads `flags`
/// before it reads no error: one clear, one present, and then a reading of
/// the flag before and after the report of each error, in the order in
/// which the flag showed them.
pub open spec fn frame_requests(flags: Seq<u32>) -> Seq<Request> {
    Seq::new(
        2 * flags.len() + 3,
        |i: int|
            if i == 0 {
                Request::Clear(COLOR_BUFFER_BIT)
            } else if i == 1 {
                Request::SwapBuffers
            } else if i % 2 == 0 {
                Request::GetError
            } else {
                Request::Report(flag_error(flags[(i - 3) / 2]).unwrap())
            },
    )
}

proof fn drain_from(flags: Seq<u32>, last: u32, seen: int, issued: Seq<Request>)
    requires
        0 <= seen <= flags.len(),
        forall|i: int| 0 <= i < flags.len() ==> flag_error(#[trigger] flags[i]) is Some,
        flag_error(last) is None,
        issued == frame_requests(flags).take(2 + 2 * seen),
    ensures
        run_from(Step::Pending(Frame::Polling), frame_replies(flags, last), 2 + 2 * seen, issued)
            == (frame_requests(flags), Step::<Frame, ()>::Done(())),
    decreases flags.len() - seen,
{
    let replies = frame_replies(flags, last);
    let requests = frame_requests(flags);
    reveal_with_fuel(run_from, 3);
    if seen == flags.len() {
        assert(replies[2 + 2 * seen] == Reply::ErrorFlag(last));
        assert(issued.push(Request::GetError) =~= requests);
    } else {
        let error = flag_error(flags[seen]).unwrap();
        assert(replies[2 + 2 * seen] == Reply::ErrorFlag(flags[seen]));
        assert(replies[3 + 2 * seen] == Reply::Done);
        let reported = issued.push(Request::GetError).push(Request::Report(error));
        assert(reported =~= requests.take(2 + 2 * (seen + 1)));
        drain_from(flags, last, seen + 1, reported);
    }
}

/// A frame drains the driver's error flag: when the flag reads the errors
/// `flags` and then no error, the frame reports exactly those errors, each
/// once and in the order in which the flag showed them, reads the flag once
/// more, and ends.
pub proof fn frame_drains(flags: Seq<u32>, last: u32)
    requires
        forall|i: int| 0 <= i < flags.len() ==> flag_error(#[trigger] flags[i]) is Some,
        flag_error(last) is None,
    ensures
        run(Frame::Clearing, frame_replies(flags, last)) == (
            frame_requests(flags),
            Step::<Frame, ()>::Done(()),
        ),
{
    let replies = frame_replies(flags, last);
    let cleared = Seq::<Request>::empty().push(Request::Clear(COLOR_BUFFER_BIT));
    let presented = cleared.push(Request::SwapBuffers);
    assert(presented =~= frame_requests(flags).take(2));
    drain_from(flags, last, 0, presented);
    assert(Frame::Clearing.next(replies[0]) == Step::<Frame, ()>::Pending(Frame::Presenting));
    assert(Frame::Presenting.next(replies[1]) == Step::<Frame, ()>::Pending(Frame::Polling));
    assert(run_from(Step::Pending(Frame::Presenting), replies, 1, cleared) == run_from(
        Step::Pending(Frame::Polling),
        replies,
        2,
        presented,
    ));
    assert(run_from(Step::Pending(Frame::Clearing), replies, 0, Seq::empty()) == run_from(
        Step::Pending(Frame::Presenting),
        replies,
        1,
        cleared,
    ));
}

/// A frame clears once and presents once, first of all and in that order,
/// however many errors the driver's flag then shows: of the requests of a
/// frame, the first is the only clear and the second the only present.
pub proof fn frame_clears_and_presents_once(flags: Seq<u32>, last: u32, i: int)
    requires
        forall|i: int| 0 <= i < flags.len() ==> flag_error(#[trigger] flags[i]) is Some,
        flag_error(last) is None,
        0 <= i < run(Frame::Clearing, frame_replies(flags, last)).0.len(),
    ensures
        run(Frame::Clearing, frame_replies(flags, last)).0[i] is Clear <==> i == 0,
        run(Frame::Clearing, frame_replies(flags, last)).0[i] is SwapBuffers <==> i == 1,
{
    frame_drains(flags, last);
}

/// With sources that compile and link, setting up gives a renderer that
/// owns the linked program. The context is made current before anything is
/// asked of the driver, the clear color is opaque red, and the program is
/// bound once, after it is built.
pub proof fn setup_success(
    vertex_source: String,
    fragment_source: String,
    vertex: u32,
    fragment: u32,
    program: u32,
    vertex_status: i32,
    fragment_status: i32,
    link_status: i32,
)
    requires
        vertex_status != 0,
        fragment_status != 0,
        link_status != 0,
    ensures
        run(
            RendererSetup::MakingCurrent,
            seq![
                Reply::Done,
                Reply::Done,
                Reply::Done,
                Reply::Source(vertex_source),
                Reply::Source(fragment_source),
                Reply::Handle(vertex),
                Reply::Done,
                Reply::Done,
                Reply::Value(vertex_status),
                Reply::Handle(fragment),
                Reply::Done,
                Reply::Done,
                Reply::Value(fragment_status),
                Reply::Handle(program),
                Reply::Done,
                Reply::Done,
                Reply::Done,
                Reply::Value(link_status),
                Reply::Done,
                Reply::Done,
                Reply::Done,
            ],
        ) == (
            seq![
                Request::MakeCurrent,
                Request::LoadFunctions,
                Request::ClearColor { red: 255, green: 0, blue: 0, alpha: 255 },
                Request::LoadSource(VERTEX_SOURCE),
                Request::LoadSource(FRAGMENT_SOURCE),
                Request::CreateShader(Stage::Vertex),
                Request::ShaderSource { shader: vertex, source: vertex_source },
                Request::CompileShader(vertex),
                Request::GetShaderiv { shader: vertex, parameter: Parameter::CompileStatus },
                Request::CreateShader(Stage::Fragment),
                Request::ShaderSource { shader: fragment, source: fragment_source },
                Request::CompileShader(fragment),
                Request::GetShaderiv { shader: fragment, parameter: Parameter::CompileStatus },
                Request::CreateProgram,
                Request::AttachShader { program, shader: vertex },
                Request::AttachShader { program, shader: fragment },
                Request::LinkProgram(program),
                Request::GetProgramiv { program, parameter: Parameter::LinkStatus },
                Request::DeleteShader(fragment),
                Request::DeleteShader(vertex),
                Request::UseProgram(program),
            ],
            Step::<RendererSetup, Result<Renderer, RendererCreationError>>::Done(
                Ok(Renderer::of(Program::of(program))),
            ),
        ),
{
    broadcast use {Program::of_id, crate::renderer::shader::Shader::of_id};

    reveal_with_fuel(run_from, 23);
}

/// Where the program does not link, setting up fails with the program's
/// error, and no program is bound.
pub proof fn setup_failure(
    vertex_source: String,
    fragment_source: String,
    vertex: u32,
    fragment: u32,
    program: u32,
    vertex_status: i32,
    fragment_status: i32,
    length: i32,
    buffer: Vec<u8>,
)
    requires
        vertex_status != 0,
        fragment_status != 0,
    ensures
        run(
            RendererSetup::MakingCurrent,
            seq![
                Reply::Done,
                Reply::Done,
                Reply::Done,
                Reply::Source(vertex_source),
                Reply::Source(fragment_source),
                Reply::Handle(vertex),
                Reply::Done,
                Reply::Done,
                Reply::Value(vertex_status),
                Reply::Handle(fragment),
                Reply::Done,
                Reply::Done,
                Reply::Value(fragment_status),
                Reply::Handle(program),
                Reply::Done,
                Reply::Done,
                Reply::Done,
                Reply::Value(0),
                Reply::Value(length),
                Reply::Log(buffer),
                Reply::Done,
                Reply::Done,
                Reply::Done,
            ],
        ) == (
            seq![
                Request::MakeCurrent,
                Request::LoadFunctions,
                Request::ClearColor { red: 255, green: 0, blue: 0, alpha: 255 },
                Request::LoadSource(VERTEX_SOURCE),
                Request::LoadSource(FRAGMENT_SOURCE),
                Request::CreateShader(Stage::Vertex),
                Request::ShaderSource { shader: vertex, source: vertex_source },
                Request::CompileShader(vertex),
                Request::GetShaderiv { shader: vertex, parameter: Parameter::CompileStatus },
                Request::CreateShader(Stage::Fragment),
                Request::ShaderSource { shader: fragment, source: fragment_source },
                Request::CompileShader(fragment),
                Request::GetShaderiv { shader: fragment, parameter: Parameter::CompileStatus },
                Request::CreateProgram,
                Request::AttachShader { program, shader: vertex },
                Request::AttachShader { program, shader: fragment },
                Request::LinkProgram(program),
                Request::GetProgramiv { program, parameter: Parameter::LinkStatus },
                Request::GetProgramiv { program, parameter: Parameter::InfoLogLength },
                Request::GetProgramInfoLog { program, capacity: log_capacity(length) },
                Request::DeleteProgram(program),
                Request::DeleteShader(fragment),
                Request::DeleteShader(vertex),
            ],
            Step::<RendererSetup, Result<Renderer, RendererCreationError>>::Done(
                Err(
                    RendererCreationError::ProgramCreationError(
                        ProgramCreationError::ProgramLinkError(log_text(buffer@)),
                    ),
                ),
            ),
        ),
{
    broadcast use {Program::of_id, crate::renderer::shader::Shader::of_id};

    reveal_with_fuel(run_from, 25);
}

} // verus!
