//! Shader objects and the linked program: how each is built through the
//! driver, and which driver objects are released on the way.

use vstd::prelude::*;

use crate::driver::{run, run_from, Parameter, Reply, Request, Resumable, Stage, Step};

verus! {

/// Why no program came to be; each carries the driver's diagnostic log.
#[derive(Debug, PartialEq, Eq)]
pub enum ProgramCreationError {
    ShaderCompilationError(String),
    ProgramLinkError(String),
}

/// A compiled shader object of the driver. The value owns the object: it is
/// neither copied nor cloned, and [`Shader::release`] consumes it.
#[derive(Debug, PartialEq, Eq)]
pub struct Shader {
    shader: u32,
}

/// The text that `String::from_utf8_lossy` makes of `bytes`.
pub uninterp spec fn lossy_text(bytes: Seq<u8>) -> String;

/// `String::from_utf8_lossy` reads `bytes` as UTF-8 and puts U+FFFD in the
/// place of each run of bytes that is not. The text depends on the bytes
/// alone; what it is, is left to std.
#[verifier::external_body]
fn lossy(bytes: &[u8]) -> (text: String)
    ensures
        text == lossy_text(bytes@),
{
    String::from_utf8_lossy(bytes).into_owned()
}

/// The bytes of `buffer` that come before its first zero byte; all of them
/// where it holds none.
pub open spec fn c_string(buffer: Seq<u8>) -> Seq<u8> {
    match buffer.index_of_first(0u8) {
        Some(end) => buffer.take(end),
        None => buffer,
    }
}

/// The diagnostic text in a buffer that the driver filled: what comes
/// before the terminating zero, read as UTF-8.
pub open spec fn log_text(buffer: Seq<u8>) -> String {
    lossy_text(c_string(buffer))
}

/// The diagnostic text in a buffer that the driver filled.
pub fn read_log(buffer: &Vec<u8>) -> (text: String)
    ensures
        text == log_text(buffer@),
{
    let mut end: usize = 0;
    while end < buffer.len() && buffer[end] != 0
        invariant
            end <= buffer.len(),
            forall|i: int| 0 <= i < end ==> buffer@[i] != 0,
        decreases buffer.len() - end,
    {
        end += 1;
    }
    proof {
        buffer@.index_of_first_ensures(0u8);
        if end == buffer.len() {
            assert(buffer@.take(end as int) =~= buffer@);
        }
    }
    lossy(vstd::slice::slice_subrange(buffer.as_slice(), 0, end))
}

/// Number of bytes to set aside for a diagnostic log whose length the driver
/// reported as `length`.
pub open spec fn log_capacity(length: i32) -> u32 {
    if length > 0 {
        length as u32
    } else {
        0
    }
}

fn capacity_for(length: i32) -> (capacity: u32)
    ensures
        capacity == log_capacity(length),
{
    if length > 0 {
        length as u32
    } else {
        0
    }
}

impl Shader {
    /// The shader that owns the driver object `handle`.
    pub closed spec fn of(handle: u32) -> Shader {
        Shader { shader: handle }
    }

    /// The driver's name of the object.
    pub closed spec fn id(self) -> u32 {
        self.shader
    }

    /// A shader is the object it owns, and nothing else.
    pub broadcast proof fn of_id(handle: u32)
        ensures
            #[trigger] Shader::of(handle).id() == handle,
    {
    }

    /// Starts compiling `src` for the stage `shader_type`.
    pub fn new(src: String, shader_type: Stage) -> (build: ShaderBuild)
        ensures
            build == (ShaderBuild::Creating { source: src, stage: shader_type }),
    {
        ShaderBuild::Creating { source: src, stage: shader_type }
    }

    /// The driver's name of the object.
    pub fn handle(&self) -> (handle: u32)
        ensures
            handle == self.id(),
    {
        self.shader
    }

    /// Gives the object up: the request that deletes it.
    pub fn release(self) -> (request: Request)
        ensures
            request == Request::DeleteShader(self.id()),
    {
        Request::DeleteShader(self.shader)
    }
}

/// A shader on its way through the driver's compiler. Each state names the
/// request that it waits on.
#[derive(Debug, PartialEq, Eq)]
pub enum ShaderBuild {
    /// Waits on `CreateShader`.
    Creating { source: String, stage: Stage },
    /// Waits on `ShaderSource`.
    Uploading { shader: u32, source: String },
    /// Waits on `CompileShader`.
    Compiling { shader: u32 },
    /// Waits on the compile status.
    Checking { shader: u32 },
    /// Compilation failed; waits on the length of the log.
    Measuring { shader: u32 },
    /// Waits on the log itself.
    Reading { shader: u32, capacity: u32 },
    /// Waits on `DeleteShader`: a shader that failed to compile is released
    /// before the failure is reported.
    Releasing { shader: u32, log: String },
}

impl Resumable for ShaderBuild {
    type Output = Result<Shader, ProgramCreationError>;

    open spec fn request(&self) -> Request {
        match *self {
            ShaderBuild::Creating { source, stage } => Request::CreateShader(stage),
            ShaderBuild::Uploading { shader, source } => Request::ShaderSource { shader, source },
            ShaderBuild::Compiling { shader } => Request::CompileShader(shader),
            ShaderBuild::Checking { shader } => Request::GetShaderiv {
                shader,
                parameter: Parameter::CompileStatus,
            },
            ShaderBuild::Measuring { shader } => Request::GetShaderiv {
                shader,
                parameter: Parameter::InfoLogLength,
            },
            ShaderBuild::Reading { shader, capacity } => Request::GetShaderInfoLog {
                shader,
                capacity,
            },
            ShaderBuild::Releasing { shader, log } => Request::DeleteShader(shader),
        }
    }

    open spec fn next(self, reply: Reply) -> Step<Self, Self::Output> {
        match (self, reply) {
            (ShaderBuild::Creating { source, stage }, Reply::Handle(shader)) => Step::Pending(
                ShaderBuild::Uploading { shader, source },
            ),
            (ShaderBuild::Uploading { shader, source }, Reply::Done) => Step::Pending(
                ShaderBuild::Compiling { shader },
            ),
            (ShaderBuild::Compiling { shader }, Reply::Done) => Step::Pending(
                ShaderBuild::Checking { shader },
            ),
            (ShaderBuild::Checking { shader }, Reply::Value(status)) => if status == 0 {
                Step::Pending(ShaderBuild::Measuring { shader })
            } else {
                Step::Done(Ok(Shader::of(shader)))
            },
            (ShaderBuild::Measuring { shader }, Reply::Value(length)) => Step::Pending(
                ShaderBuild::Reading { shader, capacity: log_capacity(length) },
            ),
            (ShaderBuild::Reading { shader, capacity }, Reply::Log(buffer)) => Step::Pending(
                ShaderBuild::Releasing { shader, log: log_text(buffer@) },
            ),
            (ShaderBuild::Releasing { shader, log }, Reply::Done) => Step::Done(
                Err(ProgramCreationError::ShaderCompilationError(log)),
            ),
            (state, _) => Step::Pending(state),
        }
    }

    fn pending(&self) -> (request: Request) {
        match self {
            ShaderBuild::Creating { source, stage } => Request::CreateShader(*stage),
            ShaderBuild::Uploading { shader, source } => Request::ShaderSource {
                shader: *shader,
                source: source.clone(),
            },
            ShaderBuild::Compiling { shader } => Request::CompileShader(*shader),
            ShaderBuild::Checking { shader } => Request::GetShaderiv {
                shader: *shader,
                parameter: Parameter::CompileStatus,
            },
            ShaderBuild::Measuring { shader } => Request::GetShaderiv {
                shader: *shader,
                parameter: Parameter::InfoLogLength,
            },
            ShaderBuild::Reading { shader, capacity } => Request::GetShaderInfoLog {
                shader: *shader,
                capacity: *capacity,
            },
            ShaderBuild::Releasing { shader, log } => Request::DeleteShader(*shader),
        }
    }

    fn resume(self, reply: Reply) -> (step: Step<Self, Self::Output>) {
        match (self, reply) {
            (ShaderBuild::Creating { source, stage }, Reply::Handle(shader)) => Step::Pending(
                ShaderBuild::Uploading { shader, source },
            ),
            (ShaderBuild::Uploading { shader, source }, Reply::Done) => Step::Pending(
                ShaderBuild::Compiling { shader },
            ),
            (ShaderBuild::Compiling { shader }, Reply::Done) => Step::Pending(
                ShaderBuild::Checking { shader },
            ),
            (ShaderBuild::Checking { shader }, Reply::Value(status)) => if status == 0 {
                Step::Pending(ShaderBuild::Measuring { shader })
            } else {
                Step::Done(Ok(Shader { shader }))
            },
            (ShaderBuild::Measuring { shader }, Reply::Value(length)) => Step::Pending(
                ShaderBuild::Reading { shader, capacity: capacity_for(length) },
            ),
            (ShaderBuild::Reading { shader, capacity }, Reply::Log(buffer)) => Step::Pending(
                ShaderBuild::Releasing { shader, log: read_log(&buffer) },
            ),
            (ShaderBuild::Releasing { shader, log }, Reply::Done) => Step::Done(
                Err(ProgramCreationError::ShaderCompilationError(log)),
            ),
            (state, _) => Step::Pending(state),
        }
    }

    proof fn ignores_other_shapes(self, reply: Reply) {
    }
}

/// Name under which the asset loader keeps the vertex shader's source.
pub const VERTEX_SOURCE: &'static str = "shaders/def.vert";

/// Name under which the asset loader keeps the fragment shader's source.
pub const FRAGMENT_SOURCE: &'static str = "shaders/def.frag";

/// A linked program object of the driver. The value owns the object: it is
/// neither copied nor cloned, and [`Program::release`] consumes it.
#[derive(Debug, PartialEq, Eq)]
pub struct Program {
    program: u32,
}

impl Program {
    /// The program that owns the driver object `handle`.
    pub closed spec fn of(handle: u32) -> Program {
        Program { program: handle }
    }

    /// The driver's name of the object.
    pub closed spec fn id(self) -> u32 {
        self.program
    }

    /// A program is the object it owns, and nothing else.
    pub broadcast proof fn of_id(handle: u32)
        ensures
            #[trigger] Program::of(handle).id() == handle,
    {
    }

    /// Starts building the program from the vertex and the fragment shader
    /// that the asset loader keeps under [`VERTEX_SOURCE`] and
    /// [`FRAGMENT_SOURCE`].
    pub fn new() -> (build: ProgramBuild)
        ensures
            build == ProgramBuild::LoadingVertex,
    {
        ProgramBuild::LoadingVertex
    }

    /// The driver's name of the object.
    pub fn handle(&self) -> (handle: u32)
        ensures
            handle == self.id(),
    {
        self.program
    }

    /// Gives the object up: the request that deletes it.
    pub fn release(self) -> (request: Request)
        ensures
            request == Request::DeleteProgram(self.id()),
    {
        Request::DeleteProgram(self.program)
    }
}

/// A program on its way from two source texts to a linked object. Each
/// state names the request that it waits on.
///
/// Whatever the outcome, both shader objects are released before it is
/// reported, the fragment shader first; a program object that failed to
/// link is released before them.
#[derive(Debug, PartialEq, Eq)]
pub enum ProgramBuild {
    /// Waits on the vertex shader's source.
    LoadingVertex,
    /// Waits on the fragment shader's source.
    LoadingFragment { vertex_source: String },
    /// The vertex shader is being compiled.
    CompilingVertex { build: ShaderBuild, fragment_source: String },
    /// The fragment shader is being compiled.
    CompilingFragment { vertex: Shader, build: ShaderBuild },
    /// Waits on `CreateProgram`.
    Creating { vertex: Shader, fragment: Shader },
    /// Waits on `AttachShader` for the vertex shader.
    AttachingVertex { program: u32, vertex: Shader, fragment: Shader },
    /// Waits on `AttachShader` for the fragment shader.
    AttachingFragment { program: u32, vertex: Shader, fragment: Shader },
    /// Waits on `LinkProgram`.
    Linking { program: u32, vertex: Shader, fragment: Shader },
    /// Waits on the link status.
    Checking { program: u32, vertex: Shader, fragment: Shader },
    /// Linking failed; waits on the length of the log.
    Measuring { program: u32, vertex: Shader, fragment: Shader },
    /// Waits on the log itself.
    Reading { program: u32, capacity: u32, vertex: Shader, fragment: Shader },
    /// Waits on `DeleteProgram` for the program that failed to link.
    DroppingProgram { program: u32, log: String, vertex: Shader, fragment: Shader },
    /// Waits on `DeleteShader` for the fragment shader.
    DroppingFragment {
        fragment: Shader,
        vertex: Shader,
        outcome: Result<Program, ProgramCreationError>,
    },
    /// Waits on `DeleteShader` for the vertex shader.
    DroppingVertex { vertex: Shader, outcome: Result<Program, ProgramCreationError> },
}

impl Resumable for ProgramBuild {
    type Output = Result<Program, ProgramCreationError>;

    open spec fn request(&self) -> Request {
        match *self {
            ProgramBuild::LoadingVertex => Request::LoadSource(VERTEX_SOURCE),
            ProgramBuild::LoadingFragment { .. } => Request::LoadSource(FRAGMENT_SOURCE),
            ProgramBuild::CompilingVertex { build, .. } => build.request(),
            ProgramBuild::CompilingFragment { build, .. } => build.request(),
            ProgramBuild::Creating { .. } => Request::CreateProgram,
            ProgramBuild::AttachingVertex { program, vertex, .. } => Request::AttachShader {
                program,
                shader: vertex.id(),
            },
            ProgramBuild::AttachingFragment { program, fragment, .. } => Request::AttachShader {
                program,
                shader: fragment.id(),
            },
            ProgramBuild::Linking { program, .. } => Request::LinkProgram(program),
            ProgramBuild::Checking { program, .. } => Request::GetProgramiv {
                program,
                parameter: Parameter::LinkStatus,
            },
            ProgramBuild::Measuring { program, .. } => Request::GetProgramiv {
                program,
                parameter: Parameter::InfoLogLength,
            },
            ProgramBuild::Reading { program, capacity, .. } => Request::GetProgramInfoLog {
                program,
                capacity,
            },
            ProgramBuild::DroppingProgram { program, .. } => Request::DeleteProgram(program),
            ProgramBuild::DroppingFragment { fragment, .. } => Request::DeleteShader(
                fragment.id(),
            ),
            ProgramBuild::DroppingVertex { vertex, .. } => Request::DeleteShader(vertex.id()),
        }
    }

    open spec fn next(self, reply: Reply) -> Step<Self, Self::Output> {
        match self {
            ProgramBuild::LoadingVertex => match reply {
                Reply::Source(vertex_source) => Step::Pending(
                    ProgramBuild::LoadingFragment { vertex_source },
                ),
                _ => Step::Pending(self),
            },
            ProgramBuild::LoadingFragment { vertex_source } => match reply {
                Reply::Source(fragment_source) => Step::Pending(
                    ProgramBuild::CompilingVertex {
                        build: ShaderBuild::Creating { source: vertex_source, stage: Stage::Vertex },
                        fragment_source,
                    },
                ),
                _ => Step::Pending(self),
            },
            ProgramBuild::CompilingVertex { build, fragment_source } => match build.next(reply) {
                Step::Pending(build) => Step::Pending(
                    ProgramBuild::CompilingVertex { build, fragment_source },
                ),
                Step::Done(Ok(vertex)) => Step::Pending(
                    ProgramBuild::CompilingFragment {
                        vertex,
                        build: ShaderBuild::Creating {
                            source: fragment_source,
                            stage: Stage::Fragment,
                        },
                    },
                ),
                Step::Done(Err(error)) => Step::Done(Err(error)),
            },
            ProgramBuild::CompilingFragment { vertex, build } => match build.next(reply) {
                Step::Pending(build) => Step::Pending(
                    ProgramBuild::CompilingFragment { vertex, build },
                ),
                Step::Done(Ok(fragment)) => Step::Pending(
                    ProgramBuild::Creating { vertex, fragment },
                ),
                Step::Done(Err(error)) => Step::Pending(
                    ProgramBuild::DroppingVertex { vertex, outcome: Err(error) },
                ),
            },
            ProgramBuild::Creating { vertex, fragment } => match reply {
                Reply::Handle(program) => Step::Pending(
                    ProgramBuild::AttachingVertex { program, vertex, fragment },
                ),
                _ => Step::Pending(self),
            },
            ProgramBuild::AttachingVertex { program, vertex, fragment } => match reply {
                Reply::Done => Step::Pending(
                    ProgramBuild::AttachingFragment { program, vertex, fragment },
                ),
                _ => Step::Pending(self),
            },
            ProgramBuild::AttachingFragment { program, vertex, fragment } => match reply {
                Reply::Done => Step::Pending(ProgramBuild::Linking { program, vertex, fragment }),
                _ => Step::Pending(self),
            },
            ProgramBuild::Linking { program, vertex, fragment } => match reply {
                Reply::Done => Step::Pending(ProgramBuild::Checking { program, vertex, fragment }),
                _ => Step::Pending(self),
            },
            ProgramBuild::Checking { program, vertex, fragment } => match reply {
                Reply::Value(status) => if status == 0 {
                    Step::Pending(ProgramBuild::Measuring { program, vertex, fragment })
                } else {
                    Step::Pending(
                        ProgramBuild::DroppingFragment {
                            fragment,
                            vertex,
                            outcome: Ok(Program::of(program)),
                        },
                    )
                },
                _ => Step::Pending(self),
            },
            ProgramBuild::Measuring { program, vertex, fragment } => match reply {
                Reply::Value(length) => Step::Pending(
                    ProgramBuild::Reading {
                        program,
                        capacity: log_capacity(length),
                        vertex,
                        fragment,
                    },
                ),
                _ => Step::Pending(self),
            },
            ProgramBuild::Reading { program, capacity, vertex, fragment } => match reply {
                Reply::Log(buffer) => Step::Pending(
                    ProgramBuild::DroppingProgram {
                        program,
                        log: log_text(buffer@),
                        vertex,
                        fragment,
                    },
                ),
                _ => Step::Pending(self),
            },
            ProgramBuild::DroppingProgram { program, log, vertex, fragment } => match reply {
                Reply::Done => Step::Pending(
                    ProgramBuild::DroppingFragment {
                        fragment,
                        vertex,
                        outcome: Err(ProgramCreationError::ProgramLinkError(log)),
                    },
                ),
                _ => Step::Pending(self),
            },
            ProgramBuild::DroppingFragment { fragment, vertex, outcome } => match reply {
                Reply::Done => Step::Pending(ProgramBuild::DroppingVertex { vertex, outcome }),
                _ => Step::Pending(self),
            },
            ProgramBuild::DroppingVertex { vertex, outcome } => match reply {
                Reply::Done => Step::Done(outcome),
                _ => Step::Pending(self),
            },
        }
    }

    fn pending(&self) -> (request: Request) {
        match self {
            ProgramBuild::LoadingVertex => Request::LoadSource(VERTEX_SOURCE),
            ProgramBuild::LoadingFragment { .. } => Request::LoadSource(FRAGMENT_SOURCE),
            ProgramBuild::CompilingVertex { build, .. } => build.pending(),
            ProgramBuild::CompilingFragment { build, .. } => build.pending(),
            ProgramBuild::Creating { .. } => Request::CreateProgram,
            ProgramBuild::AttachingVertex { program, vertex, .. } => Request::AttachShader {
                program: *program,
                shader: vertex.handle(),
            },
            ProgramBuild::AttachingFragment { program, fragment, .. } => Request::AttachShader {
                program: *program,
                shader: fragment.handle(),
            },
            ProgramBuild::Linking { program, .. } => Request::LinkProgram(*program),
            ProgramBuild::Checking { program, .. } => Request::GetProgramiv {
                program: *program,
                parameter: Parameter::LinkStatus,
            },
            ProgramBuild::Measuring { program, .. } => Request::GetProgramiv {
                program: *program,
                parameter: Parameter::InfoLogLength,
            },
            ProgramBuild::Reading { program, capacity, .. } => Request::GetProgramInfoLog {
                program: *program,
                capacity: *capacity,
            },
            ProgramBuild::DroppingProgram { program, .. } => Request::DeleteProgram(*program),
            ProgramBuild::DroppingFragment { fragment, .. } => Request::DeleteShader(
                fragment.handle(),
            ),
            ProgramBuild::DroppingVertex { vertex, .. } => Request::DeleteShader(vertex.handle()),
        }
    }

    fn resume(self, reply: Reply) -> (step: Step<Self, Self::Output>) {
        match self {
            ProgramBuild::LoadingVertex => match reply {
                Reply::Source(vertex_source) => Step::Pending(
                    ProgramBuild::LoadingFragment { vertex_source },
                ),
                _ => Step::Pending(ProgramBuild::LoadingVertex),
            },
            ProgramBuild::LoadingFragment { vertex_source } => match reply {
                Reply::Source(fragment_source) => Step::Pending(
                    ProgramBuild::CompilingVertex {
                        build: Shader::new(vertex_source, Stage::Vertex),
                        fragment_source,
                    },
                ),
                _ => Step::Pending(ProgramBuild::LoadingFragment { vertex_source }),
            },
            ProgramBuild::CompilingVertex { build, fragment_source } => match build.resume(reply) {
                Step::Pending(build) => Step::Pending(
                    ProgramBuild::CompilingVertex { build, fragment_source },
                ),
                Step::Done(Ok(vertex)) => Step::Pending(
                    ProgramBuild::CompilingFragment {
                        vertex,
                        build: Shader::new(fragment_source, Stage::Fragment),
                    },
                ),
                Step::Done(Err(error)) => Step::Done(Err(error)),
            },
            ProgramBuild::CompilingFragment { vertex, build } => match build.resume(reply) {
                Step::Pending(build) => Step::Pending(
                    ProgramBuild::CompilingFragment { vertex, build },
                ),
                Step::Done(Ok(fragment)) => Step::Pending(
                    ProgramBuild::Creating { vertex, fragment },
                ),
                Step::Done(Err(error)) => Step::Pending(
                    ProgramBuild::DroppingVertex { vertex, outcome: Err(error) },
                ),
            },
            ProgramBuild::Creating { vertex, fragment } => match reply {
                Reply::Handle(program) => Step::Pending(
                    ProgramBuild::AttachingVertex { program, vertex, fragment },
                ),
                _ => Step::Pending(ProgramBuild::Creating { vertex, fragment }),
            },
            ProgramBuild::AttachingVertex { program, vertex, fragment } => match reply {
                Reply::Done => Step::Pending(
                    ProgramBuild::AttachingFragment { program, vertex, fragment },
                ),
                _ => Step::Pending(ProgramBuild::AttachingVertex { program, vertex, fragment }),
            },
            ProgramBuild::AttachingFragment { program, vertex, fragment } => match reply {
                Reply::Done => Step::Pending(ProgramBuild::Linking { program, vertex, fragment }),
                _ => Step::Pending(ProgramBuild::AttachingFragment { program, vertex, fragment }),
            },
            ProgramBuild::Linking { program, vertex, fragment } => match reply {
                Reply::Done => Step::Pending(ProgramBuild::Checking { program, vertex, fragment }),
                _ => Step::Pending(ProgramBuild::Linking { program, vertex, fragment }),
            },
            ProgramBuild::Checking { program, vertex, fragment } => match reply {
                Reply::Value(status) => if status == 0 {
                    Step::Pending(ProgramBuild::Measuring { program, vertex, fragment })
                } else {
                    Step::Pending(
                        ProgramBuild::DroppingFragment {
                            fragment,
                            vertex,
                            outcome: Ok(Program { program }),
                        },
                    )
                },
                _ => Step::Pending(ProgramBuild::Checking { program, vertex, fragment }),
            },
            ProgramBuild::Measuring { program, vertex, fragment } => match reply {
                Reply::Value(length) => Step::Pending(
                    ProgramBuild::Reading {
                        program,
                        capacity: capacity_for(length),
                        vertex,
                        fragment,
                    },
                ),
                _ => Step::Pending(ProgramBuild::Measuring { program, vertex, fragment }),
            },
            ProgramBuild::Reading { program, capacity, vertex, fragment } => match reply {
                Reply::Log(buffer) => Step::Pending(
                    ProgramBuild::DroppingProgram {
                        program,
                        log: read_log(&buffer),
                        vertex,
                        fragment,
                    },
                ),
                _ => Step::Pending(ProgramBuild::Reading { program, capacity, vertex, fragment }),
            },
            ProgramBuild::DroppingProgram { program, log, vertex, fragment } => match reply {
                Reply::Done => Step::Pending(
                    ProgramBuild::DroppingFragment {
                        fragment,
                        vertex,
                        outcome: Err(ProgramCreationError::ProgramLinkError(log)),
                    },
                ),
                _ => Step::Pending(
                    ProgramBuild::DroppingProgram { program, log, vertex, fragment },
                ),
            },
            ProgramBuild::DroppingFragment { fragment, vertex, outcome } => match reply {
                Reply::Done => Step::Pending(ProgramBuild::DroppingVertex { vertex, outcome }),
                _ => Step::Pending(ProgramBuild::DroppingFragment { fragment, vertex, outcome }),
            },
            ProgramBuild::DroppingVertex { vertex, outcome } => match reply {
                Reply::Done => Step::Done(outcome),
                _ => Step::Pending(ProgramBuild::DroppingVertex { vertex, outcome }),
            },
        }
    }

    proof fn ignores_other_shapes(self, reply: Reply) {
        match self {
            ProgramBuild::CompilingVertex { build, .. } => build.ignores_other_shapes(reply),
            ProgramBuild::CompilingFragment { build, .. } => build.ignores_other_shapes(reply),
            _ => {},
        }
    }
}

/// A source that the driver's compiler accepts gives a shader that owns the
/// object made for it, after exactly four requests.
pub proof fn compile_success(source: String, stage: Stage, shader: u32, status: i32)
    requires
        status != 0,
    ensures
        run(
            ShaderBuild::Creating { source, stage },
            seq![Reply::Handle(shader), Reply::Done, Reply::Done, Reply::Value(status)],
        ) == (
            seq![
                Request::CreateShader(stage),
                Request::ShaderSource { shader, source },
                Request::CompileShader(shader),
                Request::GetShaderiv { shader, parameter: Parameter::CompileStatus },
            ],
            Step::<ShaderBuild, Result<Shader, ProgramCreationError>>::Done(Ok(Shader::of(shader))),
        ),
{
    reveal_with_fuel(run_from, 6);
}

/// A source that the driver's compiler rejects gives a compilation error
/// that carries the text of the driver's log, and the object made for the
/// shader is deleted before the error is reported.
pub proof fn compile_failure(source: String, stage: Stage, shader: u32, length: i32, buffer: Vec<u8>)
    ensures
        run(
            ShaderBuild::Creating { source, stage },
            seq![
                Reply::Handle(shader),
                Reply::Done,
                Reply::Done,
                Reply::Value(0),
                Reply::Value(length),
                Reply::Log(buffer),
                Reply::Done,
            ],
        ) == (
            seq![
                Request::CreateShader(stage),
                Request::ShaderSource { shader, source },
                Request::CompileShader(shader),
                Request::GetShaderiv { shader, parameter: Parameter::CompileStatus },
                Request::GetShaderiv { shader, parameter: Parameter::InfoLogLength },
                Request::GetShaderInfoLog { shader, capacity: log_capacity(length) },
                Request::DeleteShader(shader),
            ],
            Step::<ShaderBuild, Result<Shader, ProgramCreationError>>::Done(
                Err(ProgramCreationError::ShaderCompilationError(log_text(buffer@))),
            ),
        ),
{
    reveal_with_fuel(run_from, 9);
}

/// Two sources that compile and link give a program that owns the object
/// made for it. Both shader objects are deleted before the program is
/// handed over, the fragment shader first, and nothing else is deleted.
pub proof fn link_success(
    vertex_source: String,
    fragment_source: String,
    vertex: u32,
    fragment: u32,
    program: u32,
    vertex_status: i32,
    fragment_status: i32,
    link_status: i32,
)
    requires
        vertex_status != 0,
        fragment_status != 0,
        link_status != 0,
    ensures
        run(
            ProgramBuild::LoadingVertex,
            seq![
                Reply::Source(vertex_source),
                Reply::Source(fragment_source),
                Reply::Handle(vertex),
                Reply::Done,
                Reply::Done,
                Reply::Value(vertex_status),
                Reply::Handle(fragment),
                Reply::Done,
                Reply::Done,
                Reply::Value(fragment_status),
                Reply::Handle(program),
                Reply::Done,
                Reply::Done,
                Reply::Done,
                Reply::Value(link_status),
                Reply::Done,
                Reply::Done,
            ],
        ) == (
            seq![
                Request::LoadSource(VERTEX_SOURCE),
                Request::LoadSource(FRAGMENT_SOURCE),
                Request::CreateShader(Stage::Vertex),
                Request::ShaderSource { shader: vertex, source: vertex_source },
                Request::CompileShader(vertex),
                Request::GetShaderiv { shader: vertex, parameter: Parameter::CompileStatus },
                Request::CreateShader(Stage::Fragment),
                Request::ShaderSource { shader: fragment, source: fragment_source },
                Request::CompileShader(fragment),
                Request::GetShaderiv { shader: fragment, parameter: Parameter::CompileStatus },
                Request::CreateProgram,
                Request::AttachShader { program, shader: vertex },
                Request::AttachShader { program, shader: fragment },
                Request::LinkProgram(program),
                Request::GetProgramiv { program, parameter: Parameter::LinkStatus },
                Request::DeleteShader(fragment),
                Request::DeleteShader(vertex),
            ],
            Step::<ProgramBuild, Result<Program, ProgramCreationError>>::Done(
                Ok(Program::of(program)),
            ),
        ),
{
    reveal_with_fuel(run_from, 19);
}

/// Two sources that compile but do not link give a link error that carries
/// the text of the driver's log. The program object, the fragment shader and
/// the vertex shader are deleted, in that order, before the error is
/// reported.
pub proof fn link_failure(
    vertex_source: String,
    fragment_source: String,
    vertex: u32,
    fragment: u32,
    program: u32,
    vertex_status: i32,
    fragment_status: i32,
    length: i32,
    buffer: Vec<u8>,
)
    requires
        vertex_status != 0,
        fragment_status != 0,
    ensures
        run(
            ProgramBuild::LoadingVertex,
            seq![
                Reply::Source(vertex_source),
                Reply::Source(fragment_source),
                Reply::Handle(vertex),
                Reply::Done,
                Reply::Done,
                Reply::Value(vertex_status),
                Reply::Handle(fragment),
                Reply::Done,
                Reply::Done,
                Reply::Value(fragment_status),
                Reply::Handle(program),
                Reply::Done,
                Reply::Done,
                Reply::Done,
                Reply::Value(0),
                Reply::Value(length),
                Reply::Log(buffer),
                Reply::Done,
                Reply::Done,
                Reply::Done,
            ],
        ) == (
            seq![
                Request::LoadSource(VERTEX_SOURCE),
                Request::LoadSource(FRAGMENT_SOURCE),
                Request::CreateShader(Stage::Vertex),
                Request::ShaderSource { shader: vertex, source: vertex_source },
                Request::CompileShader(vertex),
                Request::GetShaderiv { shader: vertex, parameter: Parameter::CompileStatus },
                Request::CreateShader(Stage::Fragment),
                Request::ShaderSource { shader: fragment, source: fragment_source },
                Request::CompileShader(fragment),
                Request::GetShaderiv { shader: fragment, parameter: Parameter::CompileStatus },
                Request::CreateProgram,
                Request::AttachShader { program, shader: vertex },
                Request::AttachShader { program, shader: fragment },
                Request::LinkProgram(program),
                Request::GetProgramiv { program, parameter: Parameter::LinkStatus },
                Request::GetProgramiv { program, parameter: Parameter::InfoLogLength },
                Request::GetProgramInfoLog { program, capacity: log_capacity(length) },
                Request::DeleteProgram(program),
                Request::DeleteShader(fragment),
                Request::DeleteShader(vertex),
            ],
            Step::<ProgramBuild, Result<Program, ProgramCreationError>>::Done(
                Err(ProgramCreationError::ProgramLinkError(log_text(buffer@))),
            ),
        ),
{
    reveal_with_fuel(run_from, 22);
}

/// A vertex source that does not compile ends the build at once: the
/// fragment source is never handed to the driver, and no program object is
/// made.
pub proof fn vertex_failure(
    vertex_source: String,
    fragment_source: String,
    vertex: u32,
    length: i32,
    buffer: Vec<u8>,
)
    ensures
        run(
            ProgramBuild::LoadingVertex,
            seq![
                Reply::Source(vertex_source),
                Reply::Source(fragment_source),
                Reply::Handle(vertex),
                Reply::Done,
                Reply::Done,
                Reply::Value(0),
                Reply::Value(length),
                Reply::Log(buffer),
                Reply::Done,
            ],
        ) == (
            seq![
                Request::LoadSource(VERTEX_SOURCE),
                Request::LoadSource(FRAGMENT_SOURCE),
                Request::CreateShader(Stage::Vertex),
                Request::ShaderSource { shader: vertex, source: vertex_source },
                Request::CompileShader(vertex),
                Request::GetShaderiv { shader: vertex, parameter: Parameter::CompileStatus },
                Request::GetShaderiv { shader: vertex, parameter: Parameter::InfoLogLength },
                Request::GetShaderInfoLog { shader: vertex, capacity: log_capacity(length) },
                Request::DeleteShader(vertex),
            ],
            Step::<ProgramBuild, Result<Program, ProgramCreationError>>::Done(
                Err(ProgramCreationError::ShaderCompilationError(log_text(buffer@))),
            ),
        ),
{
    reveal_with_fuel(run_from, 11);
}

/// A fragment source that does not compile ends the build before a program
/// object is made; the vertex shader, which did compile, is deleted before
/// the error is reported.
pub proof fn fragment_failure(
    vertex_source: String,
    fragment_source: String,
    vertex: u32,
    fragment: u32,
    vertex_status: i32,
    length: i32,
    buffer: Vec<u8>,
)
    requires
        vertex_status != 0,
    ensures
        run(
            ProgramBuild::LoadingVertex,
            seq![
                Reply::Source(vertex_source),
                Reply::Source(fragment_source),
                Reply::Handle(vertex),
                Reply::Done,
                Reply::Done,
                Reply::Value(vertex_status),
                Reply::Handle(fragment),
                Reply::Done,
                Reply::Done,
                Reply::Value(0),
                Reply::Value(length),
                Reply::Log(buffer),
                Reply::Done,
                Reply::Done,
            ],
        ) == (
            seq![
                Request::LoadSource(VERTEX_SOURCE),
                Request::LoadSource(FRAGMENT_SOURCE),
                Request::CreateShader(Stage::Vertex),
                Request::ShaderSource { shader: vertex, source: vertex_source },
                Request::CompileShader(vertex),
                Request::GetShaderiv { shader: vertex, parameter: Parameter::CompileStatus },
                Request::CreateShader(Stage::Fragment),
                Request::ShaderSource { shader: fragment, source: fragment_source },
                Request::CompileShader(fragment),
                Request::GetShaderiv { shader: fragment, parameter: Parameter::CompileStatus },
                Request::GetShaderiv { shader: fragment, parameter: Parameter::InfoLogLength },
                Request::GetShaderInfoLog { shader: fragment, capacity: log_capacity(length) },
                Request::DeleteShader(fragment),
                Request::DeleteShader(vertex),
            ],
            Step::<ProgramBuild, Result<Program, ProgramCreationError>>::Done(
                Err(ProgramCreationError::ShaderCompilationError(log_text(buffer@))),
            ),
        ),
{
    reveal_with_fuel(run_from, 16);
}

} // verus!
