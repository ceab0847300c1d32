use std::collections::VecDeque;

use render_core::driver::{Parameter, Reply, Request, Resumable, Stage, Step, COLOR_BUFFER_BIT};
use render_core::renderer::shader::{Program, ProgramCreationError};
use render_core::renderer::{Frame, GlError, Renderer, RendererCreationError, RendererSetup};
use render_core::time::Span;

const VERT: &str = "#version 450 core\nvoid main() { gl_Position = vec4(0.0); }\n";
const FRAG: &str = "#version 450 core\nout vec4 color;\nvoid main() { color = vec4(1.0); }\n";
const FRAG_NEEDS_UV: &str =
    "#version 450 core\nin vec2 uv;\nout vec4 color;\nvoid main() { color = vec4(uv, 0.0, 1.0); }\n";
const BROKEN: &str = "#version 450 core\nvoid main( {\n";

/// A driver that keeps its objects and its error flag in memory. A source
/// compiles unless it holds `main( {`; a pair links unless the fragment
/// source reads `uv`.
struct Driver {
    vertex_source: String,
    fragment_source: String,
    calls: Vec<Request>,
    next_handle: u32,
    shaders: Vec<(u32, Stage, String, bool)>,
    attached: Vec<u32>,
    live_shaders: Vec<u32>,
    live_programs: Vec<u32>,
    linked: bool,
    current: bool,
    loaded: bool,
    bound: Option<u32>,
    flags: VecDeque<u32>,
    reported: Vec<GlError>,
    presents: usize,
    clears: usize,
}

impl Driver {
    fn new(vertex_source: &str, fragment_source: &str) -> Driver {
        Driver {
            vertex_source: String::from(vertex_source),
            fragment_source: String::from(fragment_source),
            calls: Vec::new(),
            next_handle: 1,
            shaders: Vec::new(),
            attached: Vec::new(),
            live_shaders: Vec::new(),
            live_programs: Vec::new(),
            linked: false,
            current: false,
            loaded: false,
            bound: None,
            flags: VecDeque::new(),
            reported: Vec::new(),
            presents: 0,
            clears: 0,
        }
    }

    fn fresh(&mut self) -> u32 {
        let handle = self.next_handle;
        self.next_handle += 1;
        handle
    }

    /// A buffer of `capacity` bytes with as much of `log` as fits before
    /// its terminating zero.
    fn fill(log: &str, capacity: u32) -> Vec<u8> {
        let mut buffer = vec![0u8; capacity as usize];
        let kept = log.len().min(buffer.len().saturating_sub(1));
        buffer[..kept].copy_from_slice(&log.as_bytes()[..kept]);
        buffer
    }

    fn shader_log(&self, shader: u32) -> String {
        match self.shaders.iter().find(|entry| entry.0 == shader) {
            Some(entry) if !entry.3 => String::from("0:2(12): error: syntax error, unexpected '{'"),
            _ => String::new(),
        }
    }

    fn link_log(&self) -> String {
        if self.linked {
            String::new()
        } else {
            String::from("error: fragment shader input `uv` has no matching output")
        }
    }

    fn perform(&mut self, request: Request) -> Reply {
        let reply = match &request {
            Request::PollEvents => Reply::Events(Vec::new()),
            Request::MakeCurrent => {
                self.current = true;
                Reply::Done
            }
            Request::LoadFunctions => {
                assert!(self.current);
                self.loaded = true;
                Reply::Done
            }
            Request::SwapBuffers => {
                self.presents += 1;
                Reply::Done
            }
            Request::LoadSource(name) => match *name {
                "shaders/def.vert" => Reply::Source(self.vertex_source.clone()),
                "shaders/def.frag" => Reply::Source(self.fragment_source.clone()),
                other => panic!("no source named {}", other),
            },
            Request::ClearColor { .. } => Reply::Done,
            Request::Clear(mask) => {
                assert_eq!(*mask, COLOR_BUFFER_BIT);
                self.clears += 1;
                Reply::Done
            }
            Request::GetError => Reply::ErrorFlag(self.flags.pop_front().unwrap_or(0)),
            Request::CreateShader(stage) => {
                let handle = self.fresh();
                self.shaders.push((handle, *stage, String::new(), false));
                self.live_shaders.push(handle);
                Reply::Handle(handle)
            }
            Request::ShaderSource { shader, source } => {
                let entry = self.shaders.iter_mut().find(|entry| entry.0 == *shader).unwrap();
                entry.2 = source.clone();
                Reply::Done
            }
            Request::CompileShader(shader) => {
                let entry = self.shaders.iter_mut().find(|entry| entry.0 == *shader).unwrap();
                entry.3 = !entry.2.contains("main( {");
                Reply::Done
            }
            Request::GetShaderiv { shader, parameter } => match parameter {
                Parameter::CompileStatus => {
                    let entry = self.shaders.iter().find(|entry| entry.0 == *shader).unwrap();
                    Reply::Value(if entry.3 { 1 } else { 0 })
                }
                Parameter::InfoLogLength => Reply::Value(self.shader_log(*shader).len() as i32 + 1),
                Parameter::LinkStatus => panic!("a shader has no link status"),
            },
            Request::GetShaderInfoLog { shader, capacity } => {
                let log = self.shader_log(*shader);
                assert_eq!(*capacity as usize, log.len() + 1);
                Reply::Log(Driver::fill(&log, *capacity))
            }
            Request::DeleteShader(shader) => {
                let at = self.live_shaders.iter().position(|live| live == shader);
                self.live_shaders.remove(at.expect("shader deleted twice"));
                Reply::Done
            }
            Request::CreateProgram => {
                let handle = self.fresh();
                self.live_programs.push(handle);
                Reply::Handle(handle)
            }
            Request::AttachShader { program, shader } => {
                assert!(self.live_programs.contains(program));
                assert!(self.live_shaders.contains(shader));
                self.attached.push(*shader);
                Reply::Done
            }
            Request::LinkProgram(_) => {
                let fragment = self
                    .shaders
                    .iter()
                    .find(|entry| entry.1 == Stage::Fragment && self.attached.contains(&entry.0))
                    .unwrap();
                self.linked = self.attached.len() == 2 && !fragment.2.contains("in vec2 uv");
                Reply::Done
            }
            Request::GetProgramiv { parameter, .. } => match parameter {
                Parameter::LinkStatus => Reply::Value(if self.linked { 1 } else { 0 }),
                Parameter::InfoLogLength => Reply::Value(self.link_log().len() as i32 + 1),
                Parameter::CompileStatus => panic!("a program has no compile status"),
            },
            Request::GetProgramInfoLog { capacity, .. } => {
                let log = self.link_log();
                assert_eq!(*capacity as usize, log.len() + 1);
                Reply::Log(Driver::fill(&log, *capacity))
            }
            Request::DeleteProgram(program) => {
                let at = self.live_programs.iter().position(|live| live == program);
                self.live_programs.remove(at.expect("program deleted twice"));
                Reply::Done
            }
            Request::UseProgram(program) => {
                assert!(self.live_programs.contains(program));
                assert!(self.linked);
                self.bound = Some(*program);
                Reply::Done
            }
            Request::Report(error) => {
                self.reported.push(*error);
                Reply::Done
            }
        };
        assert_eq!(reply.kind(), request.reply_kind());
        self.calls.push(request);
        reply
    }

    fn complete<M: Resumable>(&mut self, start: M) -> M::Output {
        let mut state = start;
        loop {
            let reply = self.perform(state.pending());
            match state.resume(reply) {
                Step::Pending(next) => state = next,
                Step::Done(output) => return output,
            }
        }
    }

    fn count(&self, wanted: &Request) -> usize {
        self.calls.iter().filter(|call| *call == wanted).count()
    }
}

#[test]
fn setup_makes_the_context_current_first() {
    let setup = Renderer::new();
    assert_eq!(setup, RendererSetup::MakingCurrent);
    assert_eq!(setup.pending(), Request::MakeCurrent);
}

#[test]
fn setup_issues_its_requests_in_order() {
    let mut driver = Driver::new(VERT, FRAG);
    let renderer = driver.complete(Renderer::new()).expect("setup failed");
    assert_eq!(
        driver.calls,
        vec![
            Request::MakeCurrent,
            Request::LoadFunctions,
            Request::ClearColor { red: 255, green: 0, blue: 0, alpha: 255 },
            Request::LoadSource("shaders/def.vert"),
            Request::LoadSource("shaders/def.frag"),
            Request::CreateShader(Stage::Vertex),
            Request::ShaderSource { shader: 1, source: String::from(VERT) },
            Request::CompileShader(1),
            Request::GetShaderiv { shader: 1, parameter: Parameter::CompileStatus },
            Request::CreateShader(Stage::Fragment),
            Request::ShaderSource { shader: 2, source: String::from(FRAG) },
            Request::CompileShader(2),
            Request::GetShaderiv { shader: 2, parameter: Parameter::CompileStatus },
            Request::CreateProgram,
            Request::AttachShader { program: 3, shader: 1 },
            Request::AttachShader { program: 3, shader: 2 },
            Request::LinkProgram(3),
            Request::GetProgramiv { program: 3, parameter: Parameter::LinkStatus },
            Request::DeleteShader(2),
            Request::DeleteShader(1),
            Request::UseProgram(3),
        ]
    );
    assert_eq!(driver.bound, Some(3));
    assert!(driver.live_shaders.is_empty());
    assert_eq!(driver.live_programs, vec![3]);
    assert_eq!(renderer.release(), Request::DeleteProgram(3));
}

#[test]
fn linked_program_leaves_no_error_behind() {
    let mut driver = Driver::new(VERT, FRAG);
    let program = driver.complete(Program::new()).expect("link failed");
    assert_eq!(program.handle(), 3);
    assert_eq!(driver.perform(Request::GetError), Reply::ErrorFlag(0));
    assert_eq!(render_core::renderer::get_gl_error(0), Ok(()));
}

#[test]
fn setup_fails_on_a_syntax_error() {
    let mut driver = Driver::new(BROKEN, FRAG);
    let outcome = driver.complete(Renderer::new());
    match outcome {
        Err(RendererCreationError::ProgramCreationError(
            ProgramCreationError::ShaderCompilationError(log),
        )) => assert_eq!(log, "0:2(12): error: syntax error, unexpected '{'"),
        other => panic!("expected a compilation error, got {:?}", other),
    }
    assert_eq!(driver.bound, None);
    assert!(driver.live_shaders.is_empty());
    assert!(driver.live_programs.is_empty());
    assert_eq!(driver.count(&Request::CreateShader(Stage::Fragment)), 0);
    assert_eq!(driver.count(&Request::CreateProgram), 0);
}

#[test]
fn setup_fails_on_a_syntax_error_in_the_fragment_shader() {
    let mut driver = Driver::new(VERT, BROKEN);
    let outcome = driver.complete(Renderer::new());
    assert!(matches!(
        outcome,
        Err(RendererCreationError::ProgramCreationError(
            ProgramCreationError::ShaderCompilationError(_)
        ))
    ));
    assert!(driver.live_shaders.is_empty());
    assert_eq!(driver.count(&Request::CreateProgram), 0);
}

#[test]
fn setup_fails_on_a_mismatched_interface() {
    let mut driver = Driver::new(VERT, FRAG_NEEDS_UV);
    let outcome = driver.complete(Renderer::new());
    match outcome {
        Err(RendererCreationError::ProgramCreationError(
            ProgramCreationError::ProgramLinkError(log),
        )) => assert_eq!(log, "error: fragment shader input `uv` has no matching output"),
        other => panic!("expected a link error, got {:?}", other),
    }
    assert_eq!(driver.bound, None);
    assert!(driver.live_shaders.is_empty());
    assert!(driver.live_programs.is_empty());
}

#[test]
fn creation_error_wraps_the_program_error() {
    let error = ProgramCreationError::ProgramLinkError(String::from("no"));
    assert_eq!(
        RendererCreationError::from(error),
        RendererCreationError::ProgramCreationError(ProgramCreationError::ProgramLinkError(
            String::from("no")
        ))
    );
    let error = ProgramCreationError::ShaderCompilationError(String::from("bad"));
    assert_eq!(
        RendererCreationError::from(error),
        RendererCreationError::ProgramCreationError(
            ProgramCreationError::ShaderCompilationError(String::from("bad"))
        )
    );
}

#[test]
fn frame_without_errors_clears_presents_and_polls_once() {
    let mut driver = Driver::new(VERT, FRAG);
    let mut renderer = driver.complete(Renderer::new()).expect("setup failed");
    driver.calls.clear();
    driver.complete(renderer.render(Span::new(0, 16_000_000).unwrap()));
    assert_eq!(
        driver.calls,
        vec![Request::Clear(0x4000), Request::SwapBuffers, Request::GetError]
    );
    assert!(driver.reported.is_empty());
}

#[test]
fn frame_is_the_same_for_every_delta() {
    let mut driver = Driver::new(VERT, FRAG);
    let mut renderer = driver.complete(Renderer::new()).expect("setup failed");
    let deltas = [
        Span::zero(),
        Span::new(0, 1).unwrap(),
        Span::new(0, 999_999_999).unwrap(),
        Span::new(3600, 0).unwrap(),
        Span::new(u64::MAX, 999_999_999).unwrap(),
    ];
    for delta in deltas {
        let frame = renderer.render(delta);
        assert_eq!(frame, Frame::Clearing);
        driver.calls.clear();
        driver.complete(frame);
        assert_eq!(driver.count(&Request::Clear(COLOR_BUFFER_BIT)), 1);
        assert_eq!(driver.count(&Request::SwapBuffers), 1);
        assert_eq!(driver.calls.len(), 3);
    }
    assert_eq!(driver.presents, 5);
    assert_eq!(driver.clears, 5);
    assert_eq!(renderer.release(), Request::DeleteProgram(3));
}

#[test]
fn frame_drains_queued_errors_in_order() {
    let mut driver = Driver::new(VERT, FRAG);
    driver.flags.extend([0x0502, 0x0500, 0x0505, 0x8031]);
    driver.complete(Frame::Clearing);
    assert_eq!(
        driver.reported,
        vec![
            GlError::InvalidOperation,
            GlError::InvalidEnum,
            GlError::OutOfMemory,
            GlError::TableTooLarge
        ]
    );
    assert_eq!(
        driver.calls,
        vec![
            Request::Clear(0x4000),
            Request::SwapBuffers,
            Request::GetError,
            Request::Report(GlError::InvalidOperation),
            Request::GetError,
            Request::Report(GlError::InvalidEnum),
            Request::GetError,
            Request::Report(GlError::OutOfMemory),
            Request::GetError,
            Request::Report(GlError::TableTooLarge),
            Request::GetError,
        ]
    );
    assert!(driver.flags.is_empty());
    driver.reported.clear();
    driver.complete(Frame::Clearing);
    assert!(driver.reported.is_empty());
}

#[test]
fn frame_drains_every_kind_of_error() {
    let mut driver = Driver::new(VERT, FRAG);
    driver.flags.extend([0x0500, 0x0501, 0x0502, 0x0503, 0x0504, 0x0505, 0x0506, 0x0507, 0x8031]);
    driver.complete(Frame::Clearing);
    assert_eq!(
        driver.reported,
        vec![
            GlError::InvalidEnum,
            GlError::InvalidValue,
            GlError::InvalidOperation,
            GlError::StackOverflow,
            GlError::StackUnderflow,
            GlError::OutOfMemory,
            GlError::InvalidFramebufferOperation,
            GlError::ContextLost,
            GlError::TableTooLarge,
        ]
    );
    assert_eq!(driver.count(&Request::GetError), 10);
}

#[test]
fn frame_stops_draining_at_a_flag_outside_the_table() {
    let mut driver = Driver::new(VERT, FRAG);
    driver.flags.extend([0x0501, 0x1234, 0x0502]);
    driver.complete(Frame::Clearing);
    assert_eq!(driver.reported, vec![GlError::InvalidValue]);
    assert_eq!(driver.flags, VecDeque::from(vec![0x0502]));
}

#[test]
fn frame_steps_one_by_one() {
    assert_eq!(Frame::Clearing.pending(), Request::Clear(0x4000));
    assert_eq!(Frame::Clearing.resume(Reply::Done), Step::Pending(Frame::Presenting));
    assert_eq!(Frame::Presenting.pending(), Request::SwapBuffers);
    assert_eq!(Frame::Presenting.resume(Reply::Done), Step::Pending(Frame::Polling));
    assert_eq!(Frame::Polling.pending(), Request::GetError);
    assert_eq!(Frame::Polling.resume(Reply::ErrorFlag(0)), Step::Done(()));
    assert_eq!(
        Frame::Polling.resume(Reply::ErrorFlag(0x0507)),
        Step::Pending(Frame::Reporting { error: GlError::ContextLost })
    );
    let reporting = Frame::Reporting { error: GlError::ContextLost };
    assert_eq!(reporting.pending(), Request::Report(GlError::ContextLost));
    assert_eq!(reporting.resume(Reply::Done), Step::Pending(Frame::Polling));
    assert_eq!(Frame::Polling.resume(Reply::Done), Step::Pending(Frame::Polling));
    assert_eq!(Frame::Clearing.resume(Reply::ErrorFlag(0)), Step::Pending(Frame::Clearing));
}

#[test]
fn three_frames_present_three_times_and_surface_each_injected_error_once() {
    let mut driver = Driver::new(VERT, FRAG);
    let mut renderer = driver.complete(Renderer::new()).expect("setup failed");
    let deltas = [
        Span::new(0, 16_000_000).unwrap(),
        Span::new(0, 16_000_000).unwrap(),
        Span::new(0, 33_000_000).unwrap(),
    ];
    let injected = [vec![], vec![0x0502u32, 0x0501], vec![0x0505u32]];
    let mut surfaced = Vec::new();
    for (delta, flags) in deltas.into_iter().zip(injected) {
        driver.flags.extend(flags);
        driver.reported.clear();
        driver.complete(renderer.render(delta));
        surfaced.push(driver.reported.clone());
    }
    assert_eq!(driver.presents, 3);
    assert_eq!(driver.clears, 3);
    assert_eq!(
        surfaced,
        vec![
            vec![],
            vec![GlError::InvalidOperation, GlError::InvalidValue],
            vec![GlError::OutOfMemory]
        ]
    );
    assert_eq!(driver.bound, Some(3));
    assert_eq!(renderer.release(), Request::DeleteProgram(3));
}
