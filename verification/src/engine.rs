//! The run loop: poll the events, and while none of them ends the run, tick
//! the clock and render a frame.

use vstd::prelude::*;

use crate::driver::{Reply, Request, Resumable, Step};
use crate::renderer::{Frame, Renderer};
use crate::time::{Span, Time};

verus! {

/// A key, as far as the run loop tells keys apart.
#[derive(Clone, Copy, Debug, PartialEq, Eq, Structural)]
pub enum Key {
    Escape,
    Other,
}

/// An event of the window, as far as the run loop tells events apart.
#[derive(Clone, Copy, Debug, PartialEq, Eq, Structural)]
pub enum Event {
    /// The window was asked to close.
    CloseRequested,
    /// A key went down.
    KeyPressed(Key),
    Other,
}

impl Event {
    /// Whether the event ends the run: a request to close the window does,
    /// and so does the escape key going down.
    pub open spec fn ends_run(self) -> bool {
        self == Event::CloseRequested || self == Event::KeyPressed(Key::Escape)
    }
}

/// Whether the run goes on after `events`: it does unless one of them ends
/// it.
pub open spec fn keeps_running(events: Seq<Event>) -> bool {
    forall|i: int| 0 <= i < events.len() ==> !(#[trigger] events[i]).ends_run()
}

/// The clock and the renderer of one run.
#[derive(Debug)]
pub struct Engine {
    time: Time,
    renderer: Renderer,
}

impl Engine {
    /// The engine's clock.
    pub closed spec fn time(self) -> Time {
        self.time
    }

    /// The engine's renderer.
    pub closed spec fn renderer(self) -> Renderer {
        self.renderer
    }

    /// Puts a clock and a ready renderer together.
    pub fn new(time: Time, renderer: Renderer) -> (engine: Engine)
        ensures
            engine.time() == time,
            engine.renderer() == renderer,
    {
        Engine { time, renderer }
    }

    /// Whether the run goes on after the events of one poll.
    pub fn handle_events(events: &Vec<Event>) -> (running: bool)
        ensures
            running == keeps_running(events@),
    {
        let mut running = true;
        let mut seen: usize = 0;
        while seen < events.len()
            invariant
                seen <= events.len(),
                running == keeps_running(events@.take(seen as int)),
            decreases events.len() - seen,
        {
            match events[seen] {
                Event::CloseRequested => {
                    running = false;
                },
                Event::KeyPressed(Key::Escape) => {
                    running = false;
                },
                _ => {},
            }
            proof {
                let before = events@.take(seen as int);
                let after = events@.take(seen + 1);
                assert(after[seen as int] == events@[seen as int]);
                assert(forall|i: int| 0 <= i < before.len() ==> before[i] == after[i]);
            }
            seen += 1;
        }
        proof {
            assert(events@.take(seen as int) =~= events@);
        }
        running
    }

    /// The time between the last two ticks of the engine's clock.
    pub fn delta_time(&self) -> (delta: Span)
        ensures
            delta@ == self.time()@.delta,
    {
        self.time.delta_time()
    }

    /// Starts the run loop.
    pub fn run_main_loop(self) -> (run: MainLoop)
        ensures
            run == (MainLoop::Polling { engine: self }),
    {
        MainLoop::Polling { engine: self }
    }

    /// Gives the engine up: the request that deletes its renderer's
    /// program.
    pub fn release(self) -> (request: Request)
        ensures
            request == Request::DeleteProgram(self.renderer().program().id()),
    {
        self.renderer.release()
    }
}

/// The run loop between two requests. Each state names the request that it
/// waits on.
#[derive(Debug)]
pub enum MainLoop {
    /// Waits on the events.
    Polling { engine: Engine },
    /// A frame is on its way.
    Rendering { engine: Engine, frame: Frame },
}

impl MainLoop {
    /// The request that the loop waits on.
    pub open spec fn request(&self) -> Request {
        match *self {
            MainLoop::Polling { .. } => Request::PollEvents,
            MainLoop::Rendering { frame, .. } => frame.request(),
        }
    }

    /// Whether `step` is where the loop stands after `reply`.
    ///
    /// Events that end the run end the loop, which hands its engine back.
    /// After any other events the engine's clock ticks, at a time that the
    /// system's clock decides, and a frame starts. While a frame is on its
    /// way the answers go to it, and when it ends the loop polls again. An
    /// answer of the wrong shape leaves the loop where it is.
    pub open spec fn allows(self, reply: Reply, step: Step<MainLoop, Engine>) -> bool {
        match self {
            MainLoop::Polling { engine } => match reply {
                Reply::Events(events) => if keeps_running(events@) {
                    &&& step matches Step::Pending(MainLoop::Rendering { engine: ticked, frame })
                    &&& frame == Frame::Clearing
                    &&& ticked.renderer() == engine.renderer()
                    &&& ticked.time()@ == engine.time()@.tick(ticked.time()@.last_update)
                } else {
                    step == Step::<MainLoop, Engine>::Done(engine)
                },
                _ => step == Step::<MainLoop, Engine>::Pending(self),
            },
            MainLoop::Rendering { engine, frame } => match frame.next(reply) {
                Step::Pending(frame) => step == Step::<MainLoop, Engine>::Pending(
                    MainLoop::Rendering { engine, frame },
                ),
                Step::Done(_) => step == Step::<MainLoop, Engine>::Pending(
                    MainLoop::Polling { engine },
                ),
            },
        }
    }

    /// The engine that runs the loop.
    pub open spec fn engine(&self) -> Engine {
        match *self {
            MainLoop::Polling { engine } => engine,
            MainLoop::Rendering { engine, .. } => engine,
        }
    }

    /// The time between the last two ticks of the loop's clock.
    pub fn delta_time(&self) -> (delta: Span)
        ensures
            delta@ == self.engine().time()@.delta,
    {
        match self {
            MainLoop::Polling { engine } => engine.delta_time(),
            MainLoop::Rendering { engine, .. } => engine.delta_time(),
        }
    }

    /// The request that the loop waits on.
    pub fn pending(&self) -> (request: Request)
        ensures
            request == self.request(),
    {
        match self {
            MainLoop::Polling { .. } => Request::PollEvents,
            MainLoop::Rendering { frame, .. } => frame.pending(),
        }
    }

    /// Takes the answer to the pending request and moves on.
    pub fn resume(self, reply: Reply) -> (step: Step<MainLoop, Engine>)
        ensures
            self.allows(reply, step),
    {
        match self {
            MainLoop::Polling { engine } => match reply {
                Reply::Events(events) => if Engine::handle_events(&events) {
                    let mut engine = engine;
                    engine.time.update();
                    let frame = engine.renderer.render(engine.time.delta_time());
                    Step::Pending(MainLoop::Rendering { engine, frame })
                } else {
                    Step::Done(engine)
                },
                _ => Step::Pending(MainLoop::Polling { engine }),
            },
            MainLoop::Rendering { engine, frame } => match frame.resume(reply) {
                Step::Pending(frame) => Step::Pending(MainLoop::Rendering { engine, frame }),
                Step::Done(_) => Step::Pending(MainLoop::Polling { engine }),
            },
        }
    }
}

} // verus!
