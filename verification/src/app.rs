use vstd::prelude::*;
use crate::clock::{elapsed, since};
use crate::context::Context;
use crate::error::{Error, Issue};
use crate::event::{Event, EventHandler, KeyCode, MouseButton};
use crate::mouse::Mouse;
use crate::scalar::Scalar;

verus! {

/// Where the frame loop stands: the step that is in progress, or how the
/// loop has ended.
#[derive(Clone, Copy, Debug, PartialEq, Eq, Structural)]
pub enum Stage {
    Poll,
    Tick,
    Update,
    Clear,
    Draw,
    Present,
    /// The window was closed: the loop has ended without an error.
    Closed,
    /// A step failed: the loop has ended with that step's error.
    Failed,
}

/// What is to be done next.  The driver of the loop, which owns the
/// window and its event source, carries each step out through the function
/// named with it.
#[derive(Clone, Copy, Debug, PartialEq, Eq)]
pub enum Step {
    /// Drain the pending input events and hand them to `poll`.
    Poll,
    /// Read the clock and hand the time to `tick`.
    Tick,
    /// Call `update`, which calls the handler.
    Update,
    /// Clear the framebuffer to `color` and report with `advance`.
    Clear { color: [Scalar; 4] },
    /// Call `draw`, which calls the handler.
    Draw,
    /// Present the framebuffer and report with `advance`.
    Present,
    /// Leave the loop.
    Exit,
}

/// One thing that happens to the loop: an input event is taken in, the
/// clock is read, the handler leaves the context changed, or the step in
/// progress ends, well (`true`) or with an error.
pub enum Call<D> {
    Event(Event),
    Clock(u64),
    Handler(Context<D>),
    Outcome(bool),
}

/// The frame loop: the shared context and the place in the fixed order
/// poll, tick, update, clear, draw, present.
#[derive(Clone, Copy, Debug, PartialEq, Eq)]
pub struct App<D> {
    pub ctx: Context<D>,
    pub stage: Stage,
    /// Whether a request to close the window has been seen.
    pub closed: bool,
    /// When the clock was last read, in nanoseconds on the driver's clock.
    pub last_frame: u64,
    /// The nanoseconds that passed between the last two readings of the
    /// clock: the time that the iteration before this one took.
    pub delta: u64,
}

impl Stage {
    /// Whether the loop has ended.
    pub open spec fn is_terminal(self) -> bool {
        self is Closed || self is Failed
    }

    /// Whether the stage is part of producing a frame.
    pub open spec fn is_frame_work(self) -> bool {
        self is Tick || self is Update || self is Clear || self is Draw || self is Present
    }

    /// The stage that follows `self` once its step has ended well (`ok`) or
    /// with an error, where `closed` says whether a request to close has
    /// been seen.
    ///
    /// An error ends the loop.  A request to close ends it right after the
    /// poll that saw it, so that the rest of that iteration is skipped, and
    /// where the next iteration would begin.
    pub open spec fn next(self, closed: bool, ok: bool) -> Stage {
        match self {
            Stage::Closed => Stage::Closed,
            Stage::Failed => Stage::Failed,
            _ if !ok => Stage::Failed,
            Stage::Poll => if closed {
                Stage::Closed
            } else {
                Stage::Tick
            },
            Stage::Tick => Stage::Update,
            Stage::Update => Stage::Clear,
            Stage::Clear => Stage::Draw,
            Stage::Draw => Stage::Present,
            Stage::Present => if closed {
                Stage::Closed
            } else {
                Stage::Poll
            },
        }
    }
}

/// The key that an event asks to be forwarded to the handler: the key of
/// a keyboard event that the window system could resolve.
pub open spec fn forwarded_key(event: Event) -> Option<KeyCode> {
    match event {
        Event::KeyboardInput { key } => key,
        _ => None,
    }
}

/// Whether some event of `events` has a key to be forwarded.
pub open spec fn has_key(events: Seq<Event>) -> bool {
    exists|i: int| 0 <= i < events.len() && forwarded_key(#[trigger] events[i]) is Some
}

impl<D> App<D> {
    /// The loop before its first poll, set up over `device` at the time
    /// `now`.
    pub open spec fn initial(device: D, now: u64) -> App<D> {
        App {
            ctx: Context::initial(device),
            stage: Stage::Poll,
            closed: false,
            last_frame: now,
            delta: 0,
        }
    }

    /// `self` with the pointer state replaced by `mouse`.
    pub open spec fn with_mouse(self, mouse: Mouse) -> App<D> {
        App { ctx: Context { mouse_context: mouse, ..self.ctx }, ..self }
    }

    /// The loop after `event` has been taken in: a request to close is
    /// remembered, a movement of the pointer and a change of the left, the
    /// right or the middle button are stored in the pointer state.
    pub open spec fn after_event(self, event: Event) -> App<D> {
        let mouse = self.ctx.mouse_context;
        match event {
            Event::CloseRequested => App { closed: true, ..self },
            Event::CursorMoved { x, y } => self.with_mouse(Mouse { pos: (x, y), ..mouse }),
            Event::MouseInput { button: MouseButton::Left, pressed } => self.with_mouse(
                Mouse { pressed: (pressed, mouse.pressed.1, mouse.pressed.2), ..mouse },
            ),
            Event::MouseInput { button: MouseButton::Right, pressed } => self.with_mouse(
                Mouse { pressed: (mouse.pressed.0, pressed, mouse.pressed.2), ..mouse },
            ),
            Event::MouseInput { button: MouseButton::Middle, pressed } => self.with_mouse(
                Mouse { pressed: (mouse.pressed.0, mouse.pressed.1, pressed), ..mouse },
            ),
            _ => self,
        }
    }

    /// The loop after `events` have been taken in, in order.
    pub open spec fn after_events(self, events: Seq<Event>) -> App<D>
        decreases events.len(),
    {
        if events.len() == 0 {
            self
        } else {
            self.after_events(events.drop_last()).after_event(events.last())
        }
    }

    /// The loop after the clock has been read at the time `now`.
    pub open spec fn after_clock(self, now: u64) -> App<D> {
        App { last_frame: now, delta: elapsed(self.last_frame, now), ..self }
    }

    /// The loop after the step in progress has ended, well (`ok`) or with
    /// an error.
    pub open spec fn after_outcome(self, ok: bool) -> App<D> {
        App { stage: self.stage.next(self.closed, ok), ..self }
    }

    /// The loop after `call`.
    pub open spec fn after_call(self, call: Call<D>) -> App<D> {
        match call {
            Call::Event(event) => self.after_event(event),
            Call::Clock(now) => self.after_clock(now),
            Call::Handler(ctx) => App { ctx, ..self },
            Call::Outcome(ok) => self.after_outcome(ok),
        }
    }

    /// The loop after `calls`, in order.
    pub open spec fn after_calls(self, calls: Seq<Call<D>>) -> App<D>
        decreases calls.len(),
    {
        if calls.len() == 0 {
            self
        } else {
            self.after_calls(calls.drop_last()).after_call(calls.last())
        }
    }

    /// The step that belongs to the stage the loop is in.
    pub open spec fn spec_step(&self) -> Step {
        match self.stage {
            Stage::Poll => Step::Poll,
            Stage::Tick => Step::Tick,
            Stage::Update => Step::Update,
            Stage::Clear => Step::Clear { color: self.ctx.background_color },
            Stage::Draw => Step::Draw,
            Stage::Present => Step::Present,
            Stage::Closed | Stage::Failed => Step::Exit,
        }
    }

    /// A frame loop about to poll for the first time, over a fresh context
    /// with `device`.  `now` is the time on the driver's clock, in
    /// nanoseconds.
    pub fn new(device: D, now: u64) -> (app: App<D>)
        ensures
            app == App::initial(device, now),
    {
        App {
            ctx: Context::new(device),
            stage: Stage::Poll,
            closed: false,
            last_frame: now,
            delta: 0,
        }
    }

    /// The step to be carried out now.
    #[verifier::when_used_as_spec(spec_step)]
    pub fn step(&self) -> (step: Step)
        ensures
            step == self.spec_step(),
    {
        match self.stage {
            Stage::Poll => Step::Poll,
            Stage::Tick => Step::Tick,
            Stage::Update => Step::Update,
            Stage::Clear => Step::Clear { color: self.ctx.background_color },
            Stage::Draw => Step::Draw,
            Stage::Present => Step::Present,
            Stage::Closed | Stage::Failed => Step::Exit,
        }
    }

    /// Takes in one input event and returns the key that is to be
    /// forwarded to the handler, if the event has one.
    pub fn handle_event(&mut self, event: Event) -> (key: Option<KeyCode>)
        ensures
            *final(self) == old(self).after_event(event),
            key == forwarded_key(event),
    {
        match event {
            Event::CloseRequested => {
                self.closed = true;
                None
            },
            Event::CursorMoved { x, y } => {
                self.ctx.mouse_context.pos = (x, y);
                None
            },
            Event::MouseInput { button, pressed } => {
                match button {
                    MouseButton::Left => {
                        self.ctx.mouse_context.pressed.0 = pressed;
                    },
                    MouseButton::Right => {
                        self.ctx.mouse_context.pressed.1 = pressed;
                    },
                    MouseButton::Middle => {
                        self.ctx.mouse_context.pressed.2 = pressed;
                    },
                    MouseButton::Other(_) => {},
                }
                None
            },
            Event::KeyboardInput { key } => key,
            Event::Other => None,
        }
    }

    /// Ends the step in progress with `outcome` and returns the step that
    /// follows.  An error ends the loop and is handed back; once the loop
    /// has ended, every call gives `Step::Exit`.
    ///
    /// The driver reports with this the steps that it carries out alone:
    /// clearing and presenting.
    pub fn advance(&mut self, outcome: Issue<()>) -> (next: Issue<Step>)
        ensures
            *final(self) == old(self).after_outcome(outcome is Ok),
            match outcome {
                Err(error) if !old(self).stage.is_terminal() => next == Err::<Step, Error>(error),
                _ => next == Ok::<Step, Error>(final(self).step()),
            },
    {
        let terminal = match self.stage {
            Stage::Closed | Stage::Failed => true,
            _ => false,
        };
        if !terminal {
            if let Err(error) = outcome {
                self.stage = Stage::Failed;
                return Err(error);
            }
        }
        self.stage = match self.stage {
            Stage::Closed => Stage::Closed,
            Stage::Failed => Stage::Failed,
            Stage::Poll => if self.closed {
                Stage::Closed
            } else {
                Stage::Tick
            },
            Stage::Tick => Stage::Update,
            Stage::Update => Stage::Clear,
            Stage::Clear => Stage::Draw,
            Stage::Draw => Stage::Present,
            Stage::Present => if self.closed {
                Stage::Closed
            } else {
                Stage::Poll
            },
        };
        Ok(self.step())
    }

    /// Takes in one input event and forwards its key, if it has one, to
    /// the handler's `key_down_event`.
    ///
    /// Where the event has no key to forward, the handler is not called
    /// and the loop is as `after_event` says.  Where it has one, the stage,
    /// the request to close and the times are as before, and the context is
    /// as the handler left it.
    pub fn dispatch<H: EventHandler<Device = D>>(&mut self, handler: &mut H, event: Event)
        ensures
            final(self).stage == old(self).stage,
            final(self).closed == old(self).after_event(event).closed,
            final(self).last_frame == old(self).last_frame,
            final(self).delta == old(self).delta,
            forwarded_key(event) is None ==> *final(self) == old(self).after_event(event)
                && *final(handler) == *old(handler),
    {
        if let Some(key) = self.handle_event(event) {
            handler.key_down_event(&mut self.ctx, key);
        }
    }

    /// Carries out the poll, if that is the step in progress: takes in
    /// `events`, which the driver has drained from the event source, one
    /// after the other, forwards each key to the handler as it comes, and
    /// ends the step.  Returns the step to be carried out next.
    ///
    /// The loop ends here where a request to close was among the events or
    /// had been seen before.  Where no event has a key to forward, the
    /// handler is not called and the loop is as `after_events` says.
    ///
    /// Where the poll is not the step in progress, nothing happens.
    pub fn poll<H: EventHandler<Device = D>>(
        &mut self,
        handler: &mut H,
        events: &Vec<Event>,
    ) -> (next: Step)
        ensures
            next == final(self).step(),
            final(self).last_frame == old(self).last_frame,
            final(self).delta == old(self).delta,
            old(self).stage !is Poll ==> *final(self) == *old(self)
                && *final(handler) == *old(handler),
            old(self).stage is Poll ==> {
                &&& final(self).closed == (old(self).closed || events@.contains(
                    Event::CloseRequested,
                ))
                &&& final(self).stage == Stage::Poll.next(final(self).closed, true)
                &&& !has_key(events@) ==> *final(self) == old(self).after_events(
                    events@,
                ).after_outcome(true) && *final(handler) == *old(handler)
            },
    {
        match self.stage {
            Stage::Poll => {},
            _ => {
                return self.step();
            },
        }
        let mut i: usize = 0;
        while i < events.len()
            invariant
                i <= events@.len(),
                self.stage is Poll,
                self.last_frame == old(self).last_frame,
                self.delta == old(self).delta,
                self.closed == old(self).after_events(events@.take(i as int)).closed,
                !has_key(events@.take(i as int)) ==> *self == old(self).after_events(
                    events@.take(i as int),
                ) && *handler == *old(handler),
            decreases events@.len() - i,
        {
            proof {
                let before = events@.take(i as int);
                let with = events@.take(i + 1);
                assert(with.drop_last() =~= before);
                assert(with.last() == events@[i as int]);
                if !has_key(with) {
                    assert(forwarded_key(with[i as int]) is None);
                    assert forall|j: int| 0 <= j < before.len() implies forwarded_key(
                        #[trigger] before[j],
                    ) is None by {
                        assert(forwarded_key(with[j]) is None);
                    }
                }
            }
            self.dispatch(handler, events[i]);
            i = i + 1;
        }
        proof {
            assert(events@.take(i as int) =~= events@);
            lemma_events_keep_stage(*old(self), events@);
        }
        self.stage = if self.closed {
            Stage::Closed
        } else {
            Stage::Tick
        };
        self.step()
    }

    /// Carries out the tick, if that is the step in progress: takes the
    /// time `now` that the driver has read from its clock, so that `delta`
    /// is the time since the clock was last read, and ends the step.
    /// Returns the step to be carried out next.
    ///
    /// Where the tick is not the step in progress, nothing happens.
    pub fn tick(&mut self, now: u64) -> (next: Step)
        ensures
            next == final(self).step(),
            old(self).stage !is Tick ==> *final(self) == *old(self),
            old(self).stage is Tick ==> *final(self) == old(self).after_clock(now).after_outcome(
                true,
            ),
    {
        match self.stage {
            Stage::Tick => {
                self.delta = since(self.last_frame, now);
                self.last_frame = now;
                self.stage = Stage::Update;
            },
            _ => {},
        }
        self.step()
    }

    /// Carries out the update, if that is the step in progress: calls the
    /// handler's `update` and ends the step with what it returns.  Returns
    /// the step to be carried out next, or the handler's error, which ends
    /// the loop.
    ///
    /// Where the update is not the step in progress, the handler is not
    /// called and nothing happens.
    pub fn update<H: EventHandler<Device = D>>(&mut self, handler: &mut H) -> (next: Issue<Step>)
        ensures
            next matches Ok(step) ==> step == final(self).step(),
            final(self).closed == old(self).closed,
            final(self).last_frame == old(self).last_frame,
            final(self).delta == old(self).delta,
            old(self).stage !is Update ==> {
                &&& next is Ok
                &&& *final(self) == *old(self)
                &&& *final(handler) == *old(handler)
            },
            old(self).stage is Update ==> final(self).stage == Stage::Update.next(
                old(self).closed,
                next is Ok,
            ),
    {
        match self.stage {
            Stage::Update => {
                let outcome = handler.update(&mut self.ctx);
                self.advance(outcome)
            },
            _ => Ok(self.step()),
        }
    }

    /// Carries out the draw, if that is the step in progress: calls the
    /// handler's `draw` with `target` and ends the step with what it
    /// returns.  Returns the step to be carried out next, or the handler's
    /// error, which ends the loop.
    ///
    /// Where the draw is not the step in progress, the handler is not
    /// called and nothing happens.
    pub fn draw<H: EventHandler<Device = D>>(
        &mut self,
        handler: &mut H,
        target: &mut H::Target,
    ) -> (next: Issue<Step>)
        ensures
            next matches Ok(step) ==> step == final(self).step(),
            final(self).closed == old(self).closed,
            final(self).last_frame == old(self).last_frame,
            final(self).delta == old(self).delta,
            old(self).stage !is Draw ==> {
                &&& next is Ok
                &&& *final(self) == *old(self)
                &&& *final(handler) == *old(handler)
                &&& *final(target) == *old(target)
            },
            old(self).stage is Draw ==> final(self).stage == Stage::Draw.next(
                old(self).closed,
                next is Ok,
            ),
    {
        match self.stage {
            Stage::Draw => {
                let outcome = handler.draw(&mut self.ctx, target);
                self.advance(outcome)
            },
            _ => Ok(self.step()),
        }
    }
}

/// Taking in events moves the loop to no other stage and leaves the
/// times alone, and a request to close, once seen, stays seen.
pub proof fn lemma_events_keep_stage<D>(app: App<D>, events: Seq<Event>)
    ensures
        app.after_events(events).stage == app.stage,
        app.after_events(events).last_frame == app.last_frame,
        app.after_events(events).delta == app.delta,
        app.after_events(events).closed == (app.closed || events.contains(Event::CloseRequested)),
    decreases events.len(),
{
    if events.len() > 0 {
        let front = events.drop_last();
        lemma_events_keep_stage(app, front);
        assert(events.contains(Event::CloseRequested) <==> (front.contains(Event::CloseRequested)
            || events.last() == Event::CloseRequested)) by {
            if front.contains(Event::CloseRequested) {
                let i = choose|i: int| 0 <= i < front.len() && front[i] == Event::CloseRequested;
                assert(events[i] == Event::CloseRequested);
            }
            if events.contains(Event::CloseRequested) {
                let i = choose|i: int| 0 <= i < events.len() && events[i] == Event::CloseRequested;
                if i < front.len() {
                    assert(front[i] == Event::CloseRequested);
                }
            }
        }
    }
}

/// Once the loop has ended it stays ended, whatever happens to it.
pub proof fn lemma_ended_stays_ended<D>(app: App<D>, calls: Seq<Call<D>>)
    requires
        app.stage.is_terminal(),
    ensures
        app.after_calls(calls).stage == app.stage,
    decreases calls.len(),
{
    if calls.len() > 0 {
        lemma_ended_stays_ended(app, calls.drop_last());
    }
}

/// A poll that has seen a request to close is followed by no frame work,
/// whatever happens to the loop.
proof fn lemma_closed_poll_does_no_frame_work<D>(app: App<D>, calls: Seq<Call<D>>)
    requires
        app.closed,
        app.stage is Poll || app.stage.is_terminal(),
    ensures
        app.after_calls(calls).closed,
        app.after_calls(calls).stage is Poll || app.after_calls(calls).stage.is_terminal(),
    decreases calls.len(),
{
    if calls.len() > 0 {
        lemma_closed_poll_does_no_frame_work(app, calls.drop_last());
    }
}

/// A request to close that is among the events of a poll ends the loop
/// with that poll: the rest of the iteration is skipped, the next step is
/// `Step::Exit`, and no tick, update, clear, draw or present follows,
/// whatever happens to the loop afterwards.
pub proof fn lemma_close_ends_loop<D>(app: App<D>, events: Seq<Event>, calls: Seq<Call<D>>)
    requires
        app.stage is Poll,
        events.contains(Event::CloseRequested),
    ensures
        app.after_events(events).after_outcome(true).stage is Closed,
        app.after_events(events).after_outcome(true).step() == Step::Exit,
        !app.after_events(events).after_calls(calls).stage.is_frame_work(),
{
    lemma_events_keep_stage(app, events);
    lemma_closed_poll_does_no_frame_work(app.after_events(events), calls);
}

/// The steps of a frame come in one order only: the loop enters each
/// stage from the stage before it, after that stage's step has ended well.
/// So nothing is presented that was not drawn, nothing drawn on a
/// framebuffer that was not cleared, and each frame begins with a poll
/// that saw no request to close.
pub proof fn lemma_frame_order<D>(app: App<D>, ok: bool)
    ensures
        app.after_outcome(ok).stage is Present ==> app.stage is Draw && ok,
        app.after_outcome(ok).stage is Draw ==> app.stage is Clear && ok,
        app.after_outcome(ok).stage is Clear ==> app.stage is Update && ok,
        app.after_outcome(ok).stage is Update ==> app.stage is Tick && ok,
        app.after_outcome(ok).stage is Tick ==> app.stage is Poll && ok && !app.closed,
        app.after_outcome(ok).stage is Poll ==> app.stage is Present && ok && !app.closed,
        app.after_outcome(ok).ctx == app.ctx,
{
}

} // verus!
