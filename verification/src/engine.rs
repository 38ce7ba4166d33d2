//! The running session and its main loop.
//!
//! One iteration of the loop drains the event poll, runs the logic step and
//! renders a frame. A quit met while draining stops the loop, but only once
//! that iteration's frame is out.
use crate::event::{DrawCall, Event};
use vstd::prelude::*;

verus! {

/// The session: the display surface, the image drawn on it, and whether the
/// main loop is still to go on. `S` is the driver's surface handle; the
/// session owns both handles and never looks inside them.
#[derive(Debug, PartialEq, Eq)]
pub struct Engine<S> {
    surface: S,
    image: S,
    running: bool,
}

/// What a session holds, as contracts see it.
pub ghost struct EngineView<S> {
    pub surface: S,
    pub image: S,
    pub running: bool,
}

impl<S> View for Engine<S> {
    type V = EngineView<S>;

    closed spec fn view(&self) -> EngineView<S> {
        EngineView { surface: self.surface, image: self.image, running: self.running }
    }
}

/// What the driver does after it has handed one event to the session.
#[derive(Debug, PartialEq, Eq)]
pub enum Step {
    /// The drain goes on: poll again.
    Poll,
    /// The drain is over. Make `draws` in order; then poll again if `again`,
    /// else the loop has ended.
    Frame { draws: Vec<DrawCall>, again: bool },
}

/// What a run of the main loop over a recorded feed did.
#[derive(Debug, PartialEq, Eq)]
pub struct Run {
    /// Every draw call made, in order.
    pub draws: Vec<DrawCall>,
    /// How many events were taken from the feed.
    pub polls: usize,
}

/// The outcome of a run, in numbers.
pub ghost struct Trace {
    /// Whether the session is still running afterwards.
    pub running: bool,
    /// How many frames were rendered.
    pub frames: nat,
    /// How many events were taken from the feed.
    pub polls: nat,
}

/// The draw calls of one frame: the image is copied onto the display, then
/// the buffer is presented.
pub open spec fn frame() -> Seq<DrawCall> {
    seq![DrawCall::Blit, DrawCall::Flip]
}

/// The draw calls of `n` frames on end.
pub open spec fn frames(n: nat) -> Seq<DrawCall>
    decreases n,
{
    if n == 0 {
        Seq::empty()
    } else {
        frames((n - 1) as nat) + frame()
    }
}

/// How many events the drain at the head of `feed` takes: all up to and
/// including the first `NoEvent`, or the whole feed where it holds none.
pub open spec fn drain_polls(feed: Seq<Event>) -> nat
    decreases feed.len(),
{
    if feed.len() == 0 {
        0
    } else if feed[0] == Event::NoEvent {
        1
    } else {
        1 + drain_polls(feed.skip(1))
    }
}

/// Whether the drain at the head of `feed` meets a `Quit`.
pub open spec fn drain_quits(feed: Seq<Event>) -> bool
    decreases feed.len(),
{
    if feed.len() == 0 || feed[0] == Event::NoEvent {
        false
    } else {
        feed[0] == Event::Quit || drain_quits(feed.skip(1))
    }
}

/// The main loop over `feed`, the successive answers of the event poll.
///
/// Nothing happens unless the session is running and the feed holds an
/// event. Otherwise one iteration runs: its drain takes `drain_polls(feed)`
/// events, a frame is rendered, and the loop goes on over what is left of the
/// feed, stopped if the drain met a quit.
pub open spec fn trace(running: bool, feed: Seq<Event>) -> Trace
    decreases feed.len(),
{
    if !running || feed.len() == 0 {
        Trace { running, frames: 0, polls: 0 }
    } else {
        let polls = drain_polls(feed);
        proof {
            drain_polls_bounds(feed);
        }
        let rest = trace(!drain_quits(feed), feed.skip(polls as int));
        Trace { running: rest.running, frames: rest.frames + 1, polls: rest.polls + polls }
    }
}

/// A drain takes at least one event of a feed that holds any, and never more
/// than the feed holds.
pub proof fn drain_polls_bounds(feed: Seq<Event>)
    ensures
        drain_polls(feed) <= feed.len(),
        feed.len() > 0 ==> drain_polls(feed) >= 1,
    decreases feed.len(),
{
    if feed.len() > 0 && feed[0] != Event::NoEvent {
        drain_polls_bounds(feed.skip(1));
    }
}

impl<S> Engine<S> {
    /// A running session over a display surface and an image in its format.
    pub fn new(surface: S, image: S) -> (engine: Self)
        ensures
            engine@ == (EngineView { surface, image, running: true }),
    {
        Engine { surface, image, running: true }
    }

    /// Whether the main loop is still to go on.
    pub fn is_running(&self) -> (running: bool)
        ensures
            running == self@.running,
    {
        self.running
    }

    /// The display surface.
    pub fn surface(&self) -> (surface: &S)
        ensures
            *surface == self@.surface,
    {
        &self.surface
    }

    /// The image, in the display's format.
    pub fn image(&self) -> (image: &S)
        ensures
            *image == self@.image,
    {
        &self.image
    }

    /// Takes one answer of the event poll.
    ///
    /// `Quit` stops the session and `Other` is passed over; after either the
    /// drain goes on. `NoEvent` ends the drain: the logic step runs, and the
    /// frame comes back with the word on whether another iteration follows.
    pub fn on_event(&mut self, event: Event) -> (step: Step)
        ensures
            final(self)@.surface == old(self)@.surface,
            final(self)@.image == old(self)@.image,
            final(self)@.running == (old(self)@.running && event != Event::Quit),
            event != Event::NoEvent ==> step is Poll,
            event == Event::NoEvent ==> (step matches Step::Frame { draws, again }
                && draws@ == frame() && again == old(self)@.running),
    {
        match event {
            Event::Quit => {
                self.running = false;
                Step::Poll
            },
            Event::NoEvent => {
                self.on_loop();
                let draws = self.on_render();
                Step::Frame { draws, again: self.running }
            },
            Event::Other => Step::Poll,
        }
    }

    /// The logic step of an iteration. There is no logic yet: the session
    /// comes out as it went in.
    pub fn on_loop(&mut self)
        ensures
            *final(self) == *old(self),
    {
    }

    /// The render step of an iteration: the draw calls of one frame, for the
    /// driver to make in order. No outcome of a draw call comes back to the
    /// session, so a blit or flip that fails leaves it running.
    pub fn on_render(&self) -> (draws: Vec<DrawCall>)
        ensures
            draws@ == frame(),
    {
        let mut draws: Vec<DrawCall> = Vec::new();
        draws.push(DrawCall::Blit);
        draws.push(DrawCall::Flip);
        draws
    }

    /// Runs the main loop over `feed`, the successive answers of the event
    /// poll. Once the feed is used up nothing is pending, so a drain under
    /// way ends as on `NoEvent`; no new iteration starts on a feed used up.
    ///
    /// The run ends with the session stopped, or still running at the start
    /// of an iteration with the feed used up.
    pub fn on_execute(&mut self, feed: &Vec<Event>) -> (run: Run)
        ensures
            final(self)@.surface == old(self)@.surface,
            final(self)@.image == old(self)@.image,
            final(self)@.running == trace(old(self)@.running, feed@).running,
            run.draws@ == frames(trace(old(self)@.running, feed@).frames),
            run.polls == trace(old(self)@.running, feed@).polls,
    {
        let ghost start = self@;
        let mut draws: Vec<DrawCall> = Vec::new();
        let mut polls: usize = 0;
        let ghost mut rendered: nat = 0;
        proof {
            assert(feed@.skip(0) =~= feed@);
        }
        while self.running && polls < feed.len()
            invariant
                polls <= feed.len(),
                self@.surface == start.surface,
                self@.image == start.image,
                draws@ == frames(rendered),
                trace(start.running, feed@).running
                    == trace(self@.running, feed@.skip(polls as int)).running,
                trace(start.running, feed@).frames
                    == rendered + trace(self@.running, feed@.skip(polls as int)).frames,
                trace(start.running, feed@).polls
                    == polls + trace(self@.running, feed@.skip(polls as int)).polls,
            decreases feed.len() - polls,
        {
            let ghost head = polls;
            let ghost ahead = feed@.skip(polls as int);
            let mut draining = true;
            while draining
                invariant
                    head <= polls <= feed.len(),
                    head < polls || (draining && polls < feed.len()),
                    ahead == feed@.skip(head as int),
                    self@.surface == start.surface,
                    self@.image == start.image,
                    draining ==> draws@ == frames(rendered),
                    draining ==> drain_polls(ahead) == (polls - head) + drain_polls(
                        feed@.skip(polls as int),
                    ),
                    draining ==> drain_quits(ahead) == (!self@.running || drain_quits(
                        feed@.skip(polls as int),
                    )),
                    !draining ==> draws@ == frames(rendered + 1),
                    !draining ==> drain_polls(ahead) == polls - head,
                    !draining ==> drain_quits(ahead) == !self@.running,
                decreases feed.len() - polls + (if draining { 1int } else { 0int }),
            {
                let event = if polls < feed.len() {
                    let event = feed[polls];
                    proof {
                        assert(feed@.skip(polls as int).skip(1) =~= feed@.skip(polls + 1));
                    }
                    polls = polls + 1;
                    event
                } else {
                    Event::NoEvent
                };
                match self.on_event(event) {
                    Step::Poll => {},
                    Step::Frame { draws: mut made, .. } => {
                        draws.append(&mut made);
                        draining = false;
                    },
                }
            }
            proof {
                assert(ahead.skip(polls - head) =~= feed@.skip(polls as int));
                rendered = rendered + 1;
            }
        }
        Run { draws, polls }
    }
}

/// `n` frames are `n` blits and `n` flips, turn about: each frame is
/// presented before the next is drawn.
pub proof fn frames_alternate(n: nat)
    ensures
        frames(n).len() == 2 * n,
        forall|i: int|
            0 <= i < 2 * n ==> #[trigger] frames(n)[i] == if i % 2 == 0 {
                DrawCall::Blit
            } else {
                DrawCall::Flip
            },
    decreases n,
{
    if n > 0 {
        frames_alternate((n - 1) as nat);
    }
}

/// A feed of `n` idle polls: nothing pending, `n` times over.
pub open spec fn idle(n: nat) -> Seq<Event> {
    Seq::new(n, |i: int| Event::NoEvent)
}

/// Idle iterations, then a quit: a running session that polls nothing for
/// `n` iterations and then a quit renders `n + 1` frames and stops. The
/// iteration that meets the quit still renders, and its drain takes what
/// `tail` holds up to the next `NoEvent`; nothing after that is polled.
pub proof fn idle_then_quit(n: nat, tail: Seq<Event>)
    ensures
        trace(true, idle(n) + seq![Event::Quit] + tail) == (Trace {
            running: false,
            frames: n + 1,
            polls: n + 1 + drain_polls(tail),
        }),
    decreases n,
{
    let feed = idle(n) + seq![Event::Quit] + tail;
    if n == 0 {
        assert(feed.skip(1) =~= tail);
        assert(trace(false, feed.skip(drain_polls(feed) as int)).frames == 0);
    } else {
        assert(feed.skip(1) =~= idle((n - 1) as nat) + seq![Event::Quit] + tail);
        idle_then_quit((n - 1) as nat, tail);
    }
}

/// A drain meets a quit exactly when one stands among the events it takes.
pub proof fn drain_quits_within(feed: Seq<Event>)
    ensures
        drain_quits(feed) <==> feed.take(drain_polls(feed) as int).contains(Event::Quit),
    decreases feed.len(),
{
    let taken = feed.take(drain_polls(feed) as int);
    drain_polls_bounds(feed);
    if feed.len() == 0 {
    } else if feed[0] == Event::NoEvent {
        assert(taken =~= seq![Event::NoEvent]);
        if taken.contains(Event::Quit) {
            let i = choose|i: int| 0 <= i < taken.len() && taken[i] == Event::Quit;
            assert(taken[i] == Event::NoEvent);
        }
    } else {
        let rest = feed.skip(1);
        let rest_taken = rest.take(drain_polls(rest) as int);
        drain_quits_within(rest);
        drain_polls_bounds(rest);
        assert(taken =~= seq![feed[0]] + rest_taken);
        if feed[0] == Event::Quit {
            assert(taken[0] == Event::Quit);
        } else if rest_taken.contains(Event::Quit) {
            let i = choose|i: int| 0 <= i < rest_taken.len() && rest_taken[i] == Event::Quit;
            assert(taken[i + 1] == Event::Quit);
        } else if taken.contains(Event::Quit) {
            let i = choose|i: int| 0 <= i < taken.len() && taken[i] == Event::Quit;
            assert(rest_taken[i - 1] == Event::Quit);
        }
    }
}

/// The loop ends stopped exactly when the feed holds a quit: no run passes
/// one by, and nothing else stops a session.
pub proof fn stops_exactly_on_quit(running: bool, feed: Seq<Event>)
    ensures
        trace(running, feed).running == (running && !feed.contains(Event::Quit)),
    decreases feed.len(),
{
    if running && feed.len() > 0 {
        let polls = drain_polls(feed) as int;
        let taken = feed.take(polls);
        let left = feed.skip(polls);
        drain_polls_bounds(feed);
        drain_quits_within(feed);
        stops_exactly_on_quit(!drain_quits(feed), left);
        assert(feed =~= taken + left);
        if taken.contains(Event::Quit) {
            let i = choose|i: int| 0 <= i < taken.len() && taken[i] == Event::Quit;
            assert(feed[i] == Event::Quit);
        }
        if left.contains(Event::Quit) {
            let i = choose|i: int| 0 <= i < left.len() && left[i] == Event::Quit;
            assert(feed[polls + i] == Event::Quit);
        }
        if feed.contains(Event::Quit) {
            let i = choose|i: int| 0 <= i < feed.len() && feed[i] == Event::Quit;
            if i < polls {
                assert(taken[i] == Event::Quit);
            } else {
                assert(left[i - polls] == Event::Quit);
            }
        }
    } else if feed.len() == 0 && feed.contains(Event::Quit) {
        let i = choose|i: int| 0 <= i < feed.len() && feed[i] == Event::Quit;
    }
}

/// A run never takes more than the feed holds, and one that ends with the
/// session still running has taken all of it.
pub proof fn polls_within_feed(running: bool, feed: Seq<Event>)
    ensures
        trace(running, feed).polls <= feed.len(),
        trace(running, feed).running ==> trace(running, feed).polls == feed.len(),
    decreases feed.len(),
{
    if running && feed.len() > 0 {
        drain_polls_bounds(feed);
        polls_within_feed(!drain_quits(feed), feed.skip(drain_polls(feed) as int));
    }
}

} // verus!
