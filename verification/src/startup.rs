//! Bringing a session up.
//!
//! Four calls on the graphics library, each made only once the one before it
//! has succeeded: start the video subsystem, create the display surface, load
//! the bitmap, convert it to the display's pixel format. The first failure
//! ends start-up with the error of its stage.
use crate::engine::{Engine, EngineView};
use crate::error::EngineError;
use vstd::prelude::*;

verus! {

/// Width of the display surface, in pixels.
pub const DISPLAY_WIDTH: u16 = 640;

/// Height of the display surface, in pixels.
pub const DISPLAY_HEIGHT: u16 = 480;

/// Colour depth asked of the display surface, in bits per pixel.
pub const DISPLAY_DEPTH: u8 = 31;

/// Where the bitmap is read from, relative to the working directory.
pub const BITMAP_PATH: &'static str = "example.bmp";

/// The display surface to ask for.
#[derive(Clone, Copy, Debug, PartialEq, Eq, Structural)]
pub struct VideoMode {
    pub width: u16,
    pub height: u16,
    pub depth: u8,
    /// Keep the surface in video memory.
    pub hardware: bool,
    /// Draw on a back buffer that a flip presents.
    pub double_buffered: bool,
}

/// The call that start-up waits on.
#[derive(Debug, PartialEq, Eq)]
pub enum Request<'a, S> {
    /// Start the video subsystem.
    InitVideo,
    /// Create the display surface.
    SetVideoMode(VideoMode),
    /// Load the bitmap at this path.
    LoadBitmap(&'static str),
    /// Convert this bitmap to the display's pixel format.
    ConvertBitmap(&'a S),
}

/// What a call gave.
#[derive(Debug, PartialEq, Eq)]
pub enum Answer<S> {
    /// It succeeded, and there is nothing to hand over.
    Done,
    /// It succeeded with this surface.
    Surface(S),
    /// It failed, and this is the graphics library's account.
    Failed(String),
}

/// Start-up under way, named by the stage whose call is awaited.
#[derive(Debug, PartialEq, Eq)]
pub enum Startup<S> {
    /// The video subsystem is to start.
    Subsystem,
    /// The display surface is to be created.
    Display,
    /// The bitmap is to be loaded.
    Bitmap { surface: S },
    /// The bitmap is to be converted.
    Conversion { surface: S, bitmap: S },
}

/// Where start-up stands after an answer.
#[derive(Debug, PartialEq, Eq)]
pub enum Progress<S> {
    /// Another call is awaited.
    Pending(Startup<S>),
    /// The session is up.
    Ready(Engine<S>),
    /// Start-up failed; there is no session.
    Failed(EngineError),
}

/// [`Progress`] as contracts see it.
pub ghost enum ProgressView<S> {
    Pending(Startup<S>),
    Ready(EngineView<S>),
    Failed(EngineError),
}

impl<S> View for Progress<S> {
    type V = ProgressView<S>;

    open spec fn view(&self) -> ProgressView<S> {
        match self {
            Progress::Pending(startup) => ProgressView::Pending(*startup),
            Progress::Ready(engine) => ProgressView::Ready(engine@),
            Progress::Failed(error) => ProgressView::Failed(*error),
        }
    }
}

/// The display surface that start-up asks for.
pub open spec fn display_mode() -> VideoMode {
    VideoMode {
        width: DISPLAY_WIDTH,
        height: DISPLAY_HEIGHT,
        depth: DISPLAY_DEPTH,
        hardware: true,
        double_buffered: true,
    }
}

/// Whether `answer` is one that the call awaited in `startup` can give:
/// starting the subsystem hands nothing over, the other three hand over a
/// surface, and any of them can fail.
pub open spec fn fits<S>(startup: Startup<S>, answer: Answer<S>) -> bool {
    match answer {
        Answer::Done => startup is Subsystem,
        Answer::Surface(_) => !(startup is Subsystem),
        Answer::Failed(_) => true,
    }
}

/// The error of the stage that `startup` waits on, with `detail`.
pub open spec fn failure<S>(startup: Startup<S>, detail: String) -> EngineError {
    match startup {
        Startup::Subsystem => EngineError::SubsystemInit(detail),
        Startup::Display => EngineError::SurfaceCreation(detail),
        Startup::Bitmap { .. } => EngineError::ImageLoad(detail),
        Startup::Conversion { .. } => EngineError::FormatConversion(detail),
    }
}

/// Where start-up stands once `startup` has taken `answer`.
///
/// A failure ends start-up with the error of the stage. A success moves on
/// to the next stage, and from the last one to a running session over the
/// display surface and the converted bitmap. An answer that does not fit the
/// awaited call changes nothing.
pub open spec fn advanced<S>(startup: Startup<S>, answer: Answer<S>) -> ProgressView<S> {
    match (startup, answer) {
        (_, Answer::Failed(detail)) => ProgressView::Failed(failure(startup, detail)),
        (Startup::Subsystem, Answer::Done) => ProgressView::Pending(Startup::Display),
        (Startup::Display, Answer::Surface(surface)) => ProgressView::Pending(
            Startup::Bitmap { surface },
        ),
        (Startup::Bitmap { surface }, Answer::Surface(bitmap)) => ProgressView::Pending(
            Startup::Conversion { surface, bitmap },
        ),
        (Startup::Conversion { surface, bitmap }, Answer::Surface(image)) => ProgressView::Ready(
            EngineView { surface, image, running: true },
        ),
        _ => ProgressView::Pending(startup),
    }
}

/// Where start-up stands once `startup` has taken `answers` in order. What
/// follows the answer that ends start-up is not looked at.
pub open spec fn started<S>(startup: Startup<S>, answers: Seq<Answer<S>>) -> ProgressView<S>
    decreases answers.len(),
{
    if answers.len() == 0 {
        ProgressView::Pending(startup)
    } else {
        match advanced(startup, answers[0]) {
            ProgressView::Pending(next) => started(next, answers.skip(1)),
            ended => ended,
        }
    }
}

impl<S> Startup<S> {
    /// Start-up with nothing done yet.
    pub fn new() -> (startup: Self)
        ensures
            startup == Startup::<S>::Subsystem,
    {
        Startup::Subsystem
    }

    /// The call to make next, with what to hand to it.
    pub fn request(&self) -> (request: Request<'_, S>)
        ensures
            match *self {
                Startup::Subsystem => request is InitVideo,
                Startup::Display => request == Request::<S>::SetVideoMode(display_mode()),
                Startup::Bitmap { .. } => request matches Request::LoadBitmap(path)
                    && path@ == BITMAP_PATH@,
                Startup::Conversion { bitmap, .. } => request == Request::ConvertBitmap(&bitmap),
            },
    {
        match self {
            Startup::Subsystem => Request::InitVideo,
            Startup::Display => Request::SetVideoMode(
                VideoMode {
                    width: DISPLAY_WIDTH,
                    height: DISPLAY_HEIGHT,
                    depth: DISPLAY_DEPTH,
                    hardware: true,
                    double_buffered: true,
                },
            ),
            Startup::Bitmap { .. } => Request::LoadBitmap(BITMAP_PATH),
            Startup::Conversion { bitmap, .. } => Request::ConvertBitmap(bitmap),
        }
    }

    /// Takes what the awaited call gave.
    pub fn advance(self, answer: Answer<S>) -> (progress: Progress<S>)
        ensures
            progress@ == advanced(self, answer),
    {
        match answer {
            Answer::Failed(detail) => Progress::Failed(
                match self {
                    Startup::Subsystem => EngineError::SubsystemInit(detail),
                    Startup::Display => EngineError::SurfaceCreation(detail),
                    Startup::Bitmap { .. } => EngineError::ImageLoad(detail),
                    Startup::Conversion { .. } => EngineError::FormatConversion(detail),
                },
            ),
            Answer::Done => match self {
                Startup::Subsystem => Progress::Pending(Startup::Display),
                waiting => Progress::Pending(waiting),
            },
            Answer::Surface(given) => match self {
                Startup::Subsystem => Progress::Pending(Startup::Subsystem),
                Startup::Display => Progress::Pending(Startup::Bitmap { surface: given }),
                Startup::Bitmap { surface } => Progress::Pending(
                    Startup::Conversion { surface, bitmap: given },
                ),
                Startup::Conversion { surface, .. } => Progress::Ready(Engine::new(surface, given)),
            },
        }
    }
}

/// Brings a session up from `answers`, what the calls of start-up gave, in
/// the order in which they were made. Where the answers end before start-up
/// does, the stage reached comes back, waiting on its call.
pub fn Engine<S>(answers: Vec<Answer<S>>) -> (progress: Progress<S>)
    ensures
        progress@ == started(Startup::Subsystem, answers@),
{
    let mut left = answers;
    let mut startup: Startup<S> = Startup::new();
    while left.len() > 0
        invariant
            started(Startup::Subsystem, answers@) == started(startup, left@),
        decreases left.len(),
    {
        let ghost before = left@;
        let ghost waiting = startup;
        let answer = left.remove(0);
        let progress = startup.advance(answer);
        proof {
            assert(left@ =~= before.skip(1));
            assert(progress@ == advanced(waiting, before[0]));
        }
        match progress {
            Progress::Pending(next) => {
                startup = next;
            },
            Progress::Ready(engine) => {
                return Progress::Ready(engine);
            },
            Progress::Failed(error) => {
                return Progress::Failed(error);
            },
        }
    }
    Progress::Pending(startup)
}

/// Start-up takes its answers one at a time: the first decides whether the
/// rest is looked at, and from which stage.
pub proof fn started_unfolds<S>(startup: Startup<S>, first: Answer<S>, rest: Seq<Answer<S>>)
    ensures
        started(startup, seq![first] + rest) == match advanced(startup, first) {
            ProgressView::Pending(next) => started(next, rest),
            ended => ended,
        },
{
    let answers = seq![first] + rest;
    assert(answers[0] == first);
    assert(answers.skip(1) =~= rest);
}

/// An answer that the awaited call cannot give leaves start-up where it
/// was; one that it can give never does.
pub proof fn only_fitting_answers_count<S>(startup: Startup<S>, answer: Answer<S>)
    ensures
        fits(startup, answer) <==> advanced(startup, answer) != ProgressView::Pending(startup),
{
}

/// Every failure ends start-up, with the error of the stage that was
/// waiting and the account that came with the failure.
pub proof fn failure_ends_startup<S>(startup: Startup<S>, detail: String)
    ensures
        advanced(startup, Answer::Failed(detail)) == ProgressView::<S>::Failed(
            failure(startup, detail),
        ),
        failure(startup, detail).detail() == detail@,
        startup is Subsystem <==> failure(startup, detail) is SubsystemInit,
        startup is Display <==> failure(startup, detail) is SurfaceCreation,
        startup is Bitmap <==> failure(startup, detail) is ImageLoad,
        startup is Conversion <==> failure(startup, detail) is FormatConversion,
{
}

/// The stages come in one order. Start-up enters a stage only from the one
/// before it, on a success of that stage's call, and takes the surface that
/// the call gave: the bitmap is not asked for before the display surface is
/// there, nor converted before it is loaded.
pub proof fn stages_in_order<S>(startup: Startup<S>, answer: Answer<S>)
    ensures
        advanced(startup, answer) matches ProgressView::Pending(next) ==> {
            ||| next == startup
            ||| match next {
                Startup::Subsystem => false,
                Startup::Display => startup is Subsystem && answer is Done,
                Startup::Bitmap { surface } => startup is Display && answer == Answer::Surface(
                    surface,
                ),
                Startup::Conversion { surface, bitmap } => startup == (Startup::Bitmap { surface })
                    && answer == Answer::Surface(bitmap),
            }
        },
        advanced(startup, answer) matches ProgressView::Ready(engine) ==> {
            &&& startup matches Startup::Conversion { surface, .. }
            &&& engine == (EngineView { surface, image: answer->Surface_0, running: true })
            &&& answer is Surface
        },
{
}

/// Start-up that meets no failure: once all four calls have succeeded the
/// session is up and running, on the display surface and the converted
/// bitmap. The bitmap as it was loaded is let go.
pub proof fn starts_when_every_call_succeeds<S>(
    surface: S,
    bitmap: S,
    image: S,
    tail: Seq<Answer<S>>,
)
    ensures
        started(
            Startup::Subsystem,
            seq![Answer::Done, Answer::Surface(surface), Answer::Surface(bitmap), Answer::Surface(image)]
                + tail,
        ) == ProgressView::Ready(EngineView { surface, image, running: true }),
{
    let last = seq![Answer::Surface(image)] + tail;
    let third = seq![Answer::Surface(bitmap)] + last;
    let second = seq![Answer::Surface(surface)] + third;
    started_unfolds(Startup::Conversion { surface, bitmap }, Answer::Surface(image), tail);
    started_unfolds(Startup::Bitmap { surface }, Answer::Surface(bitmap), last);
    started_unfolds(Startup::Display, Answer::Surface(surface), third);
    started_unfolds(Startup::Subsystem, Answer::Done, second);
    assert(seq![Answer::Done] + second =~= seq![
        Answer::Done,
        Answer::Surface(surface),
        Answer::Surface(bitmap),
        Answer::Surface(image),
    ] + tail);
}

/// A video subsystem that does not start ends start-up at once: no surface
/// is asked for.
pub proof fn fails_without_subsystem<S>(detail: String, tail: Seq<Answer<S>>)
    ensures
        started(Startup::Subsystem, seq![Answer::Failed(detail)] + tail) == ProgressView::<
            S,
        >::Failed(EngineError::SubsystemInit(detail)),
{
    started_unfolds(Startup::Subsystem, Answer::Failed(detail), tail);
}

/// A display surface that cannot be created ends start-up with the error of
/// that stage and no session. Whatever `tail` holds is not looked at: the
/// bitmap is never asked for.
pub proof fn fails_without_surface<S>(detail: String, tail: Seq<Answer<S>>)
    ensures
        started(Startup::Subsystem, seq![Answer::Done, Answer::Failed(detail)] + tail)
            == ProgressView::<S>::Failed(EngineError::SurfaceCreation(detail)),
{
    let second = seq![Answer::Failed(detail)] + tail;
    started_unfolds(Startup::Display, Answer::Failed(detail), tail);
    started_unfolds(Startup::Subsystem, Answer::Done, second);
    assert(seq![Answer::Done] + second =~= seq![Answer::Done, Answer::Failed(detail)] + tail);
}

/// A bitmap that is missing or is no bitmap ends start-up with the error of
/// loading and no session.
pub proof fn fails_without_bitmap<S>(surface: S, detail: String, tail: Seq<Answer<S>>)
    ensures
        started(
            Startup::Subsystem,
            seq![Answer::Done, Answer::Surface(surface), Answer::Failed(detail)] + tail,
        ) == ProgressView::<S>::Failed(EngineError::ImageLoad(detail)),
{
    let third = seq![Answer::Failed(detail)] + tail;
    let second = seq![Answer::Surface(surface)] + third;
    started_unfolds(Startup::Bitmap { surface }, Answer::Failed(detail), tail);
    started_unfolds(Startup::Display, Answer::Surface(surface), third);
    started_unfolds(Startup::Subsystem, Answer::Done, second);
    assert(seq![Answer::Done] + second =~= seq![
        Answer::Done,
        Answer::Surface(surface),
        Answer::Failed(detail),
    ] + tail);
}

/// A bitmap that cannot be brought into the display's format ends start-up
/// with the error of conversion and no session.
pub proof fn fails_without_conversion<S>(
    surface: S,
    bitmap: S,
    detail: String,
    tail: Seq<Answer<S>>,
)
    ensures
        started(
            Startup::Subsystem,
            seq![
                Answer::Done,
                Answer::Surface(surface),
                Answer::Surface(bitmap),
                Answer::Failed(detail),
            ] + tail,
        ) == ProgressView::<S>::Failed(EngineError::FormatConversion(detail)),
{
    let last = seq![Answer::Failed(detail)] + tail;
    let third = seq![Answer::Surface(bitmap)] + last;
    let second = seq![Answer::Surface(surface)] + third;
    started_unfolds(Startup::Conversion { surface, bitmap }, Answer::Failed(detail), tail);
    started_unfolds(Startup::Bitmap { surface }, Answer::Surface(bitmap), last);
    started_unfolds(Startup::Display, Answer::Surface(surface), third);
    started_unfolds(Startup::Subsystem, Answer::Done, second);
    assert(seq![Answer::Done] + second =~= seq![
        Answer::Done,
        Answer::Surface(surface),
        Answer::Surface(bitmap),
        Answer::Failed(detail),
    ] + tail);
}

} // verus!
