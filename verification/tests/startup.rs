use images::{Answer, Engine, EngineError, Progress, Request, Startup, VideoMode};

/// A stand-in for the graphics library: it answers from a script and keeps a
/// record of the calls made on it.
struct Collaborator {
    init: Result<(), String>,
    display: Result<u32, String>,
    bitmap: Result<u32, String>,
    converted: Result<u32, String>,
    calls: Vec<String>,
}

fn surface_or_failure(outcome: &Result<u32, String>) -> Answer<u32> {
    match outcome {
        Ok(surface) => Answer::Surface(*surface),
        Err(detail) => Answer::Failed(detail.clone()),
    }
}

impl Collaborator {
    fn working() -> Collaborator {
        Collaborator { init: Ok(()), display: Ok(10), bitmap: Ok(20), converted: Ok(30), calls: Vec::new() }
    }

    fn perform(&mut self, request: Request<'_, u32>) -> Answer<u32> {
        match request {
            Request::InitVideo => {
                self.calls.push(String::from("init"));
                match &self.init {
                    Ok(()) => Answer::Done,
                    Err(detail) => Answer::Failed(detail.clone()),
                }
            }
            Request::SetVideoMode(mode) => {
                self.calls.push(format!(
                    "set_video_mode {}x{}x{} hw={} db={}",
                    mode.width, mode.height, mode.depth, mode.hardware, mode.double_buffered
                ));
                surface_or_failure(&self.display)
            }
            Request::LoadBitmap(path) => {
                self.calls.push(format!("from_bmp {}", path));
                surface_or_failure(&self.bitmap)
            }
            Request::ConvertBitmap(bitmap) => {
                self.calls.push(format!("display_format {}", bitmap));
                surface_or_failure(&self.converted)
            }
        }
    }

    fn start(&mut self) -> Result<Engine<u32>, EngineError> {
        let mut startup = Startup::new();
        loop {
            let answer = self.perform(startup.request());
            match startup.advance(answer) {
                Progress::Pending(next) => startup = next,
                Progress::Ready(engine) => return Ok(engine),
                Progress::Failed(error) => return Err(error),
            }
        }
    }
}

#[test]
fn startup_yields_a_running_session() {
    let mut library = Collaborator::working();
    let engine = library.start().unwrap();
    assert!(engine.is_running());
    assert_eq!(*engine.surface(), 10);
    assert_eq!(*engine.image(), 30);
    assert_eq!(
        library.calls,
        vec![
            "init",
            "set_video_mode 640x480x31 hw=true db=true",
            "from_bmp example.bmp",
            "display_format 20",
        ]
    );
}

#[test]
fn missing_bitmap_yields_a_load_error_and_no_session() {
    let mut library = Collaborator::working();
    library.bitmap = Err(String::from("Couldn't open example.bmp"));
    let error = library.start().unwrap_err();
    assert_eq!(error, EngineError::ImageLoad(String::from("Couldn't open example.bmp")));
    assert_eq!(error.message(), "Unable to load bitmap: Couldn't open example.bmp");
    assert_eq!(
        library.calls,
        vec!["init", "set_video_mode 640x480x31 hw=true db=true", "from_bmp example.bmp"]
    );
}

#[test]
fn corrupt_bitmap_yields_a_load_error_and_no_session() {
    let mut library = Collaborator::working();
    library.bitmap = Err(String::from("File is not a Windows BMP file"));
    let error = library.start().unwrap_err();
    assert_eq!(error, EngineError::ImageLoad(String::from("File is not a Windows BMP file")));
}

#[test]
fn surface_failure_yields_a_surface_error_and_the_bitmap_is_not_loaded() {
    let mut library = Collaborator::working();
    library.display = Err(String::from("No video mode large enough for 640x480"));
    let error = library.start().unwrap_err();
    assert_eq!(
        error,
        EngineError::SurfaceCreation(String::from("No video mode large enough for 640x480"))
    );
    assert_eq!(
        error.message(),
        "Unable to create surface: No video mode large enough for 640x480"
    );
    assert_eq!(library.calls, vec!["init", "set_video_mode 640x480x31 hw=true db=true"]);
}

#[test]
fn subsystem_failure_yields_an_init_error_and_nothing_else_is_called() {
    let mut library = Collaborator::working();
    library.init = Err(String::from("No available video device"));
    let error = library.start().unwrap_err();
    assert_eq!(error, EngineError::SubsystemInit(String::from("No available video device")));
    assert_eq!(error.message(), "Unable to initialize SDL: No available video device");
    assert_eq!(library.calls, vec!["init"]);
}

#[test]
fn conversion_failure_yields_a_conversion_error_and_no_session() {
    let mut library = Collaborator::working();
    library.converted = Err(String::from("Out of memory"));
    let error = library.start().unwrap_err();
    assert_eq!(error, EngineError::FormatConversion(String::from("Out of memory")));
    assert_eq!(error.message(), "Unable to load bitmap: Out of memory");
    assert_eq!(library.calls.len(), 4);
}

#[test]
fn first_request_starts_the_video_subsystem() {
    let startup: Startup<u32> = Startup::new();
    assert_eq!(startup, Startup::Subsystem);
    assert_eq!(startup.request(), Request::InitVideo);
}

#[test]
fn display_is_asked_for_at_640_by_480_in_video_memory_with_a_back_buffer() {
    let startup: Startup<u32> = Startup::Display;
    assert_eq!(
        startup.request(),
        Request::SetVideoMode(VideoMode {
            width: 640,
            height: 480,
            depth: 31,
            hardware: true,
            double_buffered: true,
        })
    );
}

#[test]
fn bitmap_is_asked_for_at_its_fixed_path() {
    let startup = Startup::Bitmap { surface: 1u32 };
    assert_eq!(startup.request(), Request::LoadBitmap("example.bmp"));
}

#[test]
fn conversion_is_asked_for_the_bitmap_that_was_loaded() {
    let startup = Startup::Conversion { surface: 1u32, bitmap: 2u32 };
    assert_eq!(startup.request(), Request::ConvertBitmap(&2));
}

#[test]
fn each_success_moves_to_the_next_stage() {
    let startup: Startup<u32> = Startup::new();
    let progress = startup.advance(Answer::Done);
    assert_eq!(progress, Progress::Pending(Startup::Display));
    let progress = Startup::Display.advance(Answer::Surface(1u32));
    assert_eq!(progress, Progress::Pending(Startup::Bitmap { surface: 1 }));
    let progress = Startup::Bitmap { surface: 1u32 }.advance(Answer::Surface(2));
    assert_eq!(progress, Progress::Pending(Startup::Conversion { surface: 1, bitmap: 2 }));
    let progress = Startup::Conversion { surface: 1u32, bitmap: 2 }.advance(Answer::Surface(3));
    assert_eq!(progress, Progress::Ready(Engine::new(1, 3)));
}

#[test]
fn each_stage_fails_with_its_own_error() {
    let detail = || Answer::Failed(String::from("why"));
    let why = || String::from("why");
    assert_eq!(
        Startup::<u32>::Subsystem.advance(detail()),
        Progress::Failed(EngineError::SubsystemInit(why()))
    );
    assert_eq!(
        Startup::<u32>::Display.advance(detail()),
        Progress::Failed(EngineError::SurfaceCreation(why()))
    );
    assert_eq!(
        Startup::Bitmap { surface: 1u32 }.advance(detail()),
        Progress::Failed(EngineError::ImageLoad(why()))
    );
    assert_eq!(
        Startup::Conversion { surface: 1u32, bitmap: 2 }.advance(detail()),
        Progress::Failed(EngineError::FormatConversion(why()))
    );
}

#[test]
fn answer_that_does_not_fit_changes_nothing() {
    assert_eq!(
        Startup::<u32>::Subsystem.advance(Answer::Surface(9)),
        Progress::Pending(Startup::Subsystem)
    );
    assert_eq!(Startup::<u32>::Display.advance(Answer::Done), Progress::Pending(Startup::Display));
    assert_eq!(
        Startup::Bitmap { surface: 1u32 }.advance(Answer::Done),
        Progress::Pending(Startup::Bitmap { surface: 1 })
    );
    assert_eq!(
        Startup::Conversion { surface: 1u32, bitmap: 2 }.advance(Answer::Done),
        Progress::Pending(Startup::Conversion { surface: 1, bitmap: 2 })
    );
}

#[test]
fn recorded_answers_bring_a_session_up() {
    let answers =
        vec![Answer::Done, Answer::Surface(10u32), Answer::Surface(20), Answer::Surface(30)];
    match Engine(answers) {
        Progress::Ready(engine) => {
            assert!(engine.is_running());
            assert_eq!(*engine.surface(), 10);
            assert_eq!(*engine.image(), 30);
        }
        other => panic!("no session: {:?}", other),
    }
}

#[test]
fn recorded_surface_failure_ends_startup_whatever_follows() {
    let answers = vec![
        Answer::Done,
        Answer::Failed(String::from("unsupported mode")),
        Answer::Surface(20u32),
        Answer::Surface(30),
    ];
    assert_eq!(
        Engine(answers),
        Progress::Failed(EngineError::SurfaceCreation(String::from("unsupported mode")))
    );
}

#[test]
fn recorded_bitmap_failure_ends_startup() {
    let answers =
        vec![Answer::Done, Answer::Surface(10u32), Answer::Failed(String::from("no such file"))];
    assert_eq!(
        Engine(answers),
        Progress::Failed(EngineError::ImageLoad(String::from("no such file")))
    );
}

#[test]
fn recorded_subsystem_failure_ends_startup() {
    let answers: Vec<Answer<u32>> = vec![Answer::Failed(String::from("no display"))];
    assert_eq!(
        Engine(answers),
        Progress::Failed(EngineError::SubsystemInit(String::from("no display")))
    );
}

#[test]
fn recorded_conversion_failure_ends_startup() {
    let answers = vec![
        Answer::Done,
        Answer::Surface(10u32),
        Answer::Surface(20),
        Answer::Failed(String::from("out of memory")),
    ];
    assert_eq!(
        Engine(answers),
        Progress::Failed(EngineError::FormatConversion(String::from("out of memory")))
    );
}

#[test]
fn answers_that_run_out_leave_startup_waiting() {
    assert_eq!(Engine(Vec::<Answer<u32>>::new()), Progress::Pending(Startup::Subsystem));
    assert_eq!(Engine(vec![Answer::<u32>::Done]), Progress::Pending(Startup::Display));
    assert_eq!(
        Engine(vec![Answer::Done, Answer::Surface(10u32)]),
        Progress::Pending(Startup::Bitmap { surface: 10 })
    );
    assert_eq!(
        Engine(vec![Answer::Done, Answer::Surface(10u32), Answer::Surface(20)]),
        Progress::Pending(Startup::Conversion { surface: 10, bitmap: 20 })
    );
}

#[test]
fn answers_after_the_session_is_up_are_not_looked_at() {
    let answers = vec![
        Answer::Done,
        Answer::Surface(10u32),
        Answer::Surface(20),
        Answer::Surface(30),
        Answer::Failed(String::from("too late")),
        Answer::Surface(40),
    ];
    assert_eq!(Engine(answers), Progress::Ready(Engine::new(10, 30)));
}

#[test]
fn recorded_answers_that_do_not_fit_are_skipped() {
    let answers = vec![
        Answer::Surface(1u32),
        Answer::Done,
        Answer::Done,
        Answer::Surface(10),
        Answer::Done,
        Answer::Surface(20),
        Answer::Surface(30),
    ];
    assert_eq!(Engine(answers), Progress::Ready(Engine::new(10, 30)));
}

#[test]
fn error_message_is_the_heading_then_the_detail() {
    assert_eq!(
        EngineError::SubsystemInit(String::from("a")).message(),
        "Unable to initialize SDL: a"
    );
    assert_eq!(
        EngineError::SurfaceCreation(String::from("b")).message(),
        "Unable to create surface: b"
    );
    assert_eq!(EngineError::ImageLoad(String::from("c")).message(), "Unable to load bitmap: c");
    assert_eq!(
        EngineError::FormatConversion(String::from("d")).message(),
        "Unable to load bitmap: d"
    );
    assert_eq!(EngineError::ImageLoad(String::new()).message(), "Unable to load bitmap: ");
}
