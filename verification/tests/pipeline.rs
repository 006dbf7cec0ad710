use ava_bot::dispatch::ChatCompletion;
use ava_bot::dispatch::ChatMessage;
use ava_bot::dispatch::FunctionCall;
use ava_bot::error::ErrorKind;
use ava_bot::events::EventType;
use ava_bot::events::SignalType;
use ava_bot::pipeline::Action;
use ava_bot::pipeline::GeneratedImage;
use ava_bot::pipeline::Outcome;
use ava_bot::pipeline::PipelineRun;
use ava_bot::pipeline::Stage;
use ava_bot::pipeline::UploadField;
use ava_bot::registry::Registry;

fn now() -> String {
    String::from("2024-03-05 10:20:30")
}

fn audio(bytes: &[u8]) -> Outcome {
    Outcome::Body(vec![UploadField { name: Some(String::from("audio")), data: bytes.to_vec() }])
}

fn spoken(text: &str) -> Outcome {
    Outcome::Completion(ChatCompletion {
        choices: vec![ChatMessage { content: Some(String::from(text)), tool_calls: vec![] }],
    })
}

fn drawing(arguments: &str) -> Outcome {
    Outcome::Completion(ChatCompletion {
        choices: vec![ChatMessage {
            content: None,
            tool_calls: vec![FunctionCall {
                name: String::from("draw_image"),
                arguments: String::from(arguments),
            }],
        }],
    })
}

fn run_to_deciding(published: &mut Vec<EventType>) -> PipelineRun {
    let mut run = PipelineRun::new(String::from("abc"), 7);
    let s = run.step(Outcome::Posted, now());
    assert!(s.events.is_empty());
    assert!(matches!(s.action, Action::ReadBody));
    assert_eq!(run.stage, Stage::Receiving);
    let s = run.step(audio(&[1, 2, 3]), now());
    match s.action {
        Action::Transcribe { audio } => assert_eq!(audio, vec![1, 2, 3]),
        other => panic!("unexpected action {:?}", other),
    }
    published.extend(s.events);
    assert_eq!(run.stage, Stage::Transcribing);
    let s = run.step(Outcome::Transcript(String::from("what is rust")), now());
    match s.action {
        Action::Complete { prompt } => assert_eq!(prompt, "what is rust"),
        other => panic!("unexpected action {:?}", other),
    }
    published.extend(s.events);
    assert_eq!(run.stage, Stage::Deciding);
    run
}

#[test]
fn a_spoken_run_publishes_its_events_in_order() {
    let mut published = Vec::new();
    let mut run = run_to_deciding(&mut published);
    let s = run.step(spoken("a language"), now());
    match s.action {
        Action::Speak { text } => assert_eq!(text, "a language"),
        other => panic!("unexpected action {:?}", other),
    }
    published.extend(s.events);
    assert_eq!(run.stage, Stage::Synthesizing);
    let s = run.step(Outcome::Speech { url: String::from("/audio/abc/f.mp3") }, now());
    assert!(matches!(s.action, Action::Finish));
    published.extend(s.events);
    assert_eq!(run.stage, Stage::Done);
    assert_eq!(run.channel, 7);
    assert_eq!(run.device_id, "abc");
    assert_eq!(
        published,
        vec![
            EventType::Signal(SignalType::UploadReceived),
            EventType::Signal(SignalType::Transcribing),
            EventType::input("what is rust", now()),
            EventType::Signal(SignalType::Deciding),
            EventType::Signal(SignalType::Synthesizing),
            EventType::speech("a language", "/audio/abc/f.mp3", now()),
            EventType::Signal(SignalType::Done),
        ]
    );
}

#[test]
fn a_drawing_run_publishes_an_image_in_place_of_speech() {
    let mut published = Vec::new();
    let mut run = run_to_deciding(&mut published);
    let s = run.step(drawing("{\"prompt\":\"a cat\"}"), now());
    match s.action {
        Action::DrawImage { prompt } => assert_eq!(prompt, "a cat"),
        other => panic!("unexpected action {:?}", other),
    }
    published.extend(s.events);
    assert_eq!(run.stage, Stage::ToolInvoking);
    let s = run.step(
        Outcome::Image {
            url: String::from("https://img/cat.png"),
            revised_prompt: String::from("a fluffy cat"),
        },
        now(),
    );
    assert!(matches!(s.action, Action::Finish));
    published.extend(s.events);
    assert_eq!(run.stage, Stage::Done);
    assert_eq!(
        published,
        vec![
            EventType::Signal(SignalType::UploadReceived),
            EventType::Signal(SignalType::Transcribing),
            EventType::input("what is rust", now()),
            EventType::Signal(SignalType::Deciding),
            EventType::Signal(SignalType::ToolInvoking),
            EventType::image("a fluffy cat", "https://img/cat.png", now()),
            EventType::Signal(SignalType::Done),
        ]
    );
}

fn refused(fields: Vec<UploadField>) {
    let mut run = PipelineRun::new(String::from("abc"), 0);
    run.step(Outcome::Posted, now());
    let s = run.step(Outcome::Body(fields), now());
    assert!(s.events.is_empty());
    assert_eq!(run.stage, Stage::Failed);
    match s.action {
        Action::Abort(e) => {
            assert_eq!(e.kind, ErrorKind::InvalidInput);
            assert_eq!(e.detail, "expected an audio field");
        }
        other => panic!("unexpected action {:?}", other),
    }
}

#[test]
fn a_misnamed_field_is_invalid_input() {
    refused(vec![UploadField { name: Some(String::from("file")), data: vec![1] }]);
    refused(vec![UploadField { name: Some(String::from("Audio")), data: vec![1] }]);
}

#[test]
fn an_unnamed_field_is_invalid_input() {
    refused(vec![UploadField { name: None, data: vec![1] }]);
}

#[test]
fn an_empty_body_is_invalid_input() {
    refused(vec![]);
}

#[test]
fn a_second_field_is_invalid_input() {
    refused(vec![
        UploadField { name: Some(String::from("audio")), data: vec![1] },
        UploadField { name: Some(String::from("audio")), data: vec![2] },
    ]);
    refused(vec![
        UploadField { name: Some(String::from("audio")), data: vec![1] },
        UploadField { name: Some(String::from("note")), data: vec![2] },
    ]);
}

#[test]
fn a_failing_collaborator_aborts_without_events() {
    let mut published = Vec::new();
    let mut run = run_to_deciding(&mut published);
    let s = run.step(Outcome::Failure(String::from("connection reset")), now());
    assert!(s.events.is_empty());
    assert_eq!(run.stage, Stage::Failed);
    match s.action {
        Action::Abort(e) => {
            assert_eq!(e.kind, ErrorKind::CollaboratorFailure);
            assert_eq!(e.detail, "connection reset");
        }
        other => panic!("unexpected action {:?}", other),
    }
}

#[test]
fn a_refused_completion_aborts_without_events() {
    let mut published = Vec::new();
    let mut run = run_to_deciding(&mut published);
    let s = run.step(drawing("{\"size\":3}"), now());
    assert!(s.events.is_empty());
    assert_eq!(run.stage, Stage::Failed);
    match s.action {
        Action::Abort(e) => assert_eq!(e.kind, ErrorKind::InvalidToolArguments),
        other => panic!("unexpected action {:?}", other),
    }

    let mut run = run_to_deciding(&mut published);
    let s = run.step(Outcome::Completion(ChatCompletion { choices: vec![] }), now());
    match s.action {
        Action::Abort(e) => {
            assert_eq!(e.kind, ErrorKind::CollaboratorFailure);
            assert_eq!(e.detail, "expect at least one choice");
        }
        other => panic!("unexpected action {:?}", other),
    }
}

#[test]
fn an_outcome_out_of_turn_aborts() {
    let mut run = PipelineRun::new(String::from("abc"), 0);
    let s = run.step(Outcome::Transcript(String::from("x")), now());
    assert!(s.events.is_empty());
    assert_eq!(run.stage, Stage::Failed);
    match s.action {
        Action::Abort(e) => {
            assert_eq!(e.kind, ErrorKind::InvalidInput);
            assert_eq!(e.detail, "unexpected outcome for the stage of the run");
        }
        other => panic!("unexpected action {:?}", other),
    }
    let mut published = Vec::new();
    let mut run = run_to_deciding(&mut published);
    let s = run.step(Outcome::Speech { url: String::from("u") }, now());
    assert!(s.events.is_empty());
    assert!(matches!(s.action, Action::Abort(_)));
    assert_eq!(run.stage, Stage::Failed);
}

#[test]
fn a_run_that_is_over_ignores_outcomes() {
    let mut run = PipelineRun::new(String::from("abc"), 0);
    run.step(Outcome::Failure(String::from("x")), now());
    assert!(run.is_terminal());
    let s = run.step(Outcome::Posted, now());
    assert!(s.events.is_empty());
    assert!(matches!(s.action, Action::Halt));
    assert_eq!(run.stage, Stage::Failed);

    let mut published = Vec::new();
    let mut run = run_to_deciding(&mut published);
    run.step(spoken("t"), now());
    run.step(Outcome::Speech { url: String::from("u") }, now());
    assert!(run.is_terminal());
    let s = run.step(Outcome::Failure(String::from("late")), now());
    assert!(s.events.is_empty());
    assert!(matches!(s.action, Action::Halt));
    assert_eq!(run.stage, Stage::Done);
}

#[test]
fn a_step_at_the_time_of_the_call() {
    let mut run = PipelineRun::new(String::from("abc"), 0);
    run.step_now(Outcome::Posted);
    run.step_now(audio(&[9]));
    let s = run.step_now(Outcome::Transcript(String::from("hi")));
    assert_eq!(s.events.len(), 2);
    match &s.events[0] {
        EventType::Message(m) => {
            assert_eq!(m.content, "hi");
            assert_eq!(m.timestamp.len(), 19);
            assert_eq!(m.url, None);
        }
        other => panic!("unexpected event {:?}", other),
    }
    assert_eq!(s.events[1], EventType::Signal(SignalType::Deciding));
}

#[test]
fn a_run_begins_on_the_channel_of_its_device() {
    let mut registry = Registry::new();
    let e = match PipelineRun::begin(&registry, "abc") {
        Ok(_) => panic!("no channel was registered"),
        Err(e) => e,
    };
    assert_eq!(e.kind, ErrorKind::DeviceChannelNotFound);
    assert_eq!(e.detail, "device_id not found in senders");
    let a = registry.get_or_create("abc");
    let b = registry.get_or_create("xyz");
    let run_a = match PipelineRun::begin(&registry, "abc") {
        Ok(run) => run,
        Err(_) => panic!("a channel was registered"),
    };
    let run_b = PipelineRun::begin_or_create(&mut registry, "xyz");
    let run_c = PipelineRun::begin_or_create(&mut registry, "new");
    assert_eq!(run_a.channel, a);
    assert_eq!(run_b.channel, b);
    assert_ne!(run_a.channel, run_b.channel);
    assert_ne!(run_c.channel, run_a.channel);
    assert_ne!(run_c.channel, run_b.channel);
    assert_eq!(run_a.stage, Stage::Idle);
    assert_eq!(registry.get("new").unwrap_or(99), run_c.channel);
}

#[test]
fn the_last_image_is_the_outcome() {
    let images = vec![
        GeneratedImage { url: Some(String::from("u1")), revised_prompt: String::from("p1") },
        GeneratedImage { url: Some(String::from("u2")), revised_prompt: String::from("p2") },
    ];
    assert_eq!(
        Outcome::from_images(images),
        Outcome::Image { url: String::from("u2"), revised_prompt: String::from("p2") }
    );
    assert_eq!(
        Outcome::from_images(vec![]),
        Outcome::Failure(String::from("expect an image with its address"))
    );
    assert_eq!(
        Outcome::from_images(vec![GeneratedImage { url: None, revised_prompt: String::from("p") }]),
        Outcome::Failure(String::from("expect an image with its address"))
    );
}
