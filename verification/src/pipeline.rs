//! The pipeline orchestrator: the state machine of one run, from an upload to
//! the reply. The machine decides; its driver performs the collaborator calls
//! and hands their outcomes back.

use vstd::prelude::*;
use vstd::string::StringExecFns;

use crate::dispatch::chat_completion_with_tools;
use crate::dispatch::plan_completion;
use crate::dispatch::same_text;
use crate::dispatch::ChatCompletion;
use crate::dispatch::Decision;
use crate::dispatch::DecisionView;
use crate::dispatch::NO_CHOICE;
use crate::error::kind_text;
use crate::error::AppError;
use crate::error::ErrorKind;
use crate::events::events_view;
use crate::events::image_event;
use crate::events::input_event;
use crate::events::speech_event;
use crate::events::text_of;
use crate::events::local_time;
use crate::events::EventType;
use crate::events::EventView;
use crate::events::MessageKind;
use crate::events::Owner;
use crate::events::SignalType;
use crate::events::TIMESTAMP_FORMAT;
use crate::registry::Registry;

verus! {

/// The name of the upload's one field.
pub const AUDIO_FIELD: &'static str = "audio";

/// What is said of an outcome that the run's stage does not wait for.
pub const UNEXPECTED_OUTCOME: &'static str = "unexpected outcome for the stage of the run";

/// The states of a run. `Done` and `Failed` are terminal.
#[derive(Clone, Copy, Debug, PartialEq, Eq, Structural)]
pub enum Stage {
    Idle,
    Receiving,
    Transcribing,
    Deciding,
    ToolInvoking,
    Synthesizing,
    Done,
    Failed,
}

/// One field of a multipart upload.
#[derive(Clone, Debug, PartialEq, Eq)]
pub struct UploadField {
    pub name: Option<String>,
    pub data: Vec<u8>,
}

/// What the driver hands to the machine: the request, or the outcome of the
/// action that the machine asked for last.
#[derive(Clone, Debug, PartialEq, Eq)]
pub enum Outcome {
    /// A request has arrived.
    Posted,
    /// The fields of the request's body.
    Body(Vec<UploadField>),
    /// The transcript of the audio.
    Transcript(String),
    /// The model's completion.
    Completion(ChatCompletion),
    /// The generated image.
    Image { url: String, revised_prompt: String },
    /// The address under which the synthesized speech was stored.
    Speech { url: String },
    /// A collaborator failed, with its own words.
    Failure(String),
}

/// One image of a generator's answer: its address, where it has one, and the
/// prompt as the generator revised it.
#[derive(Clone, Debug, PartialEq, Eq)]
pub struct GeneratedImage {
    pub url: Option<String>,
    pub revised_prompt: String,
}

/// What is said of a generator's answer that holds no image with an address.
pub const NO_IMAGE: &'static str = "expect an image with its address";

impl Outcome {
    /// The outcome of an image generation: the last image of the answer, and
    /// a failure where the answer holds no image or the last has no address.
    pub fn from_images(images: Vec<GeneratedImage>) -> (outcome: Outcome)
        ensures
            match outcome {
                Outcome::Image { url, revised_prompt } => {
                    &&& images@.len() > 0
                    &&& images@.last().url == Some(url)
                    &&& images@.last().revised_prompt == revised_prompt
                },
                Outcome::Failure(cause) => {
                    &&& images@.len() == 0 || images@.last().url is None
                    &&& cause@ == NO_IMAGE@
                },
                _ => false,
            },
    {
        let mut images = images;
        match images.pop() {
            Some(GeneratedImage { url: Some(url), revised_prompt }) => Outcome::Image { url, revised_prompt },
            _ => Outcome::Failure(String::from_str(NO_IMAGE)),
        }
    }
}

/// What the driver does next.
#[derive(Debug)]
pub enum Action {
    /// Read the fields of the request's body.
    ReadBody,
    /// Transcribe the audio.
    Transcribe { audio: Vec<u8> },
    /// Ask the model, with the tool declared.
    Complete { prompt: String },
    /// Generate an image.
    DrawImage { prompt: String },
    /// Synthesize the text and store the audio.
    Speak { text: String },
    /// Answer the request: the run is complete.
    Finish,
    /// Answer the request with the error: the run is aborted.
    Abort(AppError),
    /// Nothing: the run was over before.
    Halt,
}

/// An action as a mathematical value.
pub ghost enum ActionView {
    ReadBody,
    Transcribe { audio: Seq<u8> },
    Complete { prompt: Seq<char> },
    DrawImage { prompt: Seq<char> },
    Speak { text: Seq<char> },
    Finish,
    Abort { kind: ErrorKind, detail: Seq<char> },
    Halt,
}

impl View for Action {
    type V = ActionView;

    open spec fn view(&self) -> ActionView {
        match self {
            Action::ReadBody => ActionView::ReadBody,
            Action::Transcribe { audio } => ActionView::Transcribe { audio: audio@ },
            Action::Complete { prompt } => ActionView::Complete { prompt: prompt@ },
            Action::DrawImage { prompt } => ActionView::DrawImage { prompt: prompt@ },
            Action::Speak { text } => ActionView::Speak { text: text@ },
            Action::Finish => ActionView::Finish,
            Action::Abort(e) => ActionView::Abort { kind: e.kind, detail: e.detail@ },
            Action::Halt => ActionView::Halt,
        }
    }
}

/// The external collaborators of a run.
pub ghost enum Collaborator {
    Transcription,
    ChatCompletion,
    ImageGeneration,
    SpeechSynthesis,
}

/// The collaborator that an action invokes, if any.
pub open spec fn invoked(action: ActionView) -> Seq<Collaborator> {
    match action {
        ActionView::Transcribe { .. } => seq![Collaborator::Transcription],
        ActionView::Complete { .. } => seq![Collaborator::ChatCompletion],
        ActionView::DrawImage { .. } => seq![Collaborator::ImageGeneration],
        ActionView::Speak { .. } => seq![Collaborator::SpeechSynthesis],
        _ => Seq::empty(),
    }
}

/// What one step gives the driver: the events to publish on the run's
/// channel, in this order, and then the action to perform.
#[derive(Debug)]
pub struct Step {
    pub events: Vec<EventType>,
    pub action: Action,
}

/// What a step comes to, as mathematical values.
pub ghost struct Transition {
    pub stage: Stage,
    pub reply: Option<Seq<char>>,
    pub events: Seq<EventView>,
    pub action: ActionView,
}

/// That the body is one field, named `audio`.
pub open spec fn valid_upload(fields: Seq<UploadField>) -> bool {
    fields.len() == 1 && text_of(fields[0].name) == Some(AUDIO_FIELD@)
}

/// The transition that aborts a run: no event, and the error for the caller.
pub open spec fn aborted(reply: Option<Seq<char>>, kind: ErrorKind, detail: Seq<char>) -> Transition {
    Transition {
        stage: Stage::Failed,
        reply,
        events: Seq::empty(),
        action: ActionView::Abort { kind, detail },
    }
}

/// The transition for an outcome that the stage does not wait for.
pub open spec fn unexpected(reply: Option<Seq<char>>) -> Transition {
    aborted(reply, ErrorKind::InvalidInput, UNEXPECTED_OUTCOME@)
}

/// The transition function of a run. Each stage waits for one outcome; on it
/// the run moves on, publishes the signal of the stage it enters behind the
/// message of the stage it leaves, and asks for the next action. A failure of
/// a collaborator, a malformed upload, a completion that the dispatcher
/// refuses and an outcome out of turn abort the run without any event. A run
/// that is over ignores what it is handed.
pub open spec fn transition(stage: Stage, reply: Option<Seq<char>>, outcome: Outcome, now: Seq<char>) -> Transition {
    if stage == Stage::Done || stage == Stage::Failed {
        Transition { stage, reply, events: Seq::empty(), action: ActionView::Halt }
    } else {
        match outcome {
            Outcome::Failure(cause) => aborted(reply, ErrorKind::CollaboratorFailure, cause@),
            Outcome::Posted => if stage == Stage::Idle {
                Transition {
                    stage: Stage::Receiving,
                    reply,
                    events: Seq::empty(),
                    action: ActionView::ReadBody,
                }
            } else {
                unexpected(reply)
            },
            Outcome::Body(fields) => if stage != Stage::Receiving {
                unexpected(reply)
            } else if valid_upload(fields@) {
                Transition {
                    stage: Stage::Transcribing,
                    reply,
                    events: seq![
                        EventView::Signal(SignalType::UploadReceived),
                        EventView::Signal(SignalType::Transcribing),
                    ],
                    action: ActionView::Transcribe { audio: fields@[0].data@ },
                }
            } else {
                aborted(reply, ErrorKind::InvalidInput, kind_text(ErrorKind::InvalidInput))
            },
            Outcome::Transcript(text) => if stage == Stage::Transcribing {
                Transition {
                    stage: Stage::Deciding,
                    reply,
                    events: seq![input_event(text@, now), EventView::Signal(SignalType::Deciding)],
                    action: ActionView::Complete { prompt: text@ },
                }
            } else {
                unexpected(reply)
            },
            Outcome::Completion(completion) => if stage != Stage::Deciding {
                unexpected(reply)
            } else {
                match plan_completion(completion) {
                    Ok(DecisionView::DrawImage { prompt }) => Transition {
                        stage: Stage::ToolInvoking,
                        reply,
                        events: seq![EventView::Signal(SignalType::ToolInvoking)],
                        action: ActionView::DrawImage { prompt },
                    },
                    Ok(DecisionView::Speak { text }) => Transition {
                        stage: Stage::Synthesizing,
                        reply: Some(text),
                        events: seq![EventView::Signal(SignalType::Synthesizing)],
                        action: ActionView::Speak { text },
                    },
                    Err(kind) => aborted(
                        reply,
                        kind,
                        if completion.choices@.len() == 0 {
                            NO_CHOICE@
                        } else {
                            kind_text(kind)
                        },
                    ),
                }
            },
            Outcome::Image { url, revised_prompt } => if stage == Stage::ToolInvoking {
                Transition {
                    stage: Stage::Done,
                    reply,
                    events: seq![
                        image_event(revised_prompt@, url@, now),
                        EventView::Signal(SignalType::Done),
                    ],
                    action: ActionView::Finish,
                }
            } else {
                unexpected(reply)
            },
            Outcome::Speech { url } => match reply {
                Some(text) if stage == Stage::Synthesizing => Transition {
                    stage: Stage::Done,
                    reply,
                    events: seq![speech_event(text, url@, now), EventView::Signal(SignalType::Done)],
                    action: ActionView::Finish,
                },
                _ => unexpected(reply),
            },
        }
    }
}

/// That an event is a message of the given owner and kind.
pub open spec fn is_message(event: EventView, owner: Owner, kind: MessageKind) -> bool {
    event matches EventView::Message(m) && m.owner == owner && m.kind == kind
}

/// That a trace begins with what every run publishes up to the decision: the
/// signals of the upload and of the transcription, the user's transcript and
/// the signal of the decision.
pub open spec fn opened(trace: Seq<EventView>) -> bool {
    &&& trace.len() >= 4
    &&& trace[0] == EventView::Signal(SignalType::UploadReceived)
    &&& trace[1] == EventView::Signal(SignalType::Transcribing)
    &&& is_message(trace[2], Owner::User, MessageKind::Text)
    &&& trace[3] == EventView::Signal(SignalType::Deciding)
}

/// The collaborators that every run has invoked once it decides.
pub open spec fn opening_calls() -> Seq<Collaborator> {
    seq![Collaborator::Transcription, Collaborator::ChatCompletion]
}

/// That a trace and the collaborators invoked are those of a complete run
/// that drew an image.
pub open spec fn drew(trace: Seq<EventView>, calls: Seq<Collaborator>) -> bool {
    &&& opened(trace)
    &&& trace.len() == 7
    &&& trace[4] == EventView::Signal(SignalType::ToolInvoking)
    &&& is_message(trace[5], Owner::Assistant, MessageKind::Image)
    &&& trace[6] == EventView::Signal(SignalType::Done)
    &&& calls == opening_calls().push(Collaborator::ImageGeneration)
}

/// That a trace and the collaborators invoked are those of a complete run
/// that spoke.
pub open spec fn spoke(trace: Seq<EventView>, calls: Seq<Collaborator>) -> bool {
    &&& opened(trace)
    &&& trace.len() == 7
    &&& trace[4] == EventView::Signal(SignalType::Synthesizing)
    &&& is_message(trace[5], Owner::Assistant, MessageKind::Speech)
    &&& trace[6] == EventView::Signal(SignalType::Done)
    &&& calls == opening_calls().push(Collaborator::SpeechSynthesis)
}

/// That image generation and speech synthesis were not both invoked.
pub open spec fn exclusive(calls: Seq<Collaborator>) -> bool {
    !(calls.contains(Collaborator::ImageGeneration) && calls.contains(Collaborator::SpeechSynthesis))
}

/// The stages that the signals of a trace announce, in the order of the
/// trace.
pub open spec fn signals(trace: Seq<EventView>) -> Seq<SignalType>
    decreases trace.len(),
{
    if trace.len() == 0 {
        Seq::empty()
    } else {
        match trace.last() {
            EventView::Signal(stage) => signals(trace.drop_last()).push(stage),
            EventView::Message(_) => signals(trace.drop_last()),
        }
    }
}

/// What a run in `stage` has published and invoked so far.
pub open spec fn consistent(
    stage: Stage,
    reply: Option<Seq<char>>,
    trace: Seq<EventView>,
    calls: Seq<Collaborator>,
) -> bool {
    match stage {
        Stage::Idle | Stage::Receiving => trace.len() == 0 && calls.len() == 0,
        Stage::Transcribing => {
            &&& trace == seq![
                EventView::Signal(SignalType::UploadReceived),
                EventView::Signal(SignalType::Transcribing),
            ]
            &&& calls == seq![Collaborator::Transcription]
        },
        Stage::Deciding => opened(trace) && trace.len() == 4 && calls == opening_calls(),
        Stage::ToolInvoking => {
            &&& opened(trace)
            &&& trace.len() == 5
            &&& trace[4] == EventView::Signal(SignalType::ToolInvoking)
            &&& calls == opening_calls().push(Collaborator::ImageGeneration)
        },
        Stage::Synthesizing => {
            &&& opened(trace)
            &&& trace.len() == 5
            &&& trace[4] == EventView::Signal(SignalType::Synthesizing)
            &&& calls == opening_calls().push(Collaborator::SpeechSynthesis)
            &&& reply is Some
        },
        Stage::Done => drew(trace, calls) || spoke(trace, calls),
        Stage::Failed => exclusive(calls),
    }
}

/// One run of the pipeline: the device it serves, the channel it publishes
/// on, its stage, and the reply while it is being spoken. It also records
/// every event it has published and every collaborator it has invoked.
pub struct PipelineRun {
    pub device_id: String,
    pub channel: u64,
    pub stage: Stage,
    pub reply: Option<String>,
    pub trace: Ghost<Seq<EventView>>,
    pub calls: Ghost<Seq<Collaborator>>,
}

/// That `after` and `step` are what `before` comes to on `outcome` at the
/// time `now`: the stage, the events and the action of the transition; the
/// events added to the record; the device and its channel kept.
pub open spec fn follows(
    before: PipelineRun,
    outcome: Outcome,
    now: Seq<char>,
    after: PipelineRun,
    step: Step,
) -> bool {
    let t = transition(before.stage, text_of(before.reply), outcome, now);
    &&& after.device_id == before.device_id
    &&& after.channel == before.channel
    &&& after.stage == t.stage
    &&& text_of(after.reply) == t.reply
    &&& events_view(step.events@) == t.events
    &&& step.action@ == t.action
    &&& after.trace@ == before.trace@ + t.events
    &&& after.calls@ == before.calls@ + invoked(t.action)
}

impl PipelineRun {
    /// The invariant of a run: what it has published and invoked is what its
    /// stage says.
    pub open spec fn wf(&self) -> bool {
        consistent(self.stage, text_of(self.reply), self.trace@, self.calls@)
    }

    /// A run for `device_id` that publishes on `channel` and has not begun.
    pub fn new(device_id: String, channel: u64) -> (run: PipelineRun)
        ensures
            run.wf(),
            run.device_id == device_id,
            run.channel == channel,
            run.stage == Stage::Idle,
            run.reply is None,
            run.trace@.len() == 0,
            run.calls@.len() == 0,
    {
        PipelineRun {
            device_id,
            channel,
            stage: Stage::Idle,
            reply: None,
            trace: Ghost(Seq::empty()),
            calls: Ghost(Seq::empty()),
        }
    }

    /// A run for a device that has a channel; `DeviceChannelNotFound` for one
    /// that has none.
    pub fn begin(registry: &Registry, device_id: &str) -> (r: Result<PipelineRun, AppError>)
        ensures
            r is Ok <==> registry@.channels.dom().contains(device_id@),
            r matches Ok(run) ==> {
                &&& run.wf()
                &&& run.device_id@ == device_id@
                &&& run.channel == registry@.channels[device_id@]
                &&& run.stage == Stage::Idle
                &&& run.trace@.len() == 0
                &&& run.calls@.len() == 0
            },
            r matches Err(e) ==> e.kind == ErrorKind::DeviceChannelNotFound && e.detail@ == kind_text(
                ErrorKind::DeviceChannelNotFound,
            ),
    {
        match registry.get(device_id) {
            Ok(channel) => Ok(PipelineRun::new(String::from_str(device_id), channel)),
            Err(e) => Err(e),
        }
    }

    /// A run for a device, on its channel, which is created now if the device
    /// had none.
    pub fn begin_or_create(registry: &mut Registry, device_id: &str) -> (run: PipelineRun)
        requires
            old(registry).wf(),
            old(registry)@.channels.dom().contains(device_id@) || old(registry)@.issued < u64::MAX,
        ensures
            final(registry).wf(),
            final(registry)@ == old(registry)@.referenced(device_id@),
            run.wf(),
            run.device_id@ == device_id@,
            run.channel == old(registry)@.channel_for(device_id@),
            run.stage == Stage::Idle,
            run.trace@.len() == 0,
            run.calls@.len() == 0,
    {
        let channel = registry.get_or_create(device_id);
        PipelineRun::new(String::from_str(device_id), channel)
    }

    /// Whether the run is over.
    pub fn is_terminal(&self) -> (r: bool)
        ensures
            r == (self.stage == Stage::Done || self.stage == Stage::Failed),
    {
        match self.stage {
            Stage::Done | Stage::Failed => true,
            _ => false,
        }
    }

    fn abort(&mut self, error: AppError) -> (step: Step)
        ensures
            final(self).device_id == old(self).device_id,
            final(self).channel == old(self).channel,
            final(self).reply == old(self).reply,
            final(self).trace == old(self).trace,
            final(self).calls == old(self).calls,
            final(self).stage == Stage::Failed,
            step.events@.len() == 0,
            step.action == Action::Abort(error),
    {
        self.stage = Stage::Failed;
        Step { events: Vec::new(), action: Action::Abort(error) }
    }

    fn out_of_turn(&mut self) -> (step: Step)
        ensures
            final(self).device_id == old(self).device_id,
            final(self).channel == old(self).channel,
            final(self).reply == old(self).reply,
            final(self).trace == old(self).trace,
            final(self).calls == old(self).calls,
            final(self).stage == Stage::Failed,
            step.events@.len() == 0,
            step.action@ == unexpected(text_of(old(self).reply)).action,
    {
        self.abort(AppError { kind: ErrorKind::InvalidInput, detail: String::from_str(UNEXPECTED_OUTCOME) })
    }

    fn advance(&mut self, stage: Stage, events: Vec<EventType>, action: Action) -> (step: Step)
        ensures
            final(self).device_id == old(self).device_id,
            final(self).channel == old(self).channel,
            final(self).reply == old(self).reply,
            final(self).trace@ == old(self).trace@ + events_view(events@),
            final(self).calls@ == old(self).calls@ + invoked(action@),
            final(self).stage == stage,
            step.events == events,
            step.action == action,
    {
        self.stage = stage;
        self.trace = Ghost(self.trace@ + events_view(events@));
        self.calls = Ghost(self.calls@ + invoked(action@));
        Step { events, action }
    }

    /// One step of the run on `outcome`, at the time `now`: see
    /// [`transition`].
    pub fn step(&mut self, outcome: Outcome, now: String) -> (step: Step)
        requires
            old(self).wf(),
        ensures
            final(self).wf(),
            follows(*old(self), outcome, now@, *final(self), step),
    {
        if self.is_terminal() {
            let step = Step { events: Vec::new(), action: Action::Halt };
            assert(events_view(step.events@) =~= Seq::empty());
            assert(self.trace@ + Seq::<EventView>::empty() =~= self.trace@);
            assert(self.calls@ + Seq::<Collaborator>::empty() =~= self.calls@);
            return step;
        }
        let stage = self.stage;
        let step = match outcome {
            Outcome::Failure(cause) => self.abort(AppError::collaborator(cause)),
            Outcome::Posted => match stage {
                Stage::Idle => self.advance(Stage::Receiving, Vec::new(), Action::ReadBody),
                _ => self.out_of_turn(),
            },
            Outcome::Body(fields) => match stage {
                Stage::Receiving => {
                    let mut fields = fields;
                    let named = fields.len() == 1 && match &fields[0].name {
                        Some(name) => same_text(name.as_str(), AUDIO_FIELD),
                        None => false,
                    };
                    match fields.pop() {
                        Some(field) if named => {
                            let mut events: Vec<EventType> = Vec::new();
                            events.push(EventType::Signal(SignalType::UploadReceived));
                            events.push(EventType::Signal(SignalType::Transcribing));
                            assert(events_view(events@) =~= seq![
                                EventView::Signal(SignalType::UploadReceived),
                                EventView::Signal(SignalType::Transcribing),
                            ]);
                            self.advance(Stage::Transcribing, events, Action::Transcribe { audio: field.data })
                        },
                        _ => self.abort(AppError::of_kind(ErrorKind::InvalidInput)),
                    }
                },
                _ => self.out_of_turn(),
            },
            Outcome::Transcript(text) => match stage {
                Stage::Transcribing => {
                    let mut events: Vec<EventType> = Vec::new();
                    events.push(EventType::input(text.as_str(), now));
                    events.push(EventType::Signal(SignalType::Deciding));
                    assert(events_view(events@) =~= seq![
                        input_event(text@, now@),
                        EventView::Signal(SignalType::Deciding),
                    ]);
                    self.advance(Stage::Deciding, events, Action::Complete { prompt: text })
                },
                _ => self.out_of_turn(),
            },
            Outcome::Completion(completion) => match stage {
                Stage::Deciding => match chat_completion_with_tools(completion) {
                    Ok(Decision::DrawImage { prompt }) => {
                        let mut events: Vec<EventType> = Vec::new();
                        events.push(EventType::Signal(SignalType::ToolInvoking));
                        assert(events_view(events@) =~= seq![EventView::Signal(SignalType::ToolInvoking)]);
                        self.advance(Stage::ToolInvoking, events, Action::DrawImage { prompt })
                    },
                    Ok(Decision::Speak { text }) => {
                        let mut events: Vec<EventType> = Vec::new();
                        events.push(EventType::Signal(SignalType::Synthesizing));
                        assert(events_view(events@) =~= seq![EventView::Signal(SignalType::Synthesizing)]);
                        self.reply = Some(text.clone());
                        self.advance(Stage::Synthesizing, events, Action::Speak { text })
                    },
                    Err(e) => self.abort(e),
                },
                _ => self.out_of_turn(),
            },
            Outcome::Image { url, revised_prompt } => match stage {
                Stage::ToolInvoking => {
                    let mut events: Vec<EventType> = Vec::new();
                    events.push(EventType::image(revised_prompt.as_str(), url.as_str(), now));
                    events.push(EventType::Signal(SignalType::Done));
                    assert(events_view(events@) =~= seq![
                        image_event(revised_prompt@, url@, now@),
                        EventView::Signal(SignalType::Done),
                    ]);
                    self.advance(Stage::Done, events, Action::Finish)
                },
                _ => self.out_of_turn(),
            },
            Outcome::Speech { url } => match (stage, &self.reply) {
                (Stage::Synthesizing, Some(text)) => {
                    let mut events: Vec<EventType> = Vec::new();
                    events.push(EventType::speech(text.as_str(), url.as_str(), now));
                    events.push(EventType::Signal(SignalType::Done));
                    assert(events_view(events@) =~= seq![
                        speech_event(text@, url@, now@),
                        EventView::Signal(SignalType::Done),
                    ]);
                    self.advance(Stage::Done, events, Action::Finish)
                },
                _ => self.out_of_turn(),
            },
        };
        proof {
            let t = transition(old(self).stage, text_of(old(self).reply), outcome, now@);
            assert(old(self).trace@ + Seq::<EventView>::empty() =~= old(self).trace@);
            assert(old(self).calls@ + Seq::<Collaborator>::empty() =~= old(self).calls@);
            assert(events_view(step.events@) =~= t.events);
            assert(self.trace@ =~= old(self).trace@ + t.events);
            assert(self.calls@ =~= old(self).calls@ + invoked(t.action));
            if self.stage == Stage::Transcribing {
                assert(self.trace@ =~= seq![
                    EventView::Signal(SignalType::UploadReceived),
                    EventView::Signal(SignalType::Transcribing),
                ]);
                assert(self.calls@ =~= seq![Collaborator::Transcription]);
            }
            if self.stage == Stage::Deciding {
                assert(self.calls@ =~= opening_calls());
            }
            if self.stage == Stage::ToolInvoking {
                assert(self.calls@ =~= opening_calls().push(Collaborator::ImageGeneration));
            }
            if self.stage == Stage::Synthesizing {
                assert(self.calls@ =~= opening_calls().push(Collaborator::SpeechSynthesis));
            }
            if self.stage == Stage::Done {
                assert(self.calls@ =~= old(self).calls@);
            }
        }
        step
    }

    /// One step of the run on `outcome`, at the time of the call.
    pub fn step_now(&mut self, outcome: Outcome) -> (step: Step)
        requires
            old(self).wf(),
        ensures
            final(self).wf(),
            exists|now: Seq<char>| #[trigger] follows(*old(self), outcome, now, *final(self), step),
    {
        let now = local_time(TIMESTAMP_FORMAT);
        let ghost at = now@;
        let step = self.step(outcome, now);
        assert(follows(*old(self), outcome, at, *self, step));
        step
    }
}

/// A run never invokes both image generation and speech synthesis, in
/// whatever stage it is; a run that drew an image has published an image and
/// never invoked speech synthesis, and a run that spoke never invoked image
/// generation.
pub proof fn law_image_and_speech_exclude(run: PipelineRun)
    requires
        run.wf(),
    ensures
        exclusive(run.calls@),
        run.stage == Stage::ToolInvoking ==> !run.calls@.contains(Collaborator::SpeechSynthesis),
        run.stage == Stage::Synthesizing ==> !run.calls@.contains(Collaborator::ImageGeneration),
        run.stage == Stage::Done && run.trace@[4] == EventView::Signal(SignalType::ToolInvoking) ==> {
            &&& is_message(run.trace@[5], Owner::Assistant, MessageKind::Image)
            &&& run.calls@.contains(Collaborator::ImageGeneration)
            &&& !run.calls@.contains(Collaborator::SpeechSynthesis)
        },
        run.stage == Stage::Done && run.trace@[4] == EventView::Signal(SignalType::Synthesizing) ==> {
            &&& is_message(run.trace@[5], Owner::Assistant, MessageKind::Speech)
            &&& run.calls@.contains(Collaborator::SpeechSynthesis)
            &&& !run.calls@.contains(Collaborator::ImageGeneration)
        },
{
    let calls = run.calls@;
    let image = opening_calls().push(Collaborator::ImageGeneration);
    let speech = opening_calls().push(Collaborator::SpeechSynthesis);
    assert(image[2] == Collaborator::ImageGeneration);
    assert(speech[2] == Collaborator::SpeechSynthesis);
    assert(!image.contains(Collaborator::SpeechSynthesis));
    assert(!speech.contains(Collaborator::ImageGeneration));
    assert(!opening_calls().contains(Collaborator::ImageGeneration));
    assert(!seq![Collaborator::Transcription].contains(Collaborator::ImageGeneration));
    assert(!Seq::<Collaborator>::empty().contains(Collaborator::ImageGeneration));
    if calls.len() == 0 {
        assert(calls =~= Seq::<Collaborator>::empty());
    }
}

/// A complete run has published seven events: the signals of the upload, the
/// transcription and the decision, in this order and with the user's
/// transcript before the third; then the signal of the tool or of the
/// synthesis, the one message of the assistant, and the signal that ends the
/// run.
pub proof fn law_complete_run_order(run: PipelineRun)
    requires
        run.wf(),
        run.stage == Stage::Done,
    ensures
        run.trace@.len() == 7,
        run.trace@[0] == EventView::Signal(SignalType::UploadReceived),
        run.trace@[1] == EventView::Signal(SignalType::Transcribing),
        is_message(run.trace@[2], Owner::User, MessageKind::Text),
        run.trace@[3] == EventView::Signal(SignalType::Deciding),
        run.trace@[4] == EventView::Signal(SignalType::ToolInvoking) || run.trace@[4] == EventView::Signal(
            SignalType::Synthesizing,
        ),
        run.trace@[6] == EventView::Signal(SignalType::Done),
        is_message(run.trace@[5], Owner::Assistant, MessageKind::Image) || is_message(
            run.trace@[5],
            Owner::Assistant,
            MessageKind::Speech,
        ),
        signals(run.trace@) == seq![
            SignalType::UploadReceived,
            SignalType::Transcribing,
            SignalType::Deciding,
            SignalType::ToolInvoking,
            SignalType::Done,
        ] || signals(run.trace@) == seq![
            SignalType::UploadReceived,
            SignalType::Transcribing,
            SignalType::Deciding,
            SignalType::Synthesizing,
            SignalType::Done,
        ],
{
    let t = run.trace@;
    assert(t.take(0).len() == 0);
    assert(signals(t.take(0)) =~= Seq::empty());
    assert(t.take(1).drop_last() =~= t.take(0));
    assert(signals(t.take(1)) =~= seq![SignalType::UploadReceived]);
    assert(t.take(2).drop_last() =~= t.take(1));
    assert(signals(t.take(2)) =~= seq![SignalType::UploadReceived, SignalType::Transcribing]);
    assert(t.take(3).drop_last() =~= t.take(2));
    assert(signals(t.take(3)) =~= signals(t.take(2)));
    assert(t.take(4).drop_last() =~= t.take(3));
    assert(signals(t.take(4)) =~= signals(t.take(3)).push(SignalType::Deciding));
    assert(t.take(5).drop_last() =~= t.take(4));
    assert(t.take(5).last() == t[4]);
    assert(t.take(6).drop_last() =~= t.take(5));
    assert(signals(t.take(6)) =~= signals(t.take(5)));
    assert(t.take(7) =~= t);
    assert(t.drop_last() =~= t.take(6));
    assert(signals(t) =~= signals(t.take(6)).push(SignalType::Done));
}

/// An upload that is not one field named `audio` aborts the run as invalid
/// input: nothing is published, and the run has published nothing at all.
pub proof fn law_invalid_upload_publishes_nothing(
    before: PipelineRun,
    fields: Vec<UploadField>,
    now: Seq<char>,
    after: PipelineRun,
    step: Step,
)
    requires
        before.wf(),
        before.stage == Stage::Receiving,
        !valid_upload(fields@),
        follows(before, Outcome::Body(fields), now, after, step),
    ensures
        after.stage == Stage::Failed,
        step.action@ == (ActionView::Abort {
            kind: ErrorKind::InvalidInput,
            detail: kind_text(ErrorKind::InvalidInput),
        }),
        step.events@.len() == 0,
        after.trace@.len() == 0,
        after.calls@.len() == 0,
{
    assert(events_view(step.events@).len() == 0);
}

/// A step never leaves the channel of the run's device: what a run publishes
/// goes to the channel it began on, and two runs that began on a registry for
/// distinct devices publish on distinct channels.
pub proof fn law_runs_keep_to_their_channel(
    registry: crate::registry::RegistryView,
    a: PipelineRun,
    b: PipelineRun,
    outcome: Outcome,
    now: Seq<char>,
    after: PipelineRun,
    step: Step,
)
    requires
        registry.wf(),
        registry.channels.dom().contains(a.device_id@),
        registry.channels.dom().contains(b.device_id@),
        a.channel == registry.channels[a.device_id@],
        b.channel == registry.channels[b.device_id@],
        a.device_id@ != b.device_id@,
        follows(a, outcome, now, after, step),
    ensures
        after.channel == a.channel,
        after.channel != b.channel,
{
}

} // verus!
