//! The events that a pipeline run publishes on a device's channel, and the
//! JSON frame of each.

use vstd::prelude::*;
use vstd::string::StringExecFns;

verus! {

/// The stage that a signal announces.
#[derive(Clone, Copy, Debug, PartialEq, Eq, Structural)]
pub enum SignalType {
    UploadReceived,
    Transcribing,
    Deciding,
    ToolInvoking,
    Synthesizing,
    Done,
}

/// Who a message is from.
#[derive(Clone, Copy, Debug, PartialEq, Eq, Structural)]
pub enum Owner {
    User,
    Assistant,
}

/// What a message carries.
#[derive(Clone, Copy, Debug, PartialEq, Eq, Structural)]
pub enum MessageKind {
    Text,
    Speech,
    Image,
}

/// A content-bearing event: a transcript, a spoken reply or a generated image.
#[derive(Clone, Debug, PartialEq, Eq)]
pub struct Message {
    pub owner: Owner,
    pub kind: MessageKind,
    pub content: String,
    pub url: Option<String>,
    pub timestamp: String,
}

/// A notification on a device's channel.
#[derive(Clone, Debug, PartialEq, Eq)]
pub enum EventType {
    Message(Message),
    Signal(SignalType),
}

/// A message as a mathematical value.
pub ghost struct MessageView {
    pub owner: Owner,
    pub kind: MessageKind,
    pub content: Seq<char>,
    pub url: Option<Seq<char>>,
    pub timestamp: Seq<char>,
}

/// An event as a mathematical value.
pub ghost enum EventView {
    Message(MessageView),
    Signal(SignalType),
}

/// The characters of an optional string.
pub open spec fn text_of(s: Option<String>) -> Option<Seq<char>> {
    match s {
        Some(t) => Some(t@),
        None => None,
    }
}

impl View for Message {
    type V = MessageView;

    open spec fn view(&self) -> MessageView {
        MessageView {
            owner: self.owner,
            kind: self.kind,
            content: self.content@,
            url: text_of(self.url),
            timestamp: self.timestamp@,
        }
    }
}

impl View for EventType {
    type V = EventView;

    open spec fn view(&self) -> EventView {
        match self {
            EventType::Message(m) => EventView::Message(m@),
            EventType::Signal(s) => EventView::Signal(*s),
        }
    }
}

/// The events of a list, each as a mathematical value.
pub open spec fn events_view(events: Seq<EventType>) -> Seq<EventView> {
    Seq::new(events.len(), |i: int| events[i]@)
}

/// The user's transcribed input.
pub open spec fn input_event(message: Seq<char>, timestamp: Seq<char>) -> EventView {
    EventView::Message(
        MessageView {
            owner: Owner::User,
            kind: MessageKind::Text,
            content: message,
            url: None,
            timestamp,
        },
    )
}

/// The assistant's spoken reply, with the address of its audio.
pub open spec fn speech_event(message: Seq<char>, url: Seq<char>, timestamp: Seq<char>) -> EventView {
    EventView::Message(
        MessageView {
            owner: Owner::Assistant,
            kind: MessageKind::Speech,
            content: message,
            url: Some(url),
            timestamp,
        },
    )
}

/// A generated image: the prompt as the generator revised it, and the image's
/// address.
pub open spec fn image_event(revised_prompt: Seq<char>, url: Seq<char>, timestamp: Seq<char>) -> EventView {
    EventView::Message(
        MessageView {
            owner: Owner::Assistant,
            kind: MessageKind::Image,
            content: revised_prompt,
            url: Some(url),
            timestamp,
        },
    )
}

/// The name of a stage in a frame.
pub open spec fn signal_name(stage: SignalType) -> Seq<char> {
    match stage {
        SignalType::UploadReceived => "upload_audio"@,
        SignalType::Transcribing => "transcription"@,
        SignalType::Deciding => "chat_completion"@,
        SignalType::ToolInvoking => "draw_image"@,
        SignalType::Synthesizing => "speech"@,
        SignalType::Done => "done"@,
    }
}

/// The frame of a signal.
pub open spec fn signal_frame(stage: SignalType) -> Seq<char> {
    "{\"type\":\"signal\",\"data\":{\"status\":\""@ + signal_name(stage) + "\"}}"@
}

/// The JSON text of an owner.
pub open spec fn owner_json(owner: Owner) -> Seq<char> {
    match owner {
        Owner::User => "\"user\""@,
        Owner::Assistant => "\"ava\""@,
    }
}

/// The frame of a message whose texts are already written as JSON strings.
/// The keys stand in alphabetical order. A text message has no `type`; an
/// image carries its content as `prompt`, the others as `message`; `url` is
/// present where the message has one.
pub open spec fn message_frame(
    owner: Owner,
    kind: MessageKind,
    timestamp_json: Seq<char>,
    content_json: Seq<char>,
    url_json: Option<Seq<char>>,
) -> Seq<char> {
    let head = "{\"type\":\"message\",\"data\":{\"date_time\":"@ + timestamp_json;
    let with_message = if kind != MessageKind::Image {
        head + ",\"message\":"@ + content_json
    } else {
        head
    };
    let with_owner = with_message + ",\"owner\":"@ + owner_json(owner);
    let with_kind = match kind {
        MessageKind::Text => with_owner,
        MessageKind::Speech => with_owner + ",\"type\":\"speech\""@,
        MessageKind::Image => with_owner + ",\"prompt\":"@ + content_json + ",\"type\":\"image\""@,
    };
    let with_url = match url_json {
        Some(u) => with_kind + ",\"url\":"@ + u,
        None => with_kind,
    };
    with_url + "}}"@
}

/// The JSON text that `serde_json` writes for a string: the string between
/// double quotes, with the characters escaped that JSON asks for.
pub uninterp spec fn json_string(text: Seq<char>) -> Seq<char>;

/// `serde_json::to_string` on a string slice: the JSON text of that string.
/// Writing a string to memory cannot fail.
#[verifier::external_body]
fn quote(text: &str) -> (quoted: String)
    ensures
        quoted@ == json_string(text@),
{
    serde_json::to_string(text).unwrap_or_default()
}

/// The JSON text of an optional string.
pub open spec fn json_optional(text: Option<Seq<char>>) -> Option<Seq<char>> {
    match text {
        Some(t) => Some(json_string(t)),
        None => None,
    }
}

/// The frame of an event: one JSON object with the members `type` and `data`.
pub open spec fn event_frame(event: EventView) -> Seq<char> {
    match event {
        EventView::Signal(stage) => signal_frame(stage),
        EventView::Message(m) => message_frame(
            m.owner,
            m.kind,
            json_string(m.timestamp),
            json_string(m.content),
            json_optional(m.url),
        ),
    }
}

impl SignalType {
    /// The name of the stage in a frame.
    pub fn name(self) -> (r: &'static str)
        ensures
            r@ == signal_name(self),
    {
        match self {
            SignalType::UploadReceived => "upload_audio",
            SignalType::Transcribing => "transcription",
            SignalType::Deciding => "chat_completion",
            SignalType::ToolInvoking => "draw_image",
            SignalType::Synthesizing => "speech",
            SignalType::Done => "done",
        }
    }

    /// The frame of the signal.
    pub fn to_json(self) -> (r: String)
        ensures
            r@ == signal_frame(self),
    {
        let mut frame = String::from_str("{\"type\":\"signal\",\"data\":{\"status\":\"");
        frame.append(self.name());
        frame.append("\"}}");
        frame
    }
}

/// Writes the frame of a message from texts that are already JSON strings.
pub fn frame_message(
    owner: Owner,
    kind: MessageKind,
    timestamp_json: &str,
    content_json: &str,
    url_json: &Option<String>,
) -> (r: String)
    ensures
        r@ == message_frame(owner, kind, timestamp_json@, content_json@, text_of(*url_json)),
{
    let mut frame = String::from_str("{\"type\":\"message\",\"data\":{\"date_time\":");
    frame.append(timestamp_json);
    match kind {
        MessageKind::Image => {},
        _ => {
            frame.append(",\"message\":");
            frame.append(content_json);
        },
    }
    frame.append(",\"owner\":");
    match owner {
        Owner::User => frame.append("\"user\""),
        Owner::Assistant => frame.append("\"ava\""),
    }
    match kind {
        MessageKind::Text => {},
        MessageKind::Speech => frame.append(",\"type\":\"speech\""),
        MessageKind::Image => {
            frame.append(",\"prompt\":");
            frame.append(content_json);
            frame.append(",\"type\":\"image\"");
        },
    }
    match url_json {
        Some(u) => {
            frame.append(",\"url\":");
            frame.append(u.as_str());
        },
        None => {},
    }
    frame.append("}}");
    frame
}

impl Message {
    /// The frame of the message.
    pub fn to_json(&self) -> (r: String)
        ensures
            r@ == event_frame(EventView::Message(self@)),
    {
        let timestamp_json = quote(self.timestamp.as_str());
        let content_json = quote(self.content.as_str());
        let url_json = match &self.url {
            Some(u) => Some(quote(u.as_str())),
            None => None,
        };
        frame_message(self.owner, self.kind, timestamp_json.as_str(), content_json.as_str(), &url_json)
    }
}

impl EventType {
    /// The frame of the event.
    pub fn to_json(&self) -> (r: String)
        ensures
            r@ == event_frame(self@),
    {
        match self {
            EventType::Message(m) => m.to_json(),
            EventType::Signal(stage) => stage.to_json(),
        }
    }

    /// The user's transcribed input, stamped `timestamp`.
    pub fn input(message: &str, timestamp: String) -> (e: EventType)
        ensures
            e@ == input_event(message@, timestamp@),
    {
        EventType::Message(
            Message {
                owner: Owner::User,
                kind: MessageKind::Text,
                content: String::from_str(message),
                url: None,
                timestamp,
            },
        )
    }

    /// The assistant's spoken reply, stamped `timestamp`.
    pub fn speech(message: &str, url: &str, timestamp: String) -> (e: EventType)
        ensures
            e@ == speech_event(message@, url@, timestamp@),
    {
        EventType::Message(
            Message {
                owner: Owner::Assistant,
                kind: MessageKind::Speech,
                content: String::from_str(message),
                url: Some(String::from_str(url)),
                timestamp,
            },
        )
    }

    /// A generated image, stamped `timestamp`.
    pub fn image(revised_prompt: &str, url: &str, timestamp: String) -> (e: EventType)
        ensures
            e@ == image_event(revised_prompt@, url@, timestamp@),
    {
        EventType::Message(
            Message {
                owner: Owner::Assistant,
                kind: MessageKind::Image,
                content: String::from_str(revised_prompt),
                url: Some(String::from_str(url)),
                timestamp,
            },
        )
    }
}

/// The pattern of a timestamp: the date and the time of day, to the second.
pub const TIMESTAMP_FORMAT: &'static str = "%Y-%m-%d %H:%M:%S";

/// `chrono::Local::now`, written by `DateTime::format` in the pattern of a
/// timestamp. The text is the local time of the call, so nothing is claimed
/// of it; the pattern is asked for because formatting fails on a pattern
/// that is none.
#[verifier::external_body]
pub(crate) fn local_time(pattern: &str) -> (now: String)
    requires
        pattern@ == TIMESTAMP_FORMAT@,
{
    chrono::Local::now().format(pattern).to_string()
}

impl EventType {
    /// The frame of a message of any content.
    pub fn message(value: &Message) -> (r: String)
        ensures
            r@ == event_frame(EventView::Message(value@)),
    {
        value.to_json()
    }

    /// The frame of the user's transcribed input, stamped with the time of
    /// the call.
    pub fn message_input(message: &str) -> (r: String)
        ensures
            exists|now: Seq<char>| r@ == event_frame(#[trigger] input_event(message@, now)),
    {
        let e = EventType::input(message, local_time(TIMESTAMP_FORMAT));
        e.to_json()
    }

    /// The frame of the assistant's spoken reply, stamped with the time of
    /// the call.
    pub fn message_speech(message: &str, url: &str) -> (r: String)
        ensures
            exists|now: Seq<char>| r@ == event_frame(#[trigger] speech_event(message@, url@, now)),
    {
        let e = EventType::speech(message, url, local_time(TIMESTAMP_FORMAT));
        e.to_json()
    }

    /// The frame of a generated image, stamped with the time of the call.
    pub fn message_draw(revised_prompt: &str, url: &str) -> (r: String)
        ensures
            exists|now: Seq<char>| r@ == event_frame(#[trigger] image_event(revised_prompt@, url@, now)),
    {
        let e = EventType::image(revised_prompt, url, local_time(TIMESTAMP_FORMAT));
        e.to_json()
    }

    /// The frame of the signal that an upload was received.
    pub fn signal_audio_upload() -> (r: String)
        ensures
            r@ == signal_frame(SignalType::UploadReceived),
    {
        SignalType::UploadReceived.to_json()
    }

    /// The frame of the signal that the audio is being transcribed.
    pub fn signal_transcription() -> (r: String)
        ensures
            r@ == signal_frame(SignalType::Transcribing),
    {
        SignalType::Transcribing.to_json()
    }

    /// The frame of the signal that the model is being asked.
    pub fn signal_chat_completion() -> (r: String)
        ensures
            r@ == signal_frame(SignalType::Deciding),
    {
        SignalType::Deciding.to_json()
    }

    /// The frame of the signal that an image is being generated.
    pub fn signal_draw_image() -> (r: String)
        ensures
            r@ == signal_frame(SignalType::ToolInvoking),
    {
        SignalType::ToolInvoking.to_json()
    }

    /// The frame of the signal that the reply is being synthesized.
    pub fn signal_speech() -> (r: String)
        ensures
            r@ == signal_frame(SignalType::Synthesizing),
    {
        SignalType::Synthesizing.to_json()
    }

    /// The frame of the signal that the run is complete.
    pub fn signal_done() -> (r: String)
        ensures
            r@ == signal_frame(SignalType::Done),
    {
        SignalType::Done.to_json()
    }
}

} // verus!
