//! The tool dispatcher: what a chat completion asks for, a tool call or a
//! spoken reply.

use vstd::prelude::*;
use vstd::string::StringExecFns;

use crate::error::kind_text;
use crate::error::AppError;
use crate::error::ErrorKind;
use crate::events::text_of;

verus! {

/// The instruction that opens every conversation with the model.
pub const SYSTEM_PROMPT: &'static str =
    "I can help to identify which tool to use, if no proper tool could be used, I'll directly reply the message with pure text";

/// The name under which the assistant speaks to the model.
pub const ASSISTANT_NAME: &'static str = "ava";

/// The name under which the user's input is handed to the model.
pub const USER_NAME: &'static str = "user1";

/// The one tool declared to the model.
pub const DRAW_IMAGE: &'static str = "draw_image";

/// What the declaration of the tool says of it.
pub const DRAW_IMAGE_DESCRIPTION: &'static str = "Draw an image based on the prompt.";

/// The hint handed to the transcriber with the audio.
pub const TRANSCRIPTION_PROMPT: &'static str =
    "If audio language is Chinese, please use Simplified Chinese";

/// What is said where a completion holds no choice.
pub const NO_CHOICE: &'static str = "expect at least one choice";

/// A function call that the model asks for: the function's name and its
/// arguments as JSON text.
#[derive(Clone, Debug, PartialEq, Eq)]
pub struct FunctionCall {
    pub name: String,
    pub arguments: String,
}

/// The assistant's message in a chat completion.
#[derive(Clone, Debug, PartialEq, Eq)]
pub struct ChatMessage {
    pub content: Option<String>,
    pub tool_calls: Vec<FunctionCall>,
}

/// A chat completion: the messages that the model offers.
#[derive(Clone, Debug, PartialEq, Eq)]
pub struct ChatCompletion {
    pub choices: Vec<ChatMessage>,
}

/// What a run does with the model's answer.
#[derive(Clone, Debug, PartialEq, Eq)]
pub enum Decision {
    /// Generate an image from the prompt.
    DrawImage { prompt: String },
    /// Speak the text.
    Speak { text: String },
}

/// A decision as a mathematical value.
pub ghost enum DecisionView {
    DrawImage { prompt: Seq<char> },
    Speak { text: Seq<char> },
}

impl View for Decision {
    type V = DecisionView;

    open spec fn view(&self) -> DecisionView {
        match self {
            Decision::DrawImage { prompt } => DecisionView::DrawImage { prompt: prompt@ },
            Decision::Speak { text } => DecisionView::Speak { text: text@ },
        }
    }
}

/// The member `prompt` of the JSON object that `arguments` is, where
/// `arguments` is JSON text for an object with a member of that name whose
/// value is a string; `None` for every other text.
pub uninterp spec fn prompt_argument(arguments: Seq<char>) -> Option<Seq<char>>;

/// `serde_json::from_str`, read as a `serde_json::Value`: hands out the string
/// under `prompt` where the text is a JSON object that has one, and `None`
/// where the text is no JSON, no object, or holds no string under that name.
#[verifier::external_body]
fn parse_prompt(arguments: &str) -> (prompt: Option<String>)
    ensures
        text_of(prompt) == prompt_argument(arguments@),
{
    match serde_json::from_str::<serde_json::Value>(arguments) {
        Ok(serde_json::Value::Object(mut members)) => match members.remove("prompt") {
            Some(serde_json::Value::String(text)) => Some(text),
            _ => None,
        },
        _ => None,
    }
}

/// The rule of the dispatcher. A call of `draw_image` asks for an image from
/// the prompt among its arguments, and fails where they hold none. Without
/// such a call the text is spoken. Where there is no text either, the run
/// fails: as an unsupported tool if some other function was called, as an
/// empty reply if none was.
pub open spec fn decide(
    content: Option<Seq<char>>,
    call_name: Option<Seq<char>>,
    prompt: Option<Seq<char>>,
) -> Result<DecisionView, ErrorKind> {
    if call_name == Some(DRAW_IMAGE@) {
        match prompt {
            Some(p) => Ok(DecisionView::DrawImage { prompt: p }),
            None => Err(ErrorKind::InvalidToolArguments),
        }
    } else {
        match content {
            Some(text) => Ok(DecisionView::Speak { text }),
            None => if call_name is Some {
                Err(ErrorKind::UnsupportedTool)
            } else {
                Err(ErrorKind::EmptyReply)
            },
        }
    }
}

/// That `r` is the decision, or the error of the kind, that `expected` names.
pub open spec fn decided(r: Result<Decision, AppError>, expected: Result<DecisionView, ErrorKind>) -> bool {
    match expected {
        Ok(d) => r matches Ok(x) && x@ == d,
        Err(k) => r matches Err(e) && e.kind == k && e.detail@ == kind_text(k),
    }
}

/// The function call that counts in a message: the last one.
pub open spec fn requested_call(message: ChatMessage) -> Option<FunctionCall> {
    if message.tool_calls@.len() > 0 {
        Some(message.tool_calls@.last())
    } else {
        None
    }
}

/// What the dispatcher makes of a message.
pub open spec fn plan(message: ChatMessage) -> Result<DecisionView, ErrorKind> {
    match requested_call(message) {
        Some(call) => decide(text_of(message.content), Some(call.name@), prompt_argument(call.arguments@)),
        None => decide(text_of(message.content), None, None),
    }
}

/// What the dispatcher makes of a completion: of its last choice, and a
/// collaborator's failure where it has none.
pub open spec fn plan_completion(completion: ChatCompletion) -> Result<DecisionView, ErrorKind> {
    if completion.choices@.len() > 0 {
        plan(completion.choices@.last())
    } else {
        Err(ErrorKind::CollaboratorFailure)
    }
}

/// Whether two texts are the same.
pub fn same_text(a: &str, b: &str) -> (r: bool)
    ensures
        r == (a@ == b@),
{
    String::from_str(a) == String::from_str(b)
}

impl Decision {
    /// Applies the dispatcher's rule to the parts of a message: its text, the
    /// name of the function it calls, and the prompt read from the call's
    /// arguments.
    pub fn from_parts(content: Option<String>, call_name: Option<String>, prompt: Option<String>) -> (r: Result<
        Decision,
        AppError,
    >)
        ensures
            decided(r, decide(text_of(content), text_of(call_name), text_of(prompt))),
    {
        let draws = match &call_name {
            Some(name) => same_text(name.as_str(), DRAW_IMAGE),
            None => false,
        };
        if draws {
            match prompt {
                Some(p) => Ok(Decision::DrawImage { prompt: p }),
                None => Err(AppError::of_kind(ErrorKind::InvalidToolArguments)),
            }
        } else {
            match content {
                Some(text) => Ok(Decision::Speak { text }),
                None => if call_name.is_some() {
                    Err(AppError::of_kind(ErrorKind::UnsupportedTool))
                } else {
                    Err(AppError::of_kind(ErrorKind::EmptyReply))
                },
            }
        }
    }
}

/// Decides what to do with the assistant's message: reads the arguments of
/// its last function call and applies the dispatcher's rule.
pub fn dispatch(message: ChatMessage) -> (r: Result<Decision, AppError>)
    ensures
        decided(r, plan(message)),
{
    let mut calls = message.tool_calls;
    match calls.pop() {
        Some(call) => {
            let prompt = parse_prompt(call.arguments.as_str());
            Decision::from_parts(message.content, Some(call.name), prompt)
        },
        None => Decision::from_parts(message.content, None, None),
    }
}

/// The message that counts in a completion: its last choice. A completion
/// without choices is a failure of the collaborator.
pub fn select_reply(completion: ChatCompletion) -> (r: Result<ChatMessage, AppError>)
    ensures
        r is Ok <==> completion.choices@.len() > 0,
        r matches Ok(m) ==> m == completion.choices@.last(),
        r matches Err(e) ==> e.kind == ErrorKind::CollaboratorFailure && e.detail@ == NO_CHOICE@,
{
    let mut choices = completion.choices;
    match choices.pop() {
        Some(m) => Ok(m),
        None => Err(AppError::collaborator(String::from_str(NO_CHOICE))),
    }
}

/// The text of a completion that was asked for without tools: the content of
/// its last choice.
pub fn chat_completion(completion: ChatCompletion) -> (r: Result<String, AppError>)
    ensures
        r is Ok <==> completion.choices@.len() > 0 && completion.choices@.last().content is Some,
        r matches Ok(text) ==> Some(text) == completion.choices@.last().content,
        r matches Err(e) ==> if completion.choices@.len() == 0 {
            e.kind == ErrorKind::CollaboratorFailure && e.detail@ == NO_CHOICE@
        } else {
            e.kind == ErrorKind::EmptyReply && e.detail@ == kind_text(ErrorKind::EmptyReply)
        },
{
    match select_reply(completion) {
        Ok(m) => match m.content {
            Some(text) => Ok(text),
            None => Err(AppError::of_kind(ErrorKind::EmptyReply)),
        },
        Err(e) => Err(e),
    }
}

/// Decides what to do with a completion that was asked for with the tool
/// declared.
pub fn chat_completion_with_tools(completion: ChatCompletion) -> (r: Result<Decision, AppError>)
    ensures
        match plan_completion(completion) {
            Ok(d) => r matches Ok(x) && x@ == d,
            Err(k) => r matches Err(e) && e.kind == k && (e.detail@ == if completion.choices@.len() == 0 {
                NO_CHOICE@
            } else {
                kind_text(k)
            }),
        },
{
    match select_reply(completion) {
        Ok(m) => dispatch(m),
        Err(e) => Err(e),
    }
}

} // verus!
