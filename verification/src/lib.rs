//! Device-scoped event distribution and pipeline orchestration for a voice
//! assistant backend: the registry of per-device channels, the events that a
//! pipeline run publishes, the decision between a tool call and a spoken
//! reply, and the state machine that orders a run.

pub mod dispatch;
pub mod error;
pub mod events;
pub mod extractors;
pub mod handlers;
pub mod pipeline;
pub mod registry;

use vstd::prelude::*;
use vstd::string::StringExecFns;

use crate::extractors::random_identifier;
use crate::registry::Registry;

verus! {

/// The directory of the audio artifacts, below the public directory.
pub const AUDIO_DIRECTORY: &'static str = "audio";

/// What is shared by all requests: the directory that is served to clients,
/// and the channels of the devices.
pub struct AppState {
    pub public_path: String,
    pub senders: Registry,
}

impl AppState {
    /// The state of a server that serves `public_path` and has no channel
    /// yet.
    pub fn new(public_path: &str) -> (state: AppState)
        ensures
            state.public_path@ == public_path@,
            state.senders.wf(),
            state.senders@.channels == crate::registry::no_entries(),
            state.senders@.issued == 0,
    {
        AppState { public_path: String::from_str(public_path), senders: Registry::new() }
    }
}

/// The name of the audio file with the identifier `id`.
pub open spec fn audio_file(id: Seq<char>) -> Seq<char> {
    id + ".mp3"@
}

/// The address under which a device's audio file is served.
pub open spec fn audio_url(device_id: Seq<char>, file: Seq<char>) -> Seq<char> {
    "/audio/"@ + device_id + "/"@ + file
}

/// That `location` is where the audio of `device_id` with the identifier `id`
/// goes: the components of its path below the public directory (the audio
/// directory, the device, the file) and its address.
pub open spec fn located(location: (Vec<String>, String), device_id: Seq<char>, id: Seq<char>) -> bool {
    &&& location.0@.len() == 3
    &&& location.0@[0]@ == AUDIO_DIRECTORY@
    &&& location.0@[1]@ == device_id
    &&& location.0@[2]@ == audio_file(id)
    &&& location.1@ == audio_url(device_id, audio_file(id))
}

/// Where the audio of `device_id` with the identifier `id` goes.
pub fn audio_path_of(device_id: &str, id: &str) -> (location: (Vec<String>, String))
    ensures
        located(location, device_id@, id@),
{
    let mut file = String::from_str(id);
    file.append(".mp3");
    let mut url = String::from_str("/audio/");
    url.append(device_id);
    url.append("/");
    url.append(file.as_str());
    let mut path: Vec<String> = Vec::new();
    path.push(String::from_str(AUDIO_DIRECTORY));
    path.push(String::from_str(device_id));
    path.push(file);
    (path, url)
}

/// Where a new audio artifact of `device_id` goes: a file named by a fresh
/// identifier, so that no two artifacts collide.
pub fn audio_path(device_id: &str) -> (location: (Vec<String>, String))
    ensures
        exists|id: Seq<char>| id.len() == 36 && #[trigger] located(location, device_id@, id),
{
    let id = random_identifier();
    audio_path_of(device_id, id.as_str())
}

} // verus!
