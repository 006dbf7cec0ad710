//! What the two endpoints decide before any collaborator is called: the
//! channel that a stream subscribes to, and the run that an upload begins.

use vstd::prelude::*;

use crate::error::kind_text;
use crate::error::AppError;
use crate::error::ErrorKind;
use crate::extractors::AppContext;
use crate::pipeline::PipelineRun;
use crate::pipeline::Stage;
use crate::AppState;

verus! {

/// How many events a channel holds for a slow subscriber before the oldest
/// are dropped.
pub const MAX_EVENTS: usize = 128;

/// The seconds of silence after which a stream is sent a keep-alive frame.
pub const KEEP_ALIVE_SECONDS: u64 = 1;

/// The text of a keep-alive frame.
pub const KEEP_ALIVE_TEXT: &'static str = "keep-alive-text";

/// What a stream subscribes to.
#[derive(Clone, Copy, Debug, PartialEq, Eq, Structural)]
pub struct Subscription {
    /// The channel of the device.
    pub channel: u64,
    /// Whether the channel was created for this subscription.
    pub created: bool,
}

/// The subscription of a stream for the device of `ctx`: to the device's
/// channel, which is created now if the device had none.
pub fn chats_handler(state: &mut AppState, ctx: &AppContext) -> (subscription: Subscription)
    requires
        old(state).senders.wf(),
        old(state).senders@.channels.dom().contains(ctx.device_id@) || old(state).senders@.issued < u64::MAX,
    ensures
        final(state).senders.wf(),
        final(state).public_path == old(state).public_path,
        final(state).senders@ == old(state).senders@.referenced(ctx.device_id@),
        subscription.channel == old(state).senders@.channel_for(ctx.device_id@),
        subscription.created == !old(state).senders@.channels.dom().contains(ctx.device_id@),
{
    let created = state.senders.get(ctx.device_id.as_str()).is_err();
    let channel = state.senders.get_or_create(ctx.device_id.as_str());
    Subscription { channel, created }
}

/// The run that an upload from the device of `context` begins: on the
/// device's channel, and refused where the device has none.
pub fn assistant_handler(state: &AppState, context: &AppContext) -> (r: Result<PipelineRun, AppError>)
    ensures
        r is Ok <==> state.senders@.channels.dom().contains(context.device_id@),
        r matches Ok(run) ==> {
            &&& run.wf()
            &&& run.device_id@ == context.device_id@
            &&& run.channel == state.senders@.channels[context.device_id@]
            &&& run.stage == Stage::Idle
            &&& run.trace@.len() == 0
            &&& run.calls@.len() == 0
        },
        r matches Err(e) ==> e.kind == ErrorKind::DeviceChannelNotFound && e.detail@ == kind_text(
            ErrorKind::DeviceChannelNotFound,
        ),
{
    PipelineRun::begin(&state.senders, context.device_id.as_str())
}

} // verus!
