//! Delivery: the full-page response for one request, one tick of a
//! live channel, and the live channel's state machine. A channel is
//! `Connected` until its client disconnects; a failed push is the
//! disconnect signal and `Disconnected` is terminal.

use crate::render::{render, spec_render, ViewKind};
use crate::snapshot::{wf_samples, CoreSample};
use crate::store::SharedState;
use vstd::prelude::*;

verus! {

/// The life of one live delivery channel.
#[derive(Clone, Copy, PartialEq, Eq, Structural, Debug)]
pub enum ChannelState {
    Connected,
    Disconnected,
}

/// What one push attempt reported back.
#[derive(Clone, Copy, PartialEq, Eq, Structural, Debug)]
pub enum SendOutcome {
    Delivered,
    Failed,
}

/// The channel's transition relation: a delivered push keeps the
/// channel alive, a failed push disconnects it, and a disconnected
/// channel stays disconnected.
pub open spec fn spec_channel_step(st: ChannelState, ev: SendOutcome) -> ChannelState {
    match st {
        ChannelState::Disconnected => ChannelState::Disconnected,
        ChannelState::Connected => match ev {
            SendOutcome::Delivered => ChannelState::Connected,
            SendOutcome::Failed => ChannelState::Disconnected,
        },
    }
}

/// Advances a channel by one push attempt.
pub fn channel_step(st: ChannelState, ev: SendOutcome) -> (next: ChannelState)
    ensures
        next == spec_channel_step(st, ev),
{
    match st {
        ChannelState::Disconnected => ChannelState::Disconnected,
        ChannelState::Connected => match ev {
            SendOutcome::Delivered => ChannelState::Connected,
            SendOutcome::Failed => ChannelState::Disconnected,
        },
    }
}

/// Law: `Disconnected` is terminal — no event revives a channel, so a
/// torn-down channel never attempts another send.
pub proof fn lemma_disconnected_terminal(ev: SendOutcome)
    ensures
        spec_channel_step(ChannelState::Disconnected, ev) == ChannelState::Disconnected,
{
}

/// Law: a channel leaves `Connected` exactly on a failed send.
pub proof fn lemma_disconnect_iff_failure(st: ChannelState, ev: SendOutcome)
    ensures
        spec_channel_step(st, ev) == ChannelState::Disconnected <==> (st
            == ChannelState::Disconnected || ev == SendOutcome::Failed),
{
}

/// The response body for one full-page request: one read of the
/// store, rendered with the page scaffolding. The result is the
/// `FullPage` rendering of a complete, well-formed snapshot.
pub fn full_page_response(store: &SharedState) -> (s: String)
    ensures
        exists|snap: Seq<CoreSample>|
            #[trigger] wf_samples(snap) && s@ == spec_render(ViewKind::FullPage, snap),
{
    let snap = store.read();
    let s = render(ViewKind::FullPage, &snap);
    proof {
        assert(wf_samples(snap@) && s@ == spec_render(ViewKind::FullPage, snap@));
    }
    s
}

/// One tick of a live channel: one read of the store, rendered as the
/// fragment to push. The result is the `Fragment` rendering of a
/// complete, well-formed snapshot.
pub fn live_tick(store: &SharedState) -> (s: String)
    ensures
        exists|snap: Seq<CoreSample>|
            #[trigger] wf_samples(snap) && s@ == spec_render(ViewKind::Fragment, snap),
{
    let snap = store.read();
    let s = render(ViewKind::Fragment, &snap);
    proof {
        assert(wf_samples(snap@) && s@ == spec_render(ViewKind::Fragment, snap@));
    }
    s
}

} // verus!
