//! Comment fan-out: a newly posted comment goes to every viewer of the
//! video's comment stream, best effort and without excluding anyone.
use vstd::prelude::*;
use crate::ConnId;
use crate::models::{comment_json, Comment};
use crate::registry::{handles_of, registered, registry_wf, ConnectionRegistry};

verus! {

/// One message and the connections it is to be delivered to.
pub struct FanOut {
    pub targets: Vec<ConnId>,
    pub payload: String,
}

/// The delivery of `comment` to the viewers of `video_id`: every connection
/// registered for it at this moment, with the comment's JSON.
pub fn broadcast_comment(video_id: i32, comment: &Comment, clients: &ConnectionRegistry) -> (r:
    FanOut)
    ensures
        r.targets@ == clients.handles(video_id),
        r.payload@ == comment_json(*comment),
{
    FanOut { targets: clients.snapshot(video_id), payload: comment.to_json() }
}

/// Fan-out goes to every connection registered for the video when it
/// begins, and to none that registers afterwards, though later fan-outs
/// reach that one.
pub proof fn lemma_fanout_is_a_snapshot(
    m: Map<i32, Seq<ConnId>>,
    video_id: i32,
    targets: Seq<ConnId>,
    newcomer: ConnId,
)
    requires
        registry_wf(m),
        targets == handles_of(m, video_id),
        !handles_of(m, video_id).contains(newcomer),
    ensures
        forall|c: ConnId| handles_of(m, video_id).contains(c) ==> #[trigger] targets.contains(c),
        !targets.contains(newcomer),
        handles_of(registered(m, video_id, newcomer), video_id).contains(newcomer),
{
    let later = handles_of(registered(m, video_id, newcomer), video_id);
    assert(later[later.len() - 1] == newcomer);
}

} // verus!
