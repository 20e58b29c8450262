//! The messages of the watch-party protocol and the JSON text sent to viewers.
use vstd::prelude::*;
use vstd::string::StringExecFns;
use crate::decimal::{int_digits, nat_digits, push_i32, push_u64};
use crate::json::{is_json_number, json_number, json_string_literal, quote_json};

verus! {

/// A playback-control message as a viewer sends it. `time` is the playback
/// position as the text of a JSON number, when the viewer gave one; a message
/// is well formed when that text is a JSON number.
pub struct ControlMessage {
    pub action: String,
    pub time: Option<String>,
}

/// A control message tagged on the server with who sent it, for which
/// video, and a source id; it is what viewers and the relay receive. It is
/// well formed when its type is `watchPartyControl` and its time, if any, is
/// a JSON number.
pub struct WatchPartyMessage {
    pub type_field: String,
    pub video_id: i32,
    pub user_id: i32,
    pub action: String,
    pub time: Option<String>,
    pub source_id: String,
}

/// The value of the `type` member of an enriched control message.
pub open spec fn control_type() -> Seq<char> {
    "watchPartyControl"@
}

/// `user_<user id>_time_<milliseconds since the epoch>`.
pub open spec fn source_id_text(user_id: int, millis: nat) -> Seq<char> {
    "user_"@ + int_digits(user_id) + "_time_"@ + nat_digits(millis)
}

/// The view of an optional string.
pub open spec fn opt_view(t: Option<String>) -> Option<Seq<char>> {
    match t {
        Some(s) => Some(s@),
        None => None,
    }
}

/// Whether an optional playback position is absent or a JSON number.
pub open spec fn time_ok(t: Option<String>) -> bool {
    match t {
        Some(s) => is_json_number(s@),
        None => true,
    }
}

fn check_time(t: &Option<String>) -> (r: bool)
    ensures
        r == time_ok(*t),
{
    match t {
        Some(s) => json_number(s.as_str()),
        None => true,
    }
}

/// The JSON value of an optional playback position: the number, or `null`.
pub open spec fn time_json(t: Option<Seq<char>>) -> Seq<char> {
    match t {
        Some(s) => s,
        None => "null"@,
    }
}

/// The JSON object of an enriched control message, members in this order:
/// type, action, time, user_id, video_id, source_id.
pub open spec fn enriched_json(
    type_field: Seq<char>,
    action: Seq<char>,
    time: Option<Seq<char>>,
    user_id: int,
    video_id: int,
    source_id: Seq<char>,
) -> Seq<char> {
    "{\"type\":"@ + json_string_literal(type_field) + ",\"action\":"@ + json_string_literal(action)
        + ",\"time\":"@ + time_json(time) + ",\"user_id\":"@ + int_digits(user_id)
        + ",\"video_id\":"@ + int_digits(video_id) + ",\"source_id\":"@ + json_string_literal(
        source_id,
    ) + "}"@
}

/// The source id of a message sent by `user_id` at `millis`.
pub fn make_source_id(user_id: i32, millis: u64) -> (r: String)
    ensures
        r@ == source_id_text(user_id as int, millis as nat),
{
    let mut out = String::from_str("user_");
    push_i32(&mut out, user_id);
    out.append("_time_");
    push_u64(&mut out, millis);
    out
}

fn clone_opt(t: &Option<String>) -> (r: Option<String>)
    ensures
        opt_view(r) == opt_view(*t),
{
    match t {
        Some(s) => Some(s.clone()),
        None => None,
    }
}

impl ControlMessage {
    /// Whether the position, if any, is a JSON number.
    pub open spec fn wf(&self) -> bool {
        time_ok(self.time)
    }

    /// A control message with the given action and position; `None` when the
    /// position is not a JSON number.
    pub fn new(action: String, time: Option<String>) -> (r: Option<Self>)
        ensures
            r is Some <==> time_ok(time),
            r matches Some(m) ==> m.action@ == action@ && opt_view(m.time) == opt_view(time)
                && m.wf(),
    {
        if check_time(&time) {
            Some(ControlMessage { action, time })
        } else {
            None
        }
    }

    /// Whether the message is well formed.
    pub fn is_well_formed(&self) -> (r: bool)
        ensures
            r == self.wf(),
    {
        check_time(&self.time)
    }
}

impl WatchPartyMessage {
    /// Whether the message is of the control type and its position, if any,
    /// is a JSON number.
    pub open spec fn wf(&self) -> bool {
        self.type_field@ == control_type() && time_ok(self.time)
    }

    /// Whether the message is well formed.
    pub fn is_well_formed(&self) -> (r: bool)
        ensures
            r == self.wf(),
    {
        let control = String::from_str("watchPartyControl");
        self.type_field == control && check_time(&self.time)
    }

    /// The JSON text of this message.
    pub open spec fn json(&self) -> Seq<char> {
        enriched_json(
            self.type_field@,
            self.action@,
            opt_view(self.time),
            self.user_id as int,
            self.video_id as int,
            self.source_id@,
        )
    }

    /// `msg` as sent by `user_id` on `video_id` at `millis`.
    pub fn enriched(msg: &ControlMessage, user_id: i32, video_id: i32, millis: u64) -> (r: Self)
        ensures
            r.type_field@ == control_type(),
            r.video_id == video_id,
            r.user_id == user_id,
            r.action@ == msg.action@,
            opt_view(r.time) == opt_view(msg.time),
            r.source_id@ == source_id_text(user_id as int, millis as nat),
            msg.wf() ==> r.wf(),
    {
        WatchPartyMessage {
            type_field: String::from_str("watchPartyControl"),
            video_id,
            user_id,
            action: msg.action.clone(),
            time: clone_opt(&msg.time),
            source_id: make_source_id(user_id, millis),
        }
    }

    /// Renders the message as the JSON object that viewers receive.
    pub fn to_json(&self) -> (r: String)
        ensures
            r@ == self.json(),
    {
        let mut out = String::from_str("{\"type\":");
        out.append(quote_json(self.type_field.as_str()).as_str());
        out.append(",\"action\":");
        out.append(quote_json(self.action.as_str()).as_str());
        out.append(",\"time\":");
        match &self.time {
            Some(t) => out.append(t.as_str()),
            None => out.append("null"),
        }
        out.append(",\"user_id\":");
        push_i32(&mut out, self.user_id);
        out.append(",\"video_id\":");
        push_i32(&mut out, self.video_id);
        out.append(",\"source_id\":");
        out.append(quote_json(self.source_id.as_str()).as_str());
        out.append("}");
        out
    }
}

} // verus!
