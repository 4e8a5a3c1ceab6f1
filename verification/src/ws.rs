//! Decisions of the WebSocket agent chat.
//!
//! Protocol:
//! ```text
//! Client -> Server: {"type":"message","content":"Hello"}
//! Server -> Client: {"type":"chunk","content":"Hi! "}
//! Server -> Client: {"type":"done","full_response":"..."}
//! ```
//! The socket, the channels, the agent task and the timers belong to the
//! caller, which feeds each thing that happens to the functions here and
//! carries out what they answer.

use vstd::prelude::*;
use crate::text::opt_str;
use vstd::string::*;
use crate::json::{
    json_str, json_view, scrub, scrub_json, str_member, Json, JsonValue,
};
use crate::text::{str_eq, to_owned_string};

verus! {

/// Query parameters of the socket upgrade (browsers cannot send headers).
pub struct WsQuery {
    pub token: Option<String>,
}

impl WsQuery {
    /// The token to check; empty when none was given.
    pub fn token_or_empty(&self) -> (r: &str)
        ensures
            r@ == match self.token {
                Some(t) => t@,
                None => Seq::empty(),
            },
    {
        match &self.token {
            Some(t) => t.as_str(),
            None => {
                proof {
                    reveal_strlit("");
                }
                ""
            },
        }
    }
}

/// The body of the answer to a refused upgrade.
pub const UNAUTHORIZED_BODY: &'static str = "Unauthorized — provide ?token=<bearer_token>";

/// An upgrade proceeds when pairing is not required, or when the token of
/// the query authenticates.
pub fn upgrade_allowed(require_pairing: bool, token_authenticated: bool) -> (r: bool)
    ensures
        r == (!require_pairing || token_authenticated),
{
    !require_pairing || token_authenticated
}

/// A frame `{"type": t, k: v}`.
pub open spec fn typed_frame(t: Seq<char>, k: Seq<char>, v: Json) -> Json {
    Json::Object(seq![("type"@, Json::Str(t)), (k, v)])
}

/// Build `{"type": t, k: v}`.
pub fn frame(t: &str, k: &str, v: JsonValue) -> (r: JsonValue)
    ensures
        r@ == typed_frame(t@, k@, v@),
{
    let mut m: Vec<(String, JsonValue)> = Vec::new();
    m.push((to_owned_string("type"), json_str(t)));
    m.push((to_owned_string(k), v));
    let r = JsonValue::Object(m);
    proof {
        assert(r@->Object_0 =~= typed_frame(t@, k@, v@)->Object_0);
    }
    r
}

/// `{"type":"error","message": message}`.
pub open spec fn error_frame(message: Seq<char>) -> Json {
    typed_frame("error"@, "message"@, Json::Str(message))
}

/// `{"type":"chunk","content": content}`.
pub open spec fn chunk_frame(content: Seq<char>) -> Json {
    typed_frame("chunk"@, "content"@, Json::Str(content))
}

/// `{"type":"done","full_response": response}`.
pub open spec fn done_frame(response: Seq<char>) -> Json {
    typed_frame("done"@, "full_response"@, Json::Str(response))
}

/// What arrived on the socket. A text message comes parsed: `None` when it
/// is not JSON.
pub enum WsIncoming {
    Text(Option<JsonValue>),
    Close,
    Failed,
    Other,
}

/// What to do with a message that arrived between turns.
pub enum SocketStep {
    /// Stop serving the socket.
    Stop,
    /// Wait for the next message.
    Skip,
    /// Send this frame, then wait for the next message.
    Reply(JsonValue),
    /// Run an agent turn on this user message.
    StartTurn(String),
}

/// The message type of a frame; empty when it has none.
pub open spec fn frame_type(j: Json) -> Seq<char> {
    match str_member(j, "type"@) {
        Some(t) => t,
        None => Seq::empty(),
    }
}

/// The content of a frame; empty when it has none.
pub open spec fn frame_content(j: Json) -> Seq<char> {
    match str_member(j, "content"@) {
        Some(c) => c,
        None => Seq::empty(),
    }
}

/// Between turns: a close or a failure stops; text that is not JSON is
/// answered with an error frame; a frame of type `message` with a non-empty
/// `content` starts a turn; everything else (approval responses included,
/// which only a running turn handles) is skipped.
pub open spec fn socket_step_spec(incoming: WsIncoming) -> SocketStepSpec {
    match incoming {
        WsIncoming::Close => SocketStepSpec::Stop,
        WsIncoming::Failed => SocketStepSpec::Stop,
        WsIncoming::Other => SocketStepSpec::Skip,
        WsIncoming::Text(None) => SocketStepSpec::Reply(error_frame("Invalid JSON"@)),
        WsIncoming::Text(Some(v)) => if frame_type(v@) == "message"@ && frame_content(v@).len()
            > 0 {
            SocketStepSpec::StartTurn(frame_content(v@))
        } else {
            SocketStepSpec::Skip
        },
    }
}

/// The model of a `SocketStep`.
pub enum SocketStepSpec {
    Stop,
    Skip,
    Reply(Json),
    StartTurn(Seq<char>),
}

impl View for SocketStep {
    type V = SocketStepSpec;

    open spec fn view(&self) -> SocketStepSpec {
        match self {
            SocketStep::Stop => SocketStepSpec::Stop,
            SocketStep::Skip => SocketStepSpec::Skip,
            SocketStep::Reply(f) => SocketStepSpec::Reply(f@),
            SocketStep::StartTurn(c) => SocketStepSpec::StartTurn(c@),
        }
    }
}

fn str_or_empty(o: Option<&str>) -> (r: &str)
    ensures
        r@ == match opt_str(o) {
            Some(s) => s,
            None => Seq::empty(),
        },
{
    match o {
        Some(s) => s,
        None => {
            proof {
                reveal_strlit("");
            }
            ""
        },
    }
}

/// Decide what a message that arrived between turns leads to.
pub fn socket_step(incoming: WsIncoming) -> (r: SocketStep)
    ensures
        r@ == socket_step_spec(incoming),
{
    match incoming {
        WsIncoming::Close => SocketStep::Stop,
        WsIncoming::Failed => SocketStep::Stop,
        WsIncoming::Other => SocketStep::Skip,
        WsIncoming::Text(None) => SocketStep::Reply(
            frame("error", "message", json_str("Invalid JSON")),
        ),
        WsIncoming::Text(Some(v)) => {
            let t = str_or_empty(v.get_str("type"));
            if !str_eq(t, "message") {
                return SocketStep::Skip;
            }
            let content = str_or_empty(v.get_str("content"));
            if content.unicode_len() == 0 {
                return SocketStep::Skip;
            }
            SocketStep::StartTurn(content.to_owned())
        },
    }
}

/// The label of the provider in agent events: the configured default
/// provider, else `unknown`.
pub fn provider_label(default_provider: &Option<String>) -> (r: String)
    ensures
        r@ == match default_provider {
            Some(p) => p@,
            None => "unknown"@,
        },
{
    match default_provider {
        Some(p) => p.clone(),
        None => to_owned_string("unknown"),
    }
}

/// `{"type": kind, "provider": provider, "model": model}`, broadcast when a
/// turn starts (`agent_start`) and ends (`agent_end`).
pub open spec fn agent_event_spec(kind: Seq<char>, provider: Seq<char>, model: Seq<char>) -> Json {
    Json::Object(
        seq![
            ("type"@, Json::Str(kind)),
            ("provider"@, Json::Str(provider)),
            ("model"@, Json::Str(model)),
        ],
    )
}

/// Build an agent event (see `agent_event_spec`).
pub fn agent_event(kind: &str, provider: &str, model: &str) -> (r: JsonValue)
    ensures
        r@ == agent_event_spec(kind@, provider@, model@),
{
    let mut m: Vec<(String, JsonValue)> = Vec::new();
    m.push((to_owned_string("type"), json_str(kind)));
    m.push((to_owned_string("provider"), json_str(provider)));
    m.push((to_owned_string("model"), json_str(model)));
    let r = JsonValue::Object(m);
    proof {
        assert(r@->Object_0 =~= agent_event_spec(kind@, provider@, model@)->Object_0);
    }
    r
}

/// How the agent task of a turn ended.
pub enum AgentOutcome {
    /// The full response.
    Replied(String),
    /// The agent failed; the message is already fit to show.
    Failed(String),
    /// The task itself failed (panicked or was cancelled).
    Crashed(String),
}

/// What happened while a turn runs.
pub enum TurnEvent {
    /// A streamed piece of the response (`None`: that stream has ended).
    Delta(Option<String>),
    /// An event of the agent, forwarded as it is (`None`: ended).
    AgentEvent(Option<JsonValue>),
    /// A message from the client.
    Incoming(WsIncoming),
    /// The agent task finished.
    Finished(AgentOutcome),
}

/// A user's answer to an approval request.
#[derive(Debug, Clone, Copy, PartialEq, Eq, Structural)]
pub enum ApprovalDecision {
    Yes,
    No,
    Always,
}

/// What to do on a turn event.
pub enum TurnStep {
    /// Send this frame and keep waiting.
    Send(JsonValue),
    /// Keep waiting.
    Wait,
    /// Answer the pending approval request with this id, and keep waiting.
    Resolve(String, ApprovalDecision),
    /// The client went away: stop serving the socket.
    Hangup,
    /// Send this frame and end the turn.
    End(JsonValue),
}

/// The model of a `TurnStep`.
pub enum TurnStepSpec {
    Send(Json),
    Wait,
    Resolve(Seq<char>, ApprovalDecision),
    Hangup,
    End(Json),
}

impl View for TurnStep {
    type V = TurnStepSpec;

    open spec fn view(&self) -> TurnStepSpec {
        match self {
            TurnStep::Send(f) => TurnStepSpec::Send(f@),
            TurnStep::Wait => TurnStepSpec::Wait,
            TurnStep::Resolve(id, d) => TurnStepSpec::Resolve(id@, *d),
            TurnStep::Hangup => TurnStepSpec::Hangup,
            TurnStep::End(f) => TurnStepSpec::End(f@),
        }
    }
}

/// The decision a client's word stands for: `yes`, `no` and `always`;
/// anything else is a no.
pub open spec fn decision_spec(word: Seq<char>) -> ApprovalDecision {
    if word == "yes"@ {
        ApprovalDecision::Yes
    } else if word == "always"@ {
        ApprovalDecision::Always
    } else {
        ApprovalDecision::No
    }
}

/// Read a client's decision word.
pub fn decision_from_word(word: &str) -> (r: ApprovalDecision)
    ensures
        r == decision_spec(word@),
{
    if str_eq(word, "yes") {
        ApprovalDecision::Yes
    } else if str_eq(word, "always") {
        ApprovalDecision::Always
    } else {
        ApprovalDecision::No
    }
}

/// While a turn runs: a streamed piece becomes a chunk frame (the clear
/// marker an empty chunk); agent events are forwarded; an approval response
/// with a request id and a decision resolves that request; a close or a
/// failure of the socket hangs up; the end of the agent task ends the turn
/// with a `done` frame, or with an error frame.
pub open spec fn turn_step_spec(event: TurnEvent, clear_marker: Seq<char>) -> TurnStepSpec {
    match event {
        TurnEvent::Delta(None) => TurnStepSpec::Wait,
        TurnEvent::Delta(Some(d)) => if d@ == clear_marker {
            TurnStepSpec::Send(chunk_frame(Seq::empty()))
        } else {
            TurnStepSpec::Send(chunk_frame(d@))
        },
        TurnEvent::AgentEvent(None) => TurnStepSpec::Wait,
        TurnEvent::AgentEvent(Some(e)) => TurnStepSpec::Send(e@),
        TurnEvent::Incoming(WsIncoming::Close) => TurnStepSpec::Hangup,
        TurnEvent::Incoming(WsIncoming::Failed) => TurnStepSpec::Hangup,
        TurnEvent::Incoming(WsIncoming::Text(Some(v))) => if frame_type(v@) == "approval_response"@ {
            match (str_member(v@, "request_id"@), str_member(v@, "decision"@)) {
                (Some(id), Some(word)) => TurnStepSpec::Resolve(id, decision_spec(word)),
                _ => TurnStepSpec::Wait,
            }
        } else {
            TurnStepSpec::Wait
        },
        TurnEvent::Incoming(_) => TurnStepSpec::Wait,
        TurnEvent::Finished(AgentOutcome::Replied(r)) => TurnStepSpec::End(done_frame(r@)),
        TurnEvent::Finished(AgentOutcome::Failed(m)) => TurnStepSpec::End(error_frame(m@)),
        TurnEvent::Finished(AgentOutcome::Crashed(e)) => TurnStepSpec::End(
            error_frame("agent task failed: "@ + e@),
        ),
    }
}

/// Decide what a turn event leads to (see `turn_step_spec`).
pub fn turn_step(event: TurnEvent, clear_marker: &str) -> (r: TurnStep)
    ensures
        r@ == turn_step_spec(event, clear_marker@),
{
    match event {
        TurnEvent::Delta(None) => TurnStep::Wait,
        TurnEvent::Delta(Some(d)) => {
            if str_eq(d.as_str(), clear_marker) {
                let f = frame("chunk", "content", json_str(""));
                proof {
                    reveal_strlit("");
                    assert(""@ =~= Seq::<char>::empty());
                }
                TurnStep::Send(f)
            } else {
                TurnStep::Send(frame("chunk", "content", JsonValue::Str(d)))
            }
        },
        TurnEvent::AgentEvent(None) => TurnStep::Wait,
        TurnEvent::AgentEvent(Some(e)) => TurnStep::Send(e),
        TurnEvent::Incoming(WsIncoming::Close) => TurnStep::Hangup,
        TurnEvent::Incoming(WsIncoming::Failed) => TurnStep::Hangup,
        TurnEvent::Incoming(WsIncoming::Text(Some(v))) => {
            let t = str_or_empty(v.get_str("type"));
            if !str_eq(t, "approval_response") {
                return TurnStep::Wait;
            }
            match (v.get_str("request_id"), v.get_str("decision")) {
                (Some(id), Some(word)) => TurnStep::Resolve(id.to_owned(), decision_from_word(word)),
                _ => TurnStep::Wait,
            }
        },
        TurnEvent::Incoming(_) => TurnStep::Wait,
        TurnEvent::Finished(AgentOutcome::Replied(r)) => TurnStep::End(
            frame("done", "full_response", JsonValue::Str(r)),
        ),
        TurnEvent::Finished(AgentOutcome::Failed(m)) => TurnStep::End(
            frame("error", "message", JsonValue::Str(m)),
        ),
        TurnEvent::Finished(AgentOutcome::Crashed(e)) => {
            let mut m = to_owned_string("agent task failed: ");
            m.append(e.as_str());
            TurnStep::End(frame("error", "message", JsonValue::Str(m)))
        },
    }
}

/// `{"type":"approval_request","request_id":..,"tool_name":..,"args":..}`
/// with the arguments scrubbed.
pub open spec fn approval_request_spec(request_id: Seq<char>, tool_name: Seq<char>, args: Json) -> Json {
    Json::Object(
        seq![
            ("type"@, Json::Str("approval_request"@)),
            ("request_id"@, Json::Str(request_id)),
            ("tool_name"@, Json::Str(tool_name)),
            ("args"@, scrub(args)),
        ],
    )
}

/// The frame that asks the user to approve a tool call.
pub fn approval_request_frame(request_id: &str, tool_name: &str, args: &JsonValue) -> (r: JsonValue)
    ensures
        r@ == approval_request_spec(request_id@, tool_name@, args@),
{
    let mut m: Vec<(String, JsonValue)> = Vec::new();
    m.push((to_owned_string("type"), json_str("approval_request")));
    m.push((to_owned_string("request_id"), json_str(request_id)));
    m.push((to_owned_string("tool_name"), json_str(tool_name)));
    m.push((to_owned_string("args"), scrub_json(args)));
    let r = JsonValue::Object(m);
    proof {
        assert(r@->Object_0 =~= approval_request_spec(request_id@, tool_name@, args@)->Object_0);
    }
    r
}

/// The decision of a prompt: the user's answer, or no when none came in
/// time.
pub fn prompt_outcome(answer: Option<ApprovalDecision>) -> (r: ApprovalDecision)
    ensures
        r == match answer {
            Some(d) => d,
            None => ApprovalDecision::No,
        },
{
    match answer {
        Some(d) => d,
        None => ApprovalDecision::No,
    }
}

/// The answers waiting in a table, by request id (a later entry for the
/// same id would win; the table keeps ids unique).
pub open spec fn pending_map<T>(s: Seq<(String, T)>) -> Map<Seq<char>, T>
    decreases s.len(),
{
    if s.len() == 0 {
        Map::empty()
    } else {
        pending_map(s.drop_last()).insert(s.last().0@, s.last().1)
    }
}

/// No request id occurs twice.
pub open spec fn ids_unique<T>(s: Seq<(String, T)>) -> bool {
    forall|i: int, j: int| 0 <= i < j < s.len() ==> s[i].0@ != s[j].0@
}

proof fn lemma_pending_map<T>(s: Seq<(String, T)>)
    requires
        ids_unique(s),
    ensures
        forall|k: Seq<char>| #[trigger] pending_map(s).dom().contains(k) <==> exists|i: int|
            0 <= i < s.len() && s[i].0@ == k,
        forall|i: int| 0 <= i < s.len() ==> #[trigger] pending_map(s)[s[i].0@] == s[i].1,
    decreases s.len(),
{
    if s.len() > 0 {
        let p = s.drop_last();
        assert(ids_unique(p));
        lemma_pending_map(p);
        assert forall|k: Seq<char>| #[trigger] pending_map(s).dom().contains(k) implies exists|i: int|
            0 <= i < s.len() && s[i].0@ == k by {
            if k == s.last().0@ {
                assert(s[s.len() - 1].0@ == k);
            } else {
                assert(pending_map(p).dom().contains(k));
                let i = choose|i: int| 0 <= i < p.len() && p[i].0@ == k;
                assert(s[i] == p[i]);
            }
        }
        assert forall|k: Seq<char>| (exists|i: int| 0 <= i < s.len() && s[i].0@ == k) implies #[trigger] pending_map(s).dom().contains(k) by {
            let i = choose|i: int| 0 <= i < s.len() && s[i].0@ == k;
            if i < s.len() - 1 {
                assert(s[i] == p[i]);
                assert(pending_map(p).dom().contains(k));
            }
        }
        assert forall|i: int| 0 <= i < s.len() implies #[trigger] pending_map(s)[s[i].0@] == s[i].1 by {
            if i < s.len() - 1 {
                assert(s[i] == p[i]);
                assert(s[i].0@ != s[s.len() - 1].0@);
                assert(pending_map(p)[p[i].0@] == p[i].1);
            }
        }
    }
}

proof fn lemma_pending_remove<T>(s: Seq<(String, T)>, i: int)
    requires
        ids_unique(s),
        0 <= i < s.len(),
    ensures
        ids_unique(s.remove(i)),
        pending_map(s.remove(i)) == pending_map(s).remove(s[i].0@),
    decreases s.len(),
{
    let k = s[i].0@;
    let p = s.drop_last();
    assert(ids_unique(p));
    lemma_pending_map(p);
    if i == s.len() - 1 {
        assert(s.remove(i) =~= p);
        assert(!pending_map(p).dom().contains(k));
        assert(pending_map(s).remove(k) =~= pending_map(p));
    } else {
        lemma_pending_remove(p, i);
        assert(s.remove(i) =~= p.remove(i).push(s.last()));
        assert(s.remove(i).drop_last() =~= p.remove(i));
        assert(s.last().0@ != k);
        assert(pending_map(s.remove(i)) =~= pending_map(s).remove(k));
    }
}

/// A request that waits gets the answer registered for it; once resolved,
/// a second decision on it finds nothing; a decision on an id that does not
/// wait leaves the table as it was.
pub proof fn law_resolve_once<T>(w: Map<Seq<char>, T>, id: Seq<char>, answer: T)
    ensures
        w.insert(id, answer).dom().contains(id),
        w.insert(id, answer)[id] == answer,
        !w.insert(id, answer).remove(id).dom().contains(id),
        !w.dom().contains(id) ==> w.remove(id) == w,
{
    if !w.dom().contains(id) {
        assert(w.remove(id) =~= w);
    }
}

/// Requests waiting for a user's decision, each with the means to answer
/// it (`T`).
pub struct ApprovalTable<T> {
    pending: Vec<(String, T)>,
}

impl<T> ApprovalTable<T> {
    #[verifier::type_invariant]
    spec fn unique_ids(&self) -> bool {
        ids_unique(self.pending@)
    }

    /// The waiting answers, by request id.
    pub closed spec fn waiting(&self) -> Map<Seq<char>, T> {
        pending_map(self.pending@)
    }

    /// An empty table.
    pub fn new() -> (r: Self)
        ensures
            r.waiting() == Map::<Seq<char>, T>::empty(),
    {
        ApprovalTable { pending: Vec::new() }
    }

    fn find(&self, request_id: &str) -> (r: Option<usize>)
        ensures
            match r {
                Some(i) => i < self.pending@.len() && self.pending@[i as int].0@ == request_id@,
                None => forall|i: int| 0 <= i < self.pending@.len() ==> self.pending@[i].0@ != request_id@,
            },
    {
        let mut i: usize = 0;
        while i < self.pending.len()
            invariant
                i <= self.pending@.len(),
                forall|j: int| 0 <= j < i ==> self.pending@[j].0@ != request_id@,
            decreases self.pending.len() - i,
        {
            if str_eq(self.pending[i].0.as_str(), request_id) {
                return Some(i);
            }
            i = i + 1;
        }
        None
    }

    /// Take out the answer waiting under `request_id`, if any.
    pub fn take(&mut self, request_id: &str) -> (r: Option<T>)
        ensures
            match r {
                Some(t) => old(self).waiting().dom().contains(request_id@) && t == old(self).waiting()[request_id@],
                None => !old(self).waiting().dom().contains(request_id@),
            },
            final(self).waiting() == old(self).waiting().remove(request_id@),
    {
        proof {
            use_type_invariant(&*self);
            lemma_pending_map(self.pending@);
        }
        match self.find(request_id) {
            Some(i) => {
                proof {
                    lemma_pending_remove(self.pending@, i as int);
                }
                let mut v: Vec<(String, T)> = Vec::new();
                std::mem::swap(&mut v, &mut self.pending);
                let (_, t) = v.remove(i);
                self.pending = v;
                Some(t)
            },
            None => {
                assert(self.waiting().remove(request_id@) =~= self.waiting());
                None
            },
        }
    }

    /// Wait for an answer under `request_id`; an answer already waiting
    /// under that id is dropped.
    pub fn insert(&mut self, request_id: String, answer: T)
        ensures
            final(self).waiting() == old(self).waiting().insert(request_id@, answer),
    {
        let _ = self.take(request_id.as_str());
        proof {
            use_type_invariant(&*self);
            lemma_pending_map(self.pending@);
        }
        let ghost before = self.pending@;
        let mut v: Vec<(String, T)> = Vec::new();
        std::mem::swap(&mut v, &mut self.pending);
        v.push((request_id, answer));
        proof {
            assert(v@.drop_last() =~= before);
            assert forall|i: int, j: int| 0 <= i < j < v@.len() implies v@[i].0@ != v@[j].0@ by {
                if j == v@.len() - 1 {
                    assert(v@[i] == before[i]);
                    if v@[i].0@ == v@[j].0@ {
                        assert(pending_map(before).dom().contains(before[i].0@));
                    }
                }
            }
        }
        self.pending = v;
        proof {
            assert(self.pending@.drop_last() =~= before);
            assert(old(self).waiting().remove(self.pending@.last().0@).insert(self.pending@.last().0@, answer)
                =~= old(self).waiting().insert(self.pending@.last().0@, answer));
        }
    }

    /// Open an approval request for a tool call: the answer waits under a
    /// fresh request id, returned with the frame that asks the user.
    pub fn open_request(&mut self, answer: T, tool_name: &str, args: &JsonValue) -> (r: (
        String,
        JsonValue,
    ))
        ensures
            final(self).waiting() == old(self).waiting().insert(r.0@, answer),
            r.1@ == approval_request_spec(r.0@, tool_name@, args@),
    {
        let id = crate::clock::new_request_id();
        let frame = approval_request_frame(id.as_str(), tool_name, args);
        self.insert(id.clone(), answer);
        (id, frame)
    }

    /// A client's decision on `request_id`: the answer that was waiting,
    /// with the decision its word stands for; nothing when no answer waits.
    pub fn resolve(&mut self, request_id: &str, word: &str) -> (r: Option<(T, ApprovalDecision)>)
        ensures
            match r {
                Some((t, d)) => old(self).waiting().dom().contains(request_id@)
                    && t == old(self).waiting()[request_id@] && d == decision_spec(word@),
                None => !old(self).waiting().dom().contains(request_id@),
            },
            final(self).waiting() == old(self).waiting().remove(request_id@),
    {
        let decision = decision_from_word(word);
        match self.take(request_id) {
            Some(t) => Some((t, decision)),
            None => None,
        }
    }
}

} // verus!
