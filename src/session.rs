use vstd::prelude::*;

use crate::error::{error_code, McpError};
use crate::error::JsonRpcError;
use crate::text::{trim_whitespace, trimmed};
use crate::protocol::{
    error_response, CallToolResult, JsonRpcId, JsonRpcRequest, JsonRpcResponse, ResultBody,
};
use crate::server::{
    complete_read, complete_tool_call, dispatch_id, verdict_of, BackendCall, Dispatch, McpServer,
    Verdict,
};

verus! {

/// Capacity of the queue between the reader and the processing loop; a full
/// queue makes the reader wait.
pub const QUEUE_CAPACITY: usize = 100;

/// The byte that ends a line.
pub const NEWLINE: u8 = 10;

/// A line that trimming leaves empty; such lines are skipped, not decoded.
pub open spec fn blank(line: Seq<char>) -> bool {
    trimmed(line).len() == 0
}

pub fn is_blank(line: &str) -> (r: bool)
    ensures
        r == blank(line@),
{
    trim_whitespace(line).unicode_len() == 0
}

/// Splits a byte stream into lines. A line may arrive in any number of
/// pieces; bytes after the last line end wait for more input.
pub struct LineFramer {
    buf: Vec<u8>,
}

impl LineFramer {
    /// The bytes received and not yet handed out.
    pub closed spec fn pending(&self) -> Seq<u8> {
        self.buf@
    }

    pub fn new() -> (r: LineFramer)
        ensures
            r.pending().len() == 0,
    {
        LineFramer { buf: Vec::new() }
    }

    pub fn feed(&mut self, data: &[u8])
        ensures
            final(self).pending() == old(self).pending() + data@,
    {
        let mut i: usize = 0;
        let ghost start = self.buf@;
        while i < data.len()
            invariant
                i <= data@.len(),
                self.buf@ == start + data@.subrange(0, i as int),
            decreases data@.len() - i,
        {
            self.buf.push(data[i]);
            i = i + 1;
            assert(self.buf@ == start + data@.subrange(0, i as int));
        }
        assert(data@.subrange(0, data@.len() as int) == data@);
    }

    /// The next complete line, without its line end.
    pub fn next_line(&mut self) -> (r: Option<Vec<u8>>)
        ensures
            r is None ==> final(self).pending() == old(self).pending() && forall|j: int|
                0 <= j < old(self).pending().len() ==> #[trigger] old(self).pending()[j] != NEWLINE,
            r is Some ==> exists|k: int|
                0 <= k < old(self).pending().len() && old(self).pending()[k] == NEWLINE && (forall|
                    j: int,
                | 0 <= j < k ==> #[trigger] old(self).pending()[j] != NEWLINE) && r.unwrap()@
                    == old(self).pending().subrange(0, k) && final(self).pending() == old(
                    self,
                ).pending().subrange(k + 1, old(self).pending().len() as int),
    {
        let mut k: usize = 0;
        while k < self.buf.len()
            invariant
                k <= self.buf@.len(),
                self.buf@ == old(self).pending(),
                forall|j: int| 0 <= j < k ==> #[trigger] self.buf@[j] != NEWLINE,
            decreases self.buf@.len() - k,
        {
            if self.buf[k] == NEWLINE {
                let ghost whole = self.buf@;
                let mut line = self.buf.split_off(k + 1);
                core::mem::swap(&mut line, &mut self.buf);
                line.pop();
                assert(line@ == whole.subrange(0, k as int));
                assert(self.buf@ == whole.subrange(k + 1, whole.len() as int));
                assert(whole[k as int] == NEWLINE);
                return Some(line);
            }
            k = k + 1;
        }
        None
    }

    /// At the end of input: the last line, if it had no line end.
    pub fn finish(&mut self) -> (r: Option<Vec<u8>>)
        ensures
            final(self).pending().len() == 0,
            old(self).pending().len() == 0 <==> r is None,
            r is Some ==> r.unwrap()@ == old(self).pending(),
    {
        if self.buf.len() == 0 {
            None
        } else {
            let mut line: Vec<u8> = Vec::new();
            core::mem::swap(&mut line, &mut self.buf);
            Some(line)
        }
    }
}

/// The work a session has handed to the backend and awaits.
pub enum PendingKind {
    Tool,
    Read { uri: String, mime_type: Option<String> },
}

pub struct Pending {
    pub id: JsonRpcId,
    pub ticket: u64,
    pub kind: PendingKind,
}

/// What the backend answered.
pub enum BackendOutcome {
    Tool(Result<CallToolResult, McpError>),
    Read(Result<String, McpError>),
}

/// The next thing for the loop to do.
pub enum Step {
    /// Write this response.
    Emit(JsonRpcResponse),
    /// Run this call under the request deadline, then hand its outcome back
    /// with `ticket`, or report that the deadline passed.
    Run { ticket: u64, call: BackendCall },
}

/// The verdict a step carries out: the response's, or the backend call's.
pub open spec fn step_verdict(s: Step, id: JsonRpcId) -> Verdict {
    match s {
        Step::Emit(resp) => verdict_of(Dispatch::Respond(resp)),
        Step::Run { call, .. } => verdict_of(Dispatch::Invoke { id, call }),
    }
}

/// One client connection: requests are processed one at a time, and each
/// gets exactly one response, in the order they were taken up.
pub struct Session {
    pending: Option<Pending>,
    next_ticket: u64,
    /// Ids of the requests taken up, in order.
    accepted: Ghost<Seq<JsonRpcId>>,
    /// Ids of the responses emitted, in order.
    emitted: Ghost<Seq<JsonRpcId>>,
}

impl Session {
    pub closed spec fn pending_ticket(&self) -> Option<u64> {
        match self.pending {
            Some(p) => Some(p.ticket),
            None => None,
        }
    }

    pub closed spec fn pending_id(&self) -> JsonRpcId {
        self.pending.unwrap().id
    }

    /// The call in flight awaits a tool's outcome.
    pub closed spec fn pending_tool(&self) -> bool {
        self.pending matches Some(p) && p.kind is Tool
    }

    /// The address of the resource read in flight.
    pub closed spec fn pending_uri(&self) -> Seq<char> {
        match self.pending {
            Some(p) => match p.kind {
                PendingKind::Read { uri, .. } => uri@,
                _ => Seq::empty(),
            },
            None => Seq::empty(),
        }
    }

    pub closed spec fn next_ticket(&self) -> u64 {
        self.next_ticket
    }

    pub closed spec fn accepted(&self) -> Seq<JsonRpcId> {
        self.accepted@
    }

    pub closed spec fn emitted(&self) -> Seq<JsonRpcId> {
        self.emitted@
    }

    pub open spec fn idle(&self) -> bool {
        self.pending_ticket() is None
    }

    /// Every request taken up has had its response, but for the one in flight,
    /// and responses came in the order the requests were taken up.
    pub open spec fn wf(&self) -> bool {
        &&& self.idle() ==> self.emitted() == self.accepted()
        &&& !self.idle() ==> self.emitted().push(self.pending_id()) == self.accepted()
        &&& !self.idle() ==> self.pending_ticket().unwrap() < self.next_ticket()
    }

    pub fn new() -> (r: Session)
        ensures
            r.wf(),
            r.idle(),
            r.accepted().len() == 0,
            r.next_ticket() == 0,
    {
        Session { pending: None, next_ticket: 0, accepted: Ghost(Seq::empty()), emitted: Ghost(Seq::empty()) }
    }

    pub fn is_idle(&self) -> (r: bool)
        ensures
            r == self.idle(),
    {
        self.pending.is_none()
    }

    /// Whether another request can be taken up: the session is idle and has
    /// tickets left.
    pub fn can_begin(&self) -> (r: bool)
        ensures
            r == (self.idle() && self.next_ticket() < u64::MAX),
    {
        self.pending.is_none() && self.next_ticket < u64::MAX
    }

    /// Take up one decoded line: a request, or the decoder's complaint. A line
    /// that did not decode is answered with a parse error at once and leaves
    /// the session ready for the next one.
    pub fn begin(
        &mut self,
        server: &mut McpServer,
        decoded: Result<JsonRpcRequest, String>,
        now: u64,
    ) -> (r: Step)
        requires
            old(self).wf(),
            old(self).idle(),
            old(self).next_ticket() < u64::MAX,
            old(server).wf(),
        ensures
            final(self).wf(),
            final(server).wf(),
            decoded is Err ==> *final(server) == *old(server),
            decoded is Err ==> (r matches Step::Emit(resp) && resp.id == JsonRpcId::Null
                && resp.body is Err && resp.body->Err_0.code == -32700),
            final(self).accepted() == old(self).accepted().push(
                match decoded {
                    Ok(req) => req.id,
                    Err(_) => JsonRpcId::Null,
                },
            ),
            r is Emit ==> final(self).idle() && final(self).next_ticket() == old(self).next_ticket(),
            r matches Step::Emit(resp) ==> final(self).emitted() == old(self).emitted().push(resp.id),
            r is Run ==> final(self).emitted() == old(self).emitted(),
            r matches Step::Run { ticket, .. } ==> ticket == old(self).next_ticket()
                && final(self).pending_ticket() == Some(ticket) && final(self).next_ticket()
                == ticket + 1,
            decoded is Ok ==> final(server).same_but_limiter(*old(server)),
            r matches Step::Emit(resp) ==> resp.id == final(self).accepted().last(),
            r matches Step::Run { call, .. } ==> (final(self).pending_tool() <==> call is Tool),
            r matches Step::Run { call: BackendCall::Read { uri, .. }, .. } ==> final(self).pending_uri()
                == uri@,
            decoded is Ok && old(server).rate_limited(now as nat) ==> step_verdict(
                r,
                decoded->Ok_0.id,
            ) == Verdict::Fail(6),
            decoded is Ok && !old(server).rate_limited(now as nat) ==> step_verdict(
                r,
                decoded->Ok_0.id,
            ) == old(server).request_verdict(decoded->Ok_0),
    {
        match decoded {
            Err(detail) => {
                let message = crate::text::join2("Parse error: ", detail.as_str());
                let resp = error_response(JsonRpcId::Null, McpError::ParseError(message));
                proof {
                    self.accepted@ = self.accepted@.push(JsonRpcId::Null);
                    self.emitted@ = self.emitted@.push(JsonRpcId::Null);
                }
                Step::Emit(resp)
            },
            Ok(request) => {
                let ghost id = request.id;
                let d = server.process_request(request, now);
                proof {
                    self.accepted@ = self.accepted@.push(id);
                }
                match d {
                    Dispatch::Respond(resp) => {
                        proof {
                            self.emitted@ = self.emitted@.push(id);
                        }
                        Step::Emit(resp)
                    },
                    Dispatch::Invoke { id, call } => {
                        let ticket = self.next_ticket;
                        let kind = match &call {
                            BackendCall::Tool { .. } => PendingKind::Tool,
                            BackendCall::Read { uri, mime_type, .. } => PendingKind::Read {
                                uri: uri.clone(),
                                mime_type: match mime_type {
                                    Some(m) => Some(m.clone()),
                                    None => None,
                                },
                            },
                        };
                        self.pending = Some(Pending { id, ticket, kind });
                        self.next_ticket = ticket + 1;
                        Step::Run { ticket, call }
                    },
                }
            },
        }
    }

    /// Hand back the backend's outcome for `ticket`. Only the call in flight
    /// is answered; an outcome for any other ticket, such as one whose deadline
    /// already passed, is dropped.
    pub fn finish(&mut self, ticket: u64, outcome: BackendOutcome) -> (r: Option<JsonRpcResponse>)
        requires
            old(self).wf(),
        ensures
            final(self).wf(),
            finish_post(*old(self), *final(self), ticket, r),
            old(self).pending_ticket() == Some(ticket) ==> outcome_answered(*old(self), outcome, r.unwrap()),
    {
        match &self.pending {
            None => {
                return None;
            },
            Some(p) => {
                if p.ticket != ticket {
                    return None;
                }
            },
        }
        let p = self.pending.take().unwrap();
        let ghost id = p.id;
        proof {
            self.emitted@ = self.emitted@.push(id);
        }
        let resp = match (p.kind, outcome) {
            (PendingKind::Tool, BackendOutcome::Tool(o)) => complete_tool_call(p.id, o),
            (PendingKind::Read { uri, mime_type }, BackendOutcome::Read(o)) => complete_read(
                p.id,
                uri,
                mime_type,
                o,
            ),
            _ => error_response(
                p.id,
                McpError::InternalError("Backend outcome does not match the call".to_string()),
            ),
        };
        Some(resp)
    }

    /// The deadline of `ticket` passed: the call in flight is abandoned and
    /// answered with a timeout error; any other ticket is ignored.
    pub fn expire(&mut self, ticket: u64) -> (r: Option<JsonRpcResponse>)
        requires
            old(self).wf(),
        ensures
            final(self).wf(),
            expire_post(*old(self), *final(self), ticket, r),
    {
        match &self.pending {
            None => {
                return None;
            },
            Some(p) => {
                if p.ticket != ticket {
                    return None;
                }
            },
        }
        let p = self.pending.take().unwrap();
        let ghost id = p.id;
        proof {
            self.emitted@ = self.emitted@.push(id);
        }
        Some(error_response(p.id, McpError::OperationTimeout))
    }
}

/// What `finish` does: answers the call in flight under `ticket` with its id
/// and goes idle; otherwise answers nothing and changes nothing.
pub open spec fn finish_post(s0: Session, s1: Session, ticket: u64, r: Option<JsonRpcResponse>) -> bool {
    if s0.pending_ticket() == Some(ticket) {
        &&& r is Some
        &&& r.unwrap().id == s0.pending_id()
        &&& s1.emitted() == s0.emitted().push(r.unwrap().id)
        &&& s1.idle()
        &&& s1.next_ticket() == s0.next_ticket()
        &&& s1.accepted() == s0.accepted()
    } else {
        &&& r is None
        &&& s1 == s0
    }
}

/// How the response answers the backend's outcome: a tool's result or error,
/// or a resource's text at the address that was read; an outcome of the
/// wrong kind is an internal error.
pub open spec fn outcome_answered(s0: Session, outcome: BackendOutcome, r: JsonRpcResponse) -> bool {
    match outcome {
        BackendOutcome::Tool(o) => if s0.pending_tool() {
            match o {
                Ok(res) => r.body == Ok::<ResultBody, JsonRpcError>(ResultBody::CallTool(res)),
                Err(e) => r.body is Err && r.body->Err_0.code as int == error_code(e),
            }
        } else {
            r.body is Err && r.body->Err_0.code == -32603
        },
        BackendOutcome::Read(o) => if !s0.pending_tool() {
            match o {
                Ok(text) => r.body matches Ok(ResultBody::ReadResource(rr)) && rr.contents@.len() == 1
                    && rr.contents@[0].uri@ == s0.pending_uri() && rr.contents@[0].text == Some(text),
                Err(e) => r.body is Err && r.body->Err_0.code as int == error_code(e),
            }
        } else {
            r.body is Err && r.body->Err_0.code == -32603
        },
    }
}

/// What `expire` does: answers the call in flight under `ticket` with a
/// timeout error carrying its id and goes idle; otherwise nothing.
pub open spec fn expire_post(s0: Session, s1: Session, ticket: u64, r: Option<JsonRpcResponse>) -> bool {
    if s0.pending_ticket() == Some(ticket) {
        &&& r is Some
        &&& r.unwrap().id == s0.pending_id()
        &&& r.unwrap().body is Err
        &&& r.unwrap().body->Err_0.code as int == error_code(McpError::OperationTimeout)
        &&& s1.emitted() == s0.emitted().push(r.unwrap().id)
        &&& s1.idle()
        &&& s1.next_ticket() == s0.next_ticket()
        &&& s1.accepted() == s0.accepted()
    } else {
        &&& r is None
        &&& s1 == s0
    }
}

/// Responses leave a session in the order in which its requests were taken
/// up: the n-th response emitted answers the n-th request, and at most the
/// request in flight is still unanswered.
pub proof fn lemma_responses_in_request_order(s: Session)
    requires
        s.wf(),
    ensures
        forall|i: int| 0 <= i < s.emitted().len() ==> #[trigger] s.emitted()[i] == s.accepted()[i],
        s.idle() ==> s.emitted().len() == s.accepted().len(),
        !s.idle() ==> s.emitted().len() + 1 == s.accepted().len() && s.accepted().last()
            == s.pending_id(),
{
    if !s.idle() {
        assert forall|i: int| 0 <= i < s.emitted().len() implies #[trigger] s.emitted()[i]
            == s.accepted()[i] by {
            assert(s.emitted().push(s.pending_id())[i] == s.emitted()[i]);
        }
    }
}

/// A call whose deadline passes is answered once, with a timeout error that
/// carries its request's id; its outcome, arriving afterwards, is dropped and
/// changes nothing.
pub proof fn lemma_late_result_discarded(
    s0: Session,
    s1: Session,
    s2: Session,
    ticket: u64,
    timed_out: Option<JsonRpcResponse>,
    late: Option<JsonRpcResponse>,
)
    requires
        s0.wf(),
        s0.pending_ticket() == Some(ticket),
        expire_post(s0, s1, ticket, timed_out),
        finish_post(s1, s2, ticket, late),
    ensures
        timed_out is Some,
        timed_out.unwrap().id == s0.pending_id(),
        timed_out.unwrap().body is Err,
        timed_out.unwrap().body->Err_0.code as int == error_code(McpError::OperationTimeout),
        late is None,
        s2 == s1,
        s2.emitted() == s0.emitted().push(s0.pending_id()),
{
}

} // verus!
