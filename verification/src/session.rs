//! The per-session core: the monotone request-id generator, the
//! pending-request table, the outbound send operations, and the routing of
//! inbound lines.
//!
//! The session core is pure state: the process handle, the pipes and the
//! completion slots live with the caller, which performs each returned
//! [`LineAction`] and writes each returned frame. A request id is entered in
//! the pending table in the same step that produces the frame, so the entry
//! exists strictly before the frame can be written and a fast reply can never
//! find its id missing.

use vstd::prelude::*;

verus! {

use vstd::string::StringSliceAdditionalSpecFns;
use vstd::string::StrSliceExecFns;
use crate::text::is_blank_bytes;
use crate::inbound::{
    json_valid, line_shape, classify_shape, parse_value, shape_of, classify, MsgClass,
};
use crate::protocol::{
    request_frame, notification_frame, response_frame, parse_error_event, stderr_event,
    build_request, build_notification, build_response, build_parse_error_event,
    build_stderr_event,
};

/// The correlation state of one workspace session.
pub struct SessionCore {
    /// The workspace this session belongs to.
    pub workspace_id: String,
    /// The next request id to assign; starts at 1 and is never reused.
    pub next_id: u64,
    /// The ids of requests written but not yet answered or canceled.
    pub pending: Vec<u64>,
}

/// What the caller must do with one inbound line from the process's output
/// stream.
pub enum LineAction {
    /// A blank line: nothing happens.
    Ignored,
    /// The line was not JSON: emit this parse-error message as an event and
    /// keep reading.
    ParseError { event: Vec<u8> },
    /// A response for a pending request: deliver the value to that waiter.
    Fulfill { id: u64, value: serde_json::Value },
    /// A response for an id that is not pending: drop it silently.
    DropLate { id: u64 },
    /// A server request or notification: forward the value as an event.
    Forward { value: serde_json::Value },
    /// An object with no route: drop it without any event.
    Unroutable,
}

impl SessionCore {
    /// Every pending id was assigned before the next id, and no id is pending
    /// twice.
    pub open spec fn wf(self) -> bool {
        &&& 1 <= self.next_id
        &&& forall|i: int|
            #![trigger self.pending@[i]]
            0 <= i < self.pending@.len() ==> self.pending@[i] < self.next_id
        &&& forall|i: int, j: int|
            #![trigger self.pending@[i], self.pending@[j]]
            0 <= i < j < self.pending@.len() ==> self.pending@[i] != self.pending@[j]
    }

    /// A fresh session: id counter at 1, nothing pending.
    pub fn new(workspace_id: String) -> (s: SessionCore)
        ensures
            s.wf(),
            s.workspace_id == workspace_id,
            s.next_id == 1,
            s.pending@ == Seq::<u64>::empty(),
    {
        SessionCore { workspace_id, next_id: 1, pending: Vec::new() }
    }

    /// Allocates the next request id, enters it in the pending table, and
    /// returns it with the frame to write.
    pub fn send_request(&mut self, method: &str, params: &Vec<u8>) -> (r: (u64, Vec<u8>))
        requires
            old(self).wf(),
            old(self).next_id < u64::MAX,
        ensures
            final(self).wf(),
            request_step(*old(self), *final(self), r.0),
            !old(self).pending@.contains(r.0),
            r.1@ == request_frame(r.0, method.spec_bytes(), params@),
    {
        let id = self.next_id;
        self.next_id = self.next_id + 1;
        self.pending.push(id);
        let line = build_request(id, method, params);
        (id, line)
    }

    /// Returns the frame of a fire-and-forget notification; no id, no
    /// correlation, no state change.
    pub fn send_notification(&self, method: &str, params: Option<&Vec<u8>>) -> (line: Vec<u8>)
        ensures
            line@ == notification_frame(
                method.spec_bytes(),
                match params {
                    Some(p) => Some(p@),
                    None => None,
                },
            ),
    {
        build_notification(method, params)
    }

    /// Returns the frame that answers a server request by id; no state
    /// change.
    pub fn send_response(&self, id: u64, result: &Vec<u8>) -> (line: Vec<u8>)
        ensures
            line@ == response_frame(id, result@),
    {
        build_response(id, result)
    }

    /// Removes `id` from the pending table if it is there.
    fn remove_pending(&mut self, id: u64) -> (found: bool)
        requires
            old(self).wf(),
        ensures
            final(self).wf(),
            found == old(self).pending@.contains(id),
            found ==> final(self).pending@ == old(self).pending@.remove_value(id),
            !found ==> *final(self) == *old(self),
            final(self).next_id == old(self).next_id,
            final(self).workspace_id == old(self).workspace_id,
    {
        let ghost s = self.pending@;
        let mut i: usize = 0;
        while i < self.pending.len()
            invariant
                old(self).wf(),
                *self == *old(self),
                s == self.pending@,
                i <= s.len(),
                forall|j: int| 0 <= j < i ==> #[trigger] s[j] != id,
            decreases self.pending.len() - i,
        {
            if self.pending[i] == id {
                self.pending.remove(i);
                proof {
                    assert(s == old(self).pending@);
                    assert forall|a: int, b: int| 0 <= a < b < s.len() implies s[a] != s[b] by {
                        assert(old(self).pending@[a] != old(self).pending@[b]);
                    }
                    assert forall|l: int| 0 <= l < s.len() implies #[trigger] s[l] < old(
                        self,
                    ).next_id by {
                        assert(old(self).pending@[l] < old(self).next_id);
                    }
                    assert(s[i as int] == id);
                    assert(s.contains(id));
                    s.index_of_first_ensures(id);
                    let k = s.index_of_first(id)->Some_0;
                    if k < i as int {
                        assert(s[k] != id);
                        assert(false);
                    }
                    if k > i as int {
                        assert(s[i as int] != id);
                        assert(false);
                    }
                    assert(self.pending@ == s.remove_value(id));
                    s.remove_ensures(i as int);
                    let t = self.pending@;
                    assert(t.len() == s.len() - 1);
                    assert forall|l: int| 0 <= l < t.len() implies #[trigger] t[l]
                        < old(self).next_id by {
                        if l < i as int {
                            assert(s.remove(i as int)[l] == s[l]);
                        } else {
                            assert(s.remove(i as int)[l] == s[l + 1]);
                        }
                    }
                    assert forall|a: int, b: int| 0 <= a < b < t.len() implies t[a] != t[b] by {
                        if a < i as int {
                            assert(s.remove(i as int)[a] == s[a]);
                        } else {
                            assert(s.remove(i as int)[a] == s[a + 1]);
                        }
                        if b < i as int {
                            assert(s.remove(i as int)[b] == s[b]);
                        } else {
                            assert(s.remove(i as int)[b] == s[b + 1]);
                        }
                        let a2 = if a < i as int { a } else { a + 1 };
                        let b2 = if b < i as int { b } else { b + 1 };
                        assert(s[a2] != s[b2]);
                    }
                }
                return true;
            }
            i = i + 1;
        }
        proof {
            if s.contains(id) {
                let w = choose|w: int| 0 <= w < s.len() && s[w] == id;
                assert(s[w] != id);
            }
        }
        false
    }

    /// Routes one line of the process's output stream: blank lines are
    /// ignored, lines that are not JSON become a non-fatal parse-error event,
    /// and parsed objects are classified by their routing fields. Only a
    /// response that matches a pending id changes the session's state, by
    /// removing exactly that entry.
    pub fn handle_line(&mut self, line: &str) -> (r: LineAction)
        requires
            old(self).wf(),
        ensures
            final(self).wf(),
            final(self).next_id == old(self).next_id,
            final(self).workspace_id == old(self).workspace_id,
            is_blank_bytes(line.spec_bytes()) ==> r is Ignored,
            !is_blank_bytes(line.spec_bytes()) && json_valid(line.spec_bytes())
                ==> match classify_shape(line_shape(line.spec_bytes())) {
                MsgClass::Response { id } => if old(self).pending@.contains(id) {
                    r matches LineAction::Fulfill { id: rid, value: _ } && rid == id
                } else {
                    r matches LineAction::DropLate { id: rid } && rid == id
                },
                MsgClass::ServerRequest { id: _ } => r is Forward,
                MsgClass::Notification => r is Forward,
                MsgClass::Unroutable => r is Unroutable,
            },
            match r {
                LineAction::Ignored => is_blank_bytes(line.spec_bytes()) && *final(self) == *old(
                    self,
                ),
                LineAction::ParseError { event } => {
                    &&& !is_blank_bytes(line.spec_bytes())
                    &&& !json_valid(line.spec_bytes())
                    &&& *final(self) == *old(self)
                    &&& exists|e: Seq<u8>| event@ == #[trigger] parse_error_event(
                        e,
                        line.spec_bytes(),
                    )
                },
                LineAction::Fulfill { id, value } => {
                    &&& json_valid(line.spec_bytes())
                    &&& old(self).pending@.contains(id)
                    &&& final(self).pending@ == old(self).pending@.remove_value(id)
                },
                LineAction::DropLate { id } => {
                    &&& json_valid(line.spec_bytes())
                    &&& !old(self).pending@.contains(id)
                    &&& *final(self) == *old(self)
                },
                LineAction::Forward { value } => json_valid(line.spec_bytes()) && *final(self)
                    == *old(self),
                LineAction::Unroutable => json_valid(line.spec_bytes()) && *final(self) == *old(
                    self,
                ),
            },
    {
        let bytes = line.as_bytes_vec();
        if crate::text::blank_bytes(&bytes) {
            return LineAction::Ignored;
        }
        match parse_value(line) {
            Err(e) => {
                let err_text = e.as_str();
                let event = build_parse_error_event(err_text, line);
                proof {
                    assert(event@ == parse_error_event(err_text.spec_bytes(), line.spec_bytes()));
                }
                LineAction::ParseError { event }
            },
            Ok(v) => {
                let shape = shape_of(&v);
                match classify(&shape) {
                    MsgClass::Response { id } => {
                        if self.remove_pending(id) {
                            LineAction::Fulfill { id, value: v }
                        } else {
                            LineAction::DropLate { id }
                        }
                    },
                    MsgClass::ServerRequest { id: _ } => LineAction::Forward { value: v },
                    MsgClass::Notification => LineAction::Forward { value: v },
                    MsgClass::Unroutable => LineAction::Unroutable,
                }
            },
        }
    }

    /// Turns one line of the process's error stream into its diagnostic
    /// event; blank lines yield nothing. The error stream never takes part in
    /// correlation.
    pub fn handle_stderr_line(&self, line: &str) -> (r: Option<Vec<u8>>)
        ensures
            match r {
                None => is_blank_bytes(line.spec_bytes()),
                Some(event) => !is_blank_bytes(line.spec_bytes()) && event@ == stderr_event(
                    line.spec_bytes(),
                ),
            },
    {
        let bytes = line.as_bytes_vec();
        if crate::text::blank_bytes(&bytes) {
            None
        } else {
            Some(build_stderr_event(line))
        }
    }

    /// Empties the pending table, returning every id whose waiter must now be
    /// released with a cancellation error instead of blocking forever.
    pub fn teardown(&mut self) -> (canceled: Vec<u64>)
        requires
            old(self).wf(),
        ensures
            final(self).wf(),
            canceled@ == old(self).pending@,
            final(self).pending@ == Seq::<u64>::empty(),
            final(self).next_id == old(self).next_id,
            final(self).workspace_id == old(self).workspace_id,
    {
        let mut canceled: Vec<u64> = Vec::new();
        let mut i: usize = 0;
        while i < self.pending.len()
            invariant
                *self == *old(self),
                i <= self.pending@.len(),
                canceled@ == self.pending@.take(i as int),
            decreases self.pending.len() - i,
        {
            canceled.push(self.pending[i]);
            proof {
                assert(self.pending@.take(i as int).push(self.pending@[i as int]) =~= self
                    .pending@.take(i + 1 as int));
            }
            i = i + 1;
        }
        proof {
            assert(self.pending@.take(self.pending@.len() as int) =~= self.pending@);
        }
        self.pending.clear();
        canceled
    }
}

/// One `send_request` transition: the assigned id is the session's counter,
/// the counter advances by one, and the id is appended to the pending table.
pub open spec fn request_step(pre: SessionCore, post: SessionCore, id: u64) -> bool {
    &&& id == pre.next_id
    &&& post.next_id == pre.next_id + 1
    &&& post.pending@ == pre.pending@.push(id)
    &&& post.workspace_id == pre.workspace_id
}

/// Law: over any sequence of `send_request` calls on one session, the
/// assigned ids are strictly increasing, and so pairwise distinct, no matter
/// what else happens between the calls to the rest of the state.
pub proof fn lemma_request_ids_strictly_increasing(states: Seq<SessionCore>, ids: Seq<u64>)
    requires
        states.len() == ids.len() + 1,
        forall|i: int| 0 <= i < ids.len() ==> request_step(
            #[trigger] states[i],
            states[i + 1],
            ids[i],
        ),
    ensures
        forall|i: int, j: int| 0 <= i < j < ids.len() ==> ids[i] < ids[j],
{
    assert forall|i: int, j: int| 0 <= i < j < ids.len() implies ids[i] < ids[j] by {
        lemma_next_id_monotone(states, ids, i + 1, j);
        assert(states[i + 1].next_id == states[i].next_id + 1);
        assert(ids[i] == states[i].next_id);
        assert(ids[j] == states[j].next_id);
    }
}

proof fn lemma_next_id_monotone(states: Seq<SessionCore>, ids: Seq<u64>, i: int, j: int)
    requires
        states.len() == ids.len() + 1,
        forall|k: int| 0 <= k < ids.len() ==> request_step(
            #[trigger] states[k],
            states[k + 1],
            ids[k],
        ),
        0 <= i <= j < states.len(),
    ensures
        states[i].next_id <= states[j].next_id,
    decreases j - i,
{
    if i < j {
        lemma_next_id_monotone(states, ids, i, j - 1);
        assert(request_step(states[j - 1], states[j], ids[j - 1]));
    }
}

/// Law: delivering a response removes exactly the pending entry with its id:
/// that id is no longer pending afterwards (so a second response with the
/// same id finds nothing and is a no-op), and every other pending id is
/// untouched.
pub proof fn lemma_response_resolves_once(s: SessionCore, id: u64)
    requires
        s.wf(),
        s.pending@.contains(id),
    ensures
        !s.pending@.remove_value(id).contains(id),
        forall|x: u64| x != id ==> s.pending@.remove_value(id).contains(x) == s.pending@.contains(
            x,
        ),
{
    let p = s.pending@;
    p.index_of_first_ensures(id);
    let k = p.index_of_first(id)->Some_0;
    let t = p.remove_value(id);
    assert(t == p.remove(k));
    p.remove_ensures(k);
    assert forall|l: int| 0 <= l < t.len() implies #[trigger] t[l] != id by {
        if l < k {
            assert(p.remove(k)[l] == p[l]);
            assert(p[l] != p[k]);
        } else {
            assert(p.remove(k)[l] == p[l + 1]);
            assert(p[k] != p[l + 1]);
        }
    }
    assert forall|x: u64| x != id implies t.contains(x) == p.contains(x) by {
        if t.contains(x) {
            let l = choose|l: int| 0 <= l < t.len() && t[l] == x;
            if l < k {
                assert(p.remove(k)[l] == p[l]);
                assert(p.contains(x));
            } else {
                assert(p.remove(k)[l] == p[l + 1]);
                assert(p.contains(x));
            }
        }
        if p.contains(x) {
            let m = choose|m: int| 0 <= m < p.len() && p[m] == x;
            assert(m != k);
            if m < k {
                assert(p.remove(k)[m] == p[m]);
                assert(t.contains(x));
            } else {
                assert(p.remove(k)[m - 1] == p[m]);
                assert(t.contains(x));
            }
        }
    }
}

} // verus!
