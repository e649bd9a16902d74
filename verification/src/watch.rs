//! The watch service: a session per client stream that starts and cancels
//! watches, and the answers that carry a watch's events.
use vstd::prelude::*;
use crate::backend::{error_text, BackendError, BackendEvent, BackendKeyValueView};
use crate::kv::{header_at, proto_kv, response_header, to_proto_kv, wire_form_of};
use crate::message::{opt_kv_view, KeyValue, KeyValueView, ResponseHeader};
use crate::status::{Code, RpcError};
use crate::text::{decode_lossy, lossy_utf8};

verus! {

/// The wire number of a put event.
pub const EVENT_PUT: i32 = 0;

/// The wire number of a delete event.
pub const EVENT_DELETE: i32 = 1;

#[derive(Clone, Debug)]
pub struct WatchCreateRequest {
    pub key: Vec<u8>,
    pub range_end: Vec<u8>,
    pub start_revision: i64,
    pub prev_kv: bool,
}

#[derive(Clone, Copy, Debug, PartialEq, Eq, Structural)]
pub struct WatchCancelRequest {
    pub watch_id: i64,
}

#[derive(Clone, Copy, Debug, PartialEq, Eq, Structural)]
pub struct WatchProgressRequest {}

#[derive(Clone, Debug)]
pub enum RequestUnion {
    CreateRequest(WatchCreateRequest),
    CancelRequest(WatchCancelRequest),
    ProgressRequest(WatchProgressRequest),
}

/// One message that a client sends on its watch stream.
#[derive(Clone, Debug)]
pub struct WatchRequest {
    pub request_union: Option<RequestUnion>,
}

/// A change of a key on the wire. `event_type` is `EVENT_PUT` or `EVENT_DELETE`.
#[derive(Clone, Debug)]
pub struct Event {
    pub event_type: i32,
    pub kv: Option<KeyValue>,
    pub prev_kv: Option<KeyValue>,
}

pub struct EventView {
    pub event_type: i32,
    pub kv: Option<KeyValueView>,
    pub prev_kv: Option<KeyValueView>,
}

impl View for Event {
    type V = EventView;

    open spec fn view(&self) -> EventView {
        EventView {
            event_type: self.event_type,
            kv: opt_kv_view(self.kv),
            prev_kv: opt_kv_view(self.prev_kv),
        }
    }
}

/// One message that the server sends on a watch stream.
#[derive(Clone, Debug)]
pub struct WatchResponse {
    pub header: Option<ResponseHeader>,
    pub watch_id: i64,
    pub created: bool,
    pub canceled: bool,
    pub compact_revision: i64,
    pub cancel_reason: String,
    pub fragment: bool,
    pub events: Vec<Event>,
}

/// Whether a watch answer carries nothing but the given header, id and flags.
pub open spec fn plain_answer(
    w: WatchResponse,
    header: Option<ResponseHeader>,
    watch_id: i64,
    created: bool,
    canceled: bool,
    compact_revision: i64,
    cancel_reason: Seq<char>,
) -> bool {
    &&& w.header == header
    &&& w.watch_id == watch_id
    &&& w.created == created
    &&& w.canceled == canceled
    &&& w.compact_revision == compact_revision
    &&& w.cancel_reason@ == cancel_reason
    &&& !w.fragment
    &&& w.events@.len() == 0
}

/// The status that a failed backend call is answered with on a watch stream.
pub open spec fn watch_status(e: BackendError) -> (Code, Seq<char>) {
    match e {
        BackendError::Compacted => (Code::OutOfRange, error_text(e)),
        _ => (Code::Internal, error_text(e)),
    }
}

/// The status that a failed backend call is answered with on a watch stream.
pub fn backend_err_to_status(e: BackendError) -> (s: RpcError)
    ensures
        s@ == watch_status(e),
{
    match e {
        BackendError::Compacted => RpcError { code: Code::OutOfRange, message: e.message() },
        _ => RpcError { code: Code::Internal, message: e.message() },
    }
}

fn plain(
    header: Option<ResponseHeader>,
    watch_id: i64,
    created: bool,
    canceled: bool,
    compact_revision: i64,
    cancel_reason: String,
) -> (w: WatchResponse)
    ensures
        plain_answer(w, header, watch_id, created, canceled, compact_revision, cancel_reason@),
{
    WatchResponse {
        header,
        watch_id,
        created,
        canceled,
        compact_revision,
        cancel_reason,
        fragment: false,
        events: Vec::new(),
    }
}

/// What a session does with a client's message.
#[derive(Debug)]
pub enum WatchAction {
    /// A new watch on `key` from `start_revision`: take a fresh watch id
    /// and hand it to `WatchSession::start_watch`.
    AssignId { key: String, start_revision: i64 },
    /// A cancellation: stop the watch's task when `signal`, and send `response`.
    Cancel { signal: bool, response: WatchResponse },
    /// A progress request: ask the backend for its current revision and
    /// answer with `progress_response`.
    AskRevision,
    /// A message with no request in it: nothing to do.
    Ignore,
}

/// The watches that a client stream has started and not cancelled.
pub struct WatchSession {
    active: Vec<i64>,
}

impl View for WatchSession {
    type V = Set<i64>;

    closed spec fn view(&self) -> Set<i64> {
        self.active@.to_set()
    }
}

impl WatchSession {
    #[verifier::type_invariant]
    closed spec fn inv(self) -> bool {
        self.active@.no_duplicates()
    }

    /// A session with no watches.
    pub fn new() -> (s: WatchSession)
        ensures
            s@ == Set::<i64>::empty(),
    {
        let s = WatchSession { active: Vec::new() };
        assert(s@ =~= Set::<i64>::empty());
        s
    }

    fn position(&self, watch_id: i64) -> (p: Option<usize>)
        ensures
            match p {
                Some(i) => i < self.active@.len() && self.active@[i as int] == watch_id,
                None => !self.active@.contains(watch_id),
            },
    {
        let mut i: usize = 0;
        while i < self.active.len()
            invariant
                i <= self.active@.len(),
                forall|j: int| 0 <= j < i ==> self.active@[j] != watch_id,
            decreases self.active.len() - i,
        {
            if self.active[i] == watch_id {
                return Some(i);
            }
            i = i + 1;
        }
        None
    }

    /// Whether `watch_id` names a watch of this session.
    pub fn is_active(&self, watch_id: i64) -> (b: bool)
        ensures
            b == self@.contains(watch_id),
    {
        let p = self.position(watch_id);
        proof {
            if let Some(i) = p {
                assert(self.active@.contains(watch_id));
            }
        }
        p.is_some()
    }

    /// Takes a client's message: a new watch asks for an id, a cancellation
    /// forgets the watch and says whether it was active, a progress request
    /// asks for the current revision.
    pub fn handle(&mut self, req: WatchRequest) -> (action: WatchAction)
        ensures
            match req.request_union {
                Some(RequestUnion::CreateRequest(c)) => {
                    &&& action matches WatchAction::AssignId { key, start_revision }
                    &&& key@ == lossy_utf8(c.key@)
                    &&& start_revision == c.start_revision
                    &&& final(self)@ == old(self)@
                },
                Some(RequestUnion::CancelRequest(c)) => {
                    &&& action matches WatchAction::Cancel { signal, response }
                    &&& signal == old(self)@.contains(c.watch_id)
                    &&& plain_answer(
                        response,
                        header_at(0),
                        c.watch_id,
                        false,
                        true,
                        0,
                        "watch cancelled by client"@,
                    )
                    &&& final(self)@ == old(self)@.remove(c.watch_id)
                },
                Some(RequestUnion::ProgressRequest(_)) => {
                    &&& action is AskRevision
                    &&& final(self)@ == old(self)@
                },
                None => {
                    &&& action is Ignore
                    &&& final(self)@ == old(self)@
                },
            },
    {
        match req.request_union {
            Some(RequestUnion::CreateRequest(create)) => {
                let key = decode_lossy(create.key.as_slice());
                WatchAction::AssignId { key, start_revision: create.start_revision }
            },
            Some(RequestUnion::CancelRequest(cancel)) => {
                let signal = self.cancel(cancel.watch_id);
                let response = plain(
                    response_header(0),
                    cancel.watch_id,
                    false,
                    true,
                    0,
                    "watch cancelled by client".to_owned(),
                );
                WatchAction::Cancel { signal, response }
            },
            Some(RequestUnion::ProgressRequest(_)) => WatchAction::AskRevision,
            None => WatchAction::Ignore,
        }
    }

    fn cancel(&mut self, watch_id: i64) -> (was_active: bool)
        ensures
            was_active == old(self)@.contains(watch_id),
            final(self)@ == old(self)@.remove(watch_id),
    {
        proof {
            use_type_invariant(&*self);
        }
        match self.position(watch_id) {
            Some(i) => {
                let ghost before = self.active@;
                let mut active = Vec::new();
                std::mem::swap(&mut active, &mut self.active);
                active.remove(i);
                proof {
                    assert(active@ == before.remove(i as int));
                    assert(active@.to_set() =~= before.to_set().remove(watch_id)) by {
                        assert forall|x: i64| active@.contains(x) <==> before.contains(x) && x != watch_id by {
                            if active@.contains(x) {
                                let k = choose|k: int| 0 <= k < active@.len() && active@[k] == x;
                                if k < i {
                                    assert(before[k] == x);
                                } else {
                                    assert(before[k + 1] == x);
                                }
                            }
                            if before.contains(x) && x != watch_id {
                                let k = choose|k: int| 0 <= k < before.len() && before[k] == x;
                                if k < i {
                                    assert(active@[k] == x);
                                } else {
                                    assert(k != i);
                                    assert(active@[k - 1] == x);
                                }
                            }
                        }
                    }
                    assert(active@.no_duplicates());
                }
                self.active = active;
                true
            },
            None => {
                proof {
                    assert(self@ =~= old(self)@.remove(watch_id));
                }
                false
            },
        }
    }

    /// Starts the watch with the fresh id `watch_id` from `start_revision`:
    /// it becomes active, and its feed, which has not yet told the client
    /// that the watch was created, is handed back.
    pub fn start_watch(&mut self, watch_id: i64, start_revision: i64) -> (feed: WatchFeed)
        ensures
            final(self)@ == old(self)@.insert(watch_id),
            feed.id() == watch_id,
            feed.start_revision() == start_revision,
            !feed.announced(),
    {
        proof {
            use_type_invariant(&*self);
        }
        if self.position(watch_id).is_none() {
            let ghost before = self.active@;
            let mut active = Vec::new();
                std::mem::swap(&mut active, &mut self.active);
            active.push(watch_id);
            proof {
                assert(active@.to_set() =~= before.to_set().insert(watch_id)) by {
                    assert forall|x: i64| active@.contains(x) <==> before.contains(x) || x == watch_id by {
                        if active@.contains(x) {
                            let k = choose|k: int| 0 <= k < active@.len() && active@[k] == x;
                            if k < before.len() {
                                assert(before[k] == x);
                            }
                        }
                        if before.contains(x) {
                            let k = choose|k: int| 0 <= k < before.len() && before[k] == x;
                            assert(active@[k] == x);
                        }
                        if x == watch_id {
                            assert(active@[before.len() as int] == x);
                        }
                    }
                }
            }
            self.active = active;
        } else {
            proof {
                assert(self@ =~= old(self)@.insert(watch_id));
            }
        }
        WatchFeed { watch_id, start_revision, announced: false }
    }
}

/// The answers of one watch, in order: first that the watch was created,
/// then either its refusal by the backend or its batches of events. The
/// later answers can only be had once the first has been given.
pub struct WatchFeed {
    watch_id: i64,
    start_revision: i64,
    announced: bool,
}

impl WatchFeed {
    /// The watch's id.
    pub closed spec fn id(&self) -> i64 {
        self.watch_id
    }

    /// The revision the watch starts from.
    pub closed spec fn start_revision(&self) -> i64 {
        self.start_revision
    }

    /// Whether the client has been told that the watch was created.
    pub closed spec fn announced(&self) -> bool {
        self.announced
    }

    /// The watch's first answer: that it was created.
    pub fn announce(&mut self) -> (w: WatchResponse)
        requires
            !old(self).announced(),
        ensures
            final(self).announced(),
            final(self).id() == old(self).id(),
            final(self).start_revision() == old(self).start_revision(),
            plain_answer(w, header_at(0), old(self).id(), true, false, 0, Seq::empty()),
    {
        self.announced = true;
        plain(response_header(0), self.watch_id, true, false, 0, String::new())
    }

    /// The answer when the backend refuses to start the watch: a start
    /// revision that was compacted away cancels the watch, reporting that
    /// revision; any other failure is the status of the error.
    pub fn watch_start_failed(&self, e: BackendError) -> (r: Result<WatchResponse, RpcError>)
        requires
            self.announced(),
        ensures
            match e {
                BackendError::Compacted => r matches Ok(w) && plain_answer(
                    w,
                    header_at(0),
                    self.id(),
                    false,
                    true,
                    self.start_revision(),
                    "compacted"@,
                ),
                _ => r matches Err(x) && x@ == watch_status(e),
            },
    {
        start_failed_answer(self.watch_id, self.start_revision, e)
    }

    /// The answer that carries a batch of the watch's events, at the
    /// batch's revision.
    pub fn events_response(&self, events: &Vec<BackendEvent>) -> (w: WatchResponse)
        requires
            self.announced(),
        ensures
            w.header == header_at(batch_revision(events@)),
            w.watch_id == self.id(),
            !w.created && !w.canceled && !w.fragment,
            w.compact_revision == 0,
            w.cancel_reason@ == Seq::<char>::empty(),
            w.events@.len() == events@.len(),
            forall|i: int| 0 <= i < events@.len() ==> #[trigger] w.events@[i]@ == proto_event(events@[i]),
            forall|i: int| 0 <= i < events@.len() ==> carries_event(#[trigger] w.events@[i]@, events@[i]),
    {
        proof {
            assert forall|i: int| 0 <= i < events@.len() implies carries_event(proto_event(events@[i]), events@[i]) by {
                lemma_events_keep_previous(events@[i]);
            }
        }
        events_answer(self.watch_id, events)
    }
}

/// The answer to a progress request: the current revision, or the status of
/// the failed backend call.
pub fn progress_response(rev: Result<i64, BackendError>) -> (r: Result<WatchResponse, RpcError>)
    ensures
        match rev {
            Ok(n) => r matches Ok(w) && plain_answer(w, header_at(n), 0, false, false, 0, Seq::empty()),
            Err(e) => r matches Err(x) && x@ == watch_status(e),
        },
{
    match rev {
        Ok(n) => Ok(plain(response_header(n), 0, false, false, 0, String::new())),
        Err(e) => Err(backend_err_to_status(e)),
    }
}

fn start_failed_answer(watch_id: i64, start_revision: i64, e: BackendError) -> (r: Result<WatchResponse, RpcError>)
    ensures
        match e {
            BackendError::Compacted => r matches Ok(w) && plain_answer(
                w,
                header_at(0),
                watch_id,
                false,
                true,
                start_revision,
                "compacted"@,
            ),
            _ => r matches Err(x) && x@ == watch_status(e),
        },
{
    match e {
        BackendError::Compacted => Ok(
            plain(response_header(0), watch_id, false, true, start_revision, "compacted".to_owned()),
        ),
        _ => Err(backend_err_to_status(e)),
    }
}

/// A backend event on the wire.
pub open spec fn proto_event(e: BackendEvent) -> EventView {
    EventView {
        event_type: if e.delete {
            EVENT_DELETE
        } else {
            EVENT_PUT
        },
        kv: Some(proto_kv(e.kv@)),
        prev_kv: match e.prev_kv {
            Some(p) => Some(proto_kv(p@)),
            None => None::<KeyValueView>,
        },
    }
}

/// Whether a wire event carries a backend event: its type (delete or put),
/// the wire form of its key-value, and the wire form of the previous
/// key-value whenever the backend gave one, whatever the event's type.
pub open spec fn carries_event(w: EventView, e: BackendEvent) -> bool {
    &&& w.event_type == (if e.delete {
        1i32
    } else {
        0i32
    })
    &&& w.kv matches Some(k) && wire_form_of(k, e.kv@)
    &&& match e.prev_kv {
        Some(p) => w.prev_kv matches Some(k) && wire_form_of(k, p@),
        None => w.prev_kv is None,
    }
}

/// Every backend event goes on the wire with its type, its key-value and,
/// for puts and deletes alike, its previous key-value when there is one.
pub proof fn lemma_events_keep_previous(e: BackendEvent)
    ensures
        carries_event(proto_event(e), e),
{
}

/// The revision that a batch of events reaches: the last one's modification
/// revision, or 0 for no events.
pub open spec fn batch_revision(events: Seq<BackendEvent>) -> i64 {
    if events.len() == 0 {
        0
    } else {
        events.last().kv.mod_revision
    }
}

fn event_on_wire(e: &BackendEvent) -> (p: Event)
    ensures
        p@ == proto_event(*e),
{
    let event_type = if e.delete {
        EVENT_DELETE
    } else {
        EVENT_PUT
    };
    let prev_kv = match &e.prev_kv {
        Some(pk) => Some(to_proto_kv(pk)),
        None => None,
    };
    Event { event_type, kv: Some(to_proto_kv(&e.kv)), prev_kv }
}

fn events_answer(watch_id: i64, events: &Vec<BackendEvent>) -> (w: WatchResponse)
    ensures
        w.header == header_at(batch_revision(events@)),
        w.watch_id == watch_id,
        !w.created && !w.canceled && !w.fragment,
        w.compact_revision == 0,
        w.cancel_reason@ == Seq::<char>::empty(),
        w.events@.len() == events@.len(),
        forall|i: int| 0 <= i < events@.len() ==> #[trigger] w.events@[i]@ == proto_event(events@[i]),
{
    let mut out: Vec<Event> = Vec::new();
    let mut i: usize = 0;
    while i < events.len()
        invariant
            i <= events@.len(),
            out@.len() == i,
            forall|k: int| 0 <= k < i ==> #[trigger] out@[k]@ == proto_event(events@[k]),
        decreases events.len() - i,
    {
        out.push(event_on_wire(&events[i]));
        i = i + 1;
    }
    let last_rev = if events.len() == 0 {
        0
    } else {
        events[events.len() - 1].kv.mod_revision
    };
    WatchResponse {
        header: response_header(last_rev),
        watch_id,
        created: false,
        canceled: false,
        compact_revision: 0,
        cancel_reason: String::new(),
        fragment: false,
        events: out,
    }
}


/// Cancelling a watch right after starting it with a fresh id finds it
/// active (so its task is signalled) and leaves the session's watches as
/// they were before the start.
pub proof fn lemma_cancel_undoes_start(active: Set<i64>, watch_id: i64)
    requires
        !active.contains(watch_id),
    ensures
        active.insert(watch_id).contains(watch_id),
        active.insert(watch_id).remove(watch_id) == active,
{
    assert(active.insert(watch_id).remove(watch_id) =~= active);
}

} // verus!

verus! {

/// The id that follows `id`: one more, wrapping from the largest `i64` to
/// the smallest, as an atomic fetch-and-add does.
pub open spec fn next_id(id: i64) -> i64 {
    if id == i64::MAX {
        i64::MIN
    } else {
        (id + 1) as i64
    }
}

/// The id handed out by the `n`th take (from 0) of a counter that started at `start`.
pub open spec fn nth_id(start: i64, n: nat) -> i64
    decreases n,
{
    if n == 0 {
        start
    } else {
        next_id(nth_id(start, (n - 1) as nat))
    }
}

/// Where an id stands in the cycle of all `i64` values, from 0.
pub open spec fn id_position(id: i64) -> int {
    id - i64::MIN
}

/// The number of distinct `i64` values.
pub open spec fn id_cycle() -> int {
    0x1_0000_0000_0000_0000
}

/// Hands out watch ids, globally unique: each take gives the next id,
/// starting from 1.
pub struct WatchIdCounter {
    next: i64,
}

impl View for WatchIdCounter {
    type V = i64;

    closed spec fn view(&self) -> i64 {
        self.next
    }
}

impl WatchIdCounter {
    /// A counter whose first id is 1.
    pub fn new() -> (c: WatchIdCounter)
        ensures
            c@ == 1,
    {
        WatchIdCounter { next: 1 }
    }

    /// Takes the next id.
    pub fn take(&mut self) -> (id: i64)
        ensures
            id == old(self)@,
            final(self)@ == next_id(old(self)@),
    {
        let id = self.next;
        self.next = if id == i64::MAX {
            i64::MIN
        } else {
            id + 1
        };
        id
    }
}

proof fn lemma_nth_id_position(start: i64, n: nat)
    ensures
        id_position(nth_id(start, n)) == (id_position(start) + n) % id_cycle(),
    decreases n,
{
    let m = id_cycle();
    if n == 0 {
        vstd::arithmetic::div_mod::lemma_small_mod(id_position(start) as nat, m as nat);
    } else {
        lemma_nth_id_position(start, (n - 1) as nat);
        let x = id_position(start) + n - 1;
        vstd::arithmetic::div_mod::lemma_add_mod_noop(x, 1, m);
        vstd::arithmetic::div_mod::lemma_small_mod(1, m as nat);
        let y = nth_id(start, (n - 1) as nat);
        if y == i64::MAX {
            assert(id_position(y) + 1 == m);
            vstd::arithmetic::div_mod::lemma_mod_self_0(m);
        } else {
            vstd::arithmetic::div_mod::lemma_small_mod((id_position(y) + 1) as nat, m as nat);
        }
    }
}

/// Watch ids are unique: within one full cycle of the `i64` values, no two
/// takes from one counter give the same id.
pub proof fn lemma_watch_ids_unique(start: i64, i: nat, j: nat)
    requires
        i < j < id_cycle(),
    ensures
        nth_id(start, i) != nth_id(start, j),
{
    lemma_nth_id_position(start, i);
    lemma_nth_id_position(start, j);
    let m = id_cycle();
    let p = id_position(start);
    if nth_id(start, i) == nth_id(start, j) {
        vstd::arithmetic::div_mod::lemma_fundamental_div_mod(p + i, m);
        vstd::arithmetic::div_mod::lemma_fundamental_div_mod(p + j, m);
        let qi = (p + i) / m;
        let qj = (p + j) / m;
        assert(j - i == m * (qj - qi));
        assert(false) by (nonlinear_arith)
            requires
                j - i == m * (qj - qi),
                0 < j - i < m,
                m > 0,
        ;
    }
}

/// Before the counter reaches the largest `i64`, the `n`th take gives the
/// start plus `n`.
proof fn lemma_nth_id_before_wrap(start: i64, n: nat)
    requires
        start + n <= i64::MAX,
    ensures
        nth_id(start, n) == start + n,
    decreases n,
{
    if n > 0 {
        lemma_nth_id_before_wrap(start, (n - 1) as nat);
    }
}

/// Watch ids from a counter that starts at 1 or above are at least 1 and
/// strictly increase from take to take, as long as the counter has not
/// passed the largest `i64`.
pub proof fn lemma_watch_ids_increase(start: i64, i: nat, j: nat)
    requires
        1 <= start,
        i < j,
        start + j <= i64::MAX,
    ensures
        1 <= nth_id(start, i),
        nth_id(start, i) < nth_id(start, j),
{
    lemma_nth_id_before_wrap(start, i);
    lemma_nth_id_before_wrap(start, j);
}

} // verus!
