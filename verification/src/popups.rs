//! System windows that a horror script opens: the tickets that let a
//! validated request be shown once, within the script run it was made in,
//! and the console script such a window runs.

use vstd::prelude::*;

use std::collections::HashMap;

use crate::text::{char_is_control, chars_of, is_control, owned, push_char};

verus! {

broadcast use vstd::std_specs::hash::group_hash_axioms;

/// At most this many requests wait for their window at a time.
pub const MAX_PENDING_REQUESTS: usize = 64;

pub const NO_ACTIVE_RUN: &'static str = "当前没有可接收系统窗口事件的剧本运行";

pub const TOO_MANY_PENDING: &'static str = "系统窗口待处理票据已达到安全上限";

pub const TICKET_GONE: &'static str = "系统窗口票据不存在、已消费或已取消";

pub const TICKET_STALE: &'static str = "系统窗口票据已随剧本运行失效";

/// A request waiting for its window, with the run it was made in.
#[derive(Debug, Clone)]
pub struct PendingPopup<R> {
    pub request: R,
    pub generation: u64,
}

/// The tickets of the current script run.
#[derive(Debug)]
pub struct PopupTickets<R> {
    generation: u64,
    active: bool,
    next_id: u64,
    pending: HashMap<u64, PendingPopup<R>>,
}

/// What the tickets are: the run's generation, whether a run is active,
/// the next ticket number and the waiting requests by ticket.
pub ghost struct TicketsView<R> {
    pub generation: u64,
    pub active: bool,
    pub next_id: u64,
    pub pending: Map<u64, PendingPopup<R>>,
}

impl<R> View for PopupTickets<R> {
    type V = TicketsView<R>;

    closed spec fn view(&self) -> TicketsView<R> {
        TicketsView {
            generation: self.generation,
            active: self.active,
            next_id: self.next_id,
            pending: self.pending@,
        }
    }
}

/// `n + 1`, wrapping at the top.
pub open spec fn next_number(n: u64) -> u64 {
    if n == u64::MAX {
        0
    } else {
        (n + 1) as u64
    }
}

/// A request of `generation` may still be shown.
pub open spec fn is_current<R>(s: TicketsView<R>, generation: u64) -> bool {
    s.active && s.generation == generation
}

/// After every window closed: no run, a new generation, no tickets.
pub open spec fn closed_spec<R>(s: TicketsView<R>) -> TicketsView<R> {
    TicketsView {
        generation: next_number(s.generation),
        active: false,
        next_id: s.next_id,
        pending: Map::empty(),
    }
}

/// A new run: everything of the old one closed, the new one active.
pub open spec fn begun_spec<R>(s: TicketsView<R>) -> TicketsView<R> {
    TicketsView { active: true, ..closed_spec(s) }
}

/// Queuing a request: refused without a run or when too many wait;
/// otherwise it gets the next ticket.
pub open spec fn queue_spec<R>(s: TicketsView<R>, request: R) -> (TicketsView<R>, Result<
    u64,
    Seq<char>,
>) {
    if !s.active {
        (s, Err(NO_ACTIVE_RUN@))
    } else if s.pending.len() >= MAX_PENDING_REQUESTS {
        (s, Err(TOO_MANY_PENDING@))
    } else {
        (
            TicketsView {
                next_id: next_number(s.next_id),
                pending: s.pending.insert(
                    s.next_id,
                    PendingPopup { request, generation: s.generation },
                ),
                ..s
            },
            Ok(s.next_id),
        )
    }
}

/// Redeeming a ticket: it is used up either way; its request comes back
/// only while its run is the current one.
pub open spec fn take_spec<R>(s: TicketsView<R>, id: u64) -> (TicketsView<R>, Result<
    PendingPopup<R>,
    Seq<char>,
>) {
    if !s.pending.contains_key(id) {
        (s, Err(TICKET_GONE@))
    } else {
        let p = s.pending[id];
        let after = TicketsView { pending: s.pending.remove(id), ..s };
        if is_current(s, p.generation) {
            (after, Ok(p))
        } else {
            (after, Err(TICKET_STALE@))
        }
    }
}

impl<R> PopupTickets<R> {
    /// No run yet, generation 1, first ticket 1.
    pub fn new() -> (r: Self)
        ensures
            tickets_inv(r@),
            r@.generation == 1,
            !r@.active,
            r@.next_id == 1,
            r@.pending == Map::<u64, PendingPopup<R>>::empty(),
    {
        PopupTickets { generation: 1, active: false, next_id: 1, pending: HashMap::new() }
    }

    pub fn generation_is_current(&self, generation: u64) -> (r: bool)
        ensures
            r == is_current(self@, generation),
    {
        self.active && self.generation == generation
    }

    /// Ends the run: every ticket is cancelled. (The windows themselves are
    /// closed by the caller.)
    pub fn close_all(&mut self)
        ensures
            final(self)@ == closed_spec(old(self)@),
    {
        self.active = false;
        self.generation = if self.generation == u64::MAX {
            0
        } else {
            self.generation + 1
        };
        self.pending.clear();
    }

    /// Starts a run, closing what the last one left.
    pub fn begin_run(&mut self)
        ensures
            final(self)@ == begun_spec(old(self)@),
    {
        self.close_all();
        self.active = true;
    }

    pub fn queue_pending(&mut self, request: R) -> (r: Result<u64, String>)
        ensures
            final(self)@ == queue_spec(old(self)@, request).0,
            match queue_spec(old(self)@, request).1 {
                Ok(id) => r == Ok::<u64, String>(id),
                Err(m) => r matches Err(e) && e@ == m,
            },
    {
        if !self.active {
            return Err(owned(NO_ACTIVE_RUN));
        }
        if self.pending.len() >= MAX_PENDING_REQUESTS {
            return Err(owned(TOO_MANY_PENDING));
        }
        let id = self.next_id;
        self.next_id = if self.next_id == u64::MAX {
            0
        } else {
            self.next_id + 1
        };
        self.pending.insert(id, PendingPopup { request, generation: self.generation });
        Ok(id)
    }

    /// Cancels one ticket, if it is still waiting.
    pub fn discard_pending(&mut self, request_id: u64)
        ensures
            final(self)@ == (TicketsView { pending: old(self)@.pending.remove(request_id), ..old(self)@ }),
    {
        self.pending.remove(&request_id);
    }

    pub fn take_pending(&mut self, request_id: u64) -> (r: Result<PendingPopup<R>, String>)
        ensures
            final(self)@ == take_spec(old(self)@, request_id).0,
            match take_spec(old(self)@, request_id).1 {
                Ok(p) => r matches Ok(q) && q == p,
                Err(m) => r matches Err(e) && e@ == m,
            },
    {
        let ghost before = self.pending@;
        let removed = self.pending.remove(&request_id);
        match removed {
            None => {
                assert(before.remove(request_id) =~= before);
                Err(owned(TICKET_GONE))
            },
            Some(p) => {
                if self.generation_is_current(p.generation) {
                    Ok(p)
                } else {
                    Err(owned(TICKET_STALE))
                }
            },
        }
    }

    /// Redeems a ticket for its window; what comes back is the request to
    /// show and the run it belongs to.
    pub fn show_pending(&mut self, request_id: u64) -> (r: Result<PendingPopup<R>, String>)
        ensures
            final(self)@ == take_spec(old(self)@, request_id).0,
            match take_spec(old(self)@, request_id).1 {
                Ok(p) => r matches Ok(q) && q == p,
                Err(m) => r matches Err(e) && e@ == m,
            },
    {
        self.take_pending(request_id)
    }
}

// ---------------------------------------------------------------------------
// Laws
// ---------------------------------------------------------------------------

/// A ticket is single use: once redeemed, whatever the answer was, a second
/// redemption is refused as gone.
pub proof fn law_ticket_single_use<R>(s: TicketsView<R>, id: u64)
    ensures
        take_spec(take_spec(s, id).0, id).1 == Err::<PendingPopup<R>, Seq<char>>(TICKET_GONE@),
{
}

/// Closing the run cancels every ticket and refuses new requests until the
/// next run begins.
pub proof fn law_close_all_cancels<R>(s: TicketsView<R>, id: u64, request: R)
    ensures
        take_spec(closed_spec(s), id).1 == Err::<PendingPopup<R>, Seq<char>>(TICKET_GONE@),
        queue_spec(closed_spec(s), request).1 == Err::<u64, Seq<char>>(NO_ACTIVE_RUN@),
{
}

/// A request queued in a run comes back, unchanged, when its ticket is
/// redeemed in that run.
pub proof fn law_queued_request_comes_back<R>(s: TicketsView<R>, request: R)
    requires
        queue_spec(s, request).1 is Ok,
    ensures
        take_spec(queue_spec(s, request).0, queue_spec(s, request).1->Ok_0).1 == Ok::<
            PendingPopup<R>,
            Seq<char>,
        >(PendingPopup { request, generation: s.generation }),
{
}

/// A ticket of an earlier run is never honoured in a new one.
pub proof fn law_new_run_forgets_tickets<R>(s: TicketsView<R>, id: u64)
    ensures
        take_spec(begun_spec(s), id).1 == Err::<PendingPopup<R>, Seq<char>>(TICKET_GONE@),
{
}

/// One call on the tickets.
pub enum TicketOp<R> {
    Queue(R),
    Take(u64),
    Discard(u64),
    Close,
    Begin,
}

/// The tickets after one call.
pub open spec fn step_spec<R>(s: TicketsView<R>, op: TicketOp<R>) -> TicketsView<R> {
    match op {
        TicketOp::Queue(r) => queue_spec(s, r).0,
        TicketOp::Take(id) => take_spec(s, id).0,
        TicketOp::Discard(id) => TicketsView { pending: s.pending.remove(id), ..s },
        TicketOp::Close => closed_spec(s),
        TicketOp::Begin => begun_spec(s),
    }
}

/// The tickets after a sequence of calls.
pub open spec fn run_spec<R>(s: TicketsView<R>, ops: Seq<TicketOp<R>>) -> TicketsView<R>
    decreases ops.len(),
{
    if ops.len() == 0 {
        s
    } else {
        step_spec(run_spec(s, ops.drop_last()), ops.last())
    }
}

/// Whether ticket `id` is open after `ops`: it was waiting at the start or
/// handed out by a queuing call since, and no later call redeemed it,
/// discarded it, closed the run or began a new one.
pub open spec fn ticket_open<R>(s: TicketsView<R>, ops: Seq<TicketOp<R>>, id: u64) -> bool
    decreases ops.len(),
{
    if ops.len() == 0 {
        s.pending.contains_key(id)
    } else {
        let prev = run_spec(s, ops.drop_last());
        match ops.last() {
            TicketOp::Queue(r) => queue_spec(prev, r).1 == Ok::<u64, Seq<char>>(id) || ticket_open(
                s,
                ops.drop_last(),
                id,
            ),
            TicketOp::Take(t) => t != id && ticket_open(s, ops.drop_last(), id),
            TicketOp::Discard(t) => t != id && ticket_open(s, ops.drop_last(), id),
            TicketOp::Close => false,
            TicketOp::Begin => false,
        }
    }
}

/// Every waiting request belongs to the current, active run (what `new`
/// gives and every call keeps).
pub open spec fn tickets_inv<R>(s: TicketsView<R>) -> bool {
    forall|k: u64| #[trigger] s.pending.contains_key(k) ==> s.active && s.pending[k].generation == s.generation
}

proof fn lemma_run_tracks_open<R>(s: TicketsView<R>, ops: Seq<TicketOp<R>>, id: u64)
    requires
        tickets_inv(s),
    ensures
        tickets_inv(run_spec(s, ops)),
        run_spec(s, ops).pending.contains_key(id) <==> ticket_open(s, ops, id),
    decreases ops.len(),
{
    if ops.len() > 0 {
        lemma_run_tracks_open(s, ops.drop_last(), id);
        let prev = run_spec(s, ops.drop_last());
        let next = run_spec(s, ops);
        assert(next == step_spec(prev, ops.last()));
        match ops.last() {
            TicketOp::Queue(r) => {
                assert forall|k: u64| #[trigger] next.pending.contains_key(k) implies next.active
                    && next.pending[k].generation == next.generation by {
                    if queue_spec(prev, r).1 is Ok && k != prev.next_id {
                        assert(prev.pending.contains_key(k));
                    }
                }
            },
            TicketOp::Take(t) => {
                assert forall|k: u64| #[trigger] next.pending.contains_key(k) implies next.active
                    && next.pending[k].generation == next.generation by {
                    assert(prev.pending.contains_key(k));
                }
            },
            TicketOp::Discard(t) => {
                assert forall|k: u64| #[trigger] next.pending.contains_key(k) implies next.active
                    && next.pending[k].generation == next.generation by {
                    assert(prev.pending.contains_key(k));
                }
            },
            TicketOp::Close => {},
            TicketOp::Begin => {},
        }
    }
}

/// Across any sequence of calls on reachable tickets, redeeming a ticket
/// gives its request exactly when the ticket is open (handed out in the
/// current run and neither redeemed, discarded nor cancelled since); and
/// whatever the answer, a second redemption is refused.
pub proof fn law_show_pending_answers_open_tickets<R>(s: TicketsView<R>, ops: Seq<TicketOp<R>>, id: u64)
    requires
        tickets_inv(s),
    ensures
        take_spec(run_spec(s, ops), id).1 is Ok <==> ticket_open(s, ops, id),
        take_spec(take_spec(run_spec(s, ops), id).0, id).1 is Err,
{
    lemma_run_tracks_open(s, ops, id);
}

/// No more than [`MAX_PENDING_REQUESTS`] requests ever wait: queuing keeps
/// the bound, and every other step only lets requests go.
pub proof fn law_pending_stays_bounded<R>(s: TicketsView<R>, request: R, id: u64)
    requires
        s.pending.dom().finite(),
        s.pending.len() <= MAX_PENDING_REQUESTS,
    ensures
        queue_spec(s, request).0.pending.dom().finite(),
        queue_spec(s, request).0.pending.len() <= MAX_PENDING_REQUESTS,
        take_spec(s, id).0.pending.dom().finite(),
        take_spec(s, id).0.pending.len() <= MAX_PENDING_REQUESTS,
        closed_spec(s).pending.len() == 0,
        begun_spec(s).pending.len() == 0,
{
    if s.pending.contains_key(id) {
        assert(s.pending.remove(id).dom() =~= s.pending.dom().remove(id));
    }
    if s.active && s.pending.len() < MAX_PENDING_REQUESTS {
        let d = s.pending.insert(s.next_id, PendingPopup { request, generation: s.generation }).dom();
        assert(d =~= s.pending.dom().insert(s.next_id));
    }
    assert(Map::<u64, PendingPopup<R>>::empty().dom() =~= Set::<u64>::empty());
}

// ---------------------------------------------------------------------------
// Console windows
// ---------------------------------------------------------------------------

/// Characters that `cmd.exe` would read as syntax.
pub open spec fn is_cmd_special(c: char) -> bool {
    c == '&' || c == '|' || c == '<' || c == '>' || c == '%' || c == '^' || c == '"' || c == '`'
        || c == '!' || c == '(' || c == ')'
}

/// `value` with control characters and `cmd.exe` syntax removed.
pub open spec fn cmd_literal_spec(value: Seq<char>) -> Seq<char> {
    value.filter(|c: char| !is_control(c) && !is_cmd_special(c))
}

pub fn cmd_literal(value: &str) -> (r: String)
    ensures
        r@ == cmd_literal_spec(value@),
{
    let v = chars_of(value);
    let mut r = String::new();
    let mut i: usize = 0;
    while i < v.len()
        invariant
            i <= v.len(),
            v@ == value@,
            r@ == cmd_literal_spec(v@.take(i as int)),
        decreases v.len() - i,
    {
        let c = v[i];
        assert(v@.take(i + 1).drop_last() =~= v@.take(i as int));
        proof {
            reveal(Seq::filter);
        }
        if !char_is_control(c) && !(c == '&' || c == '|' || c == '<' || c == '>' || c == '%' || c
            == '^' || c == '"' || c == '`' || c == '!' || c == '(' || c == ')') {
            push_char(&mut r, c);
        }
        i += 1;
    }
    assert(v@.take(v.len() as int) =~= v@);
    r
}

/// The batch script of a console window: UTF-8 code page, the title,
/// red (`4F`) or blue (`1F`) colours, the text file beside the script, and
/// a wait that keeps the window open; lines end in CR LF.
pub open spec fn cmd_script_spec(title: Seq<char>, text_filename: Seq<char>, blood_red: bool) -> Seq<
    char,
> {
    let color = if blood_red {
        "4F"@
    } else {
        "1F"@
    };
    "@echo off\r\nchcp 65001 >nul\r\ntitle "@ + cmd_literal_spec(title) + "\r\ncolor "@ + color
        + "\r\ncls\r\ntype \"%~dp0"@ + text_filename
        + "\"\r\n:lingchat_wait\r\nping -n 2 127.0.0.1 >nul\r\ngoto lingchat_wait"@
}

pub fn cmd_script(title: &str, text_filename: &str, blood_red: bool) -> (r: String)
    ensures
        r@ == cmd_script_spec(title@, text_filename@, blood_red),
{
    let color = if blood_red {
        "4F"
    } else {
        "1F"
    };
    let mut s = owned("@echo off\r\nchcp 65001 >nul\r\ntitle ");
    let t = cmd_literal(title);
    s.append(t.as_str());
    s.append("\r\ncolor ");
    s.append(color);
    s.append("\r\ncls\r\ntype \"%~dp0");
    s.append(text_filename);
    s.append("\"\r\n:lingchat_wait\r\nping -n 2 127.0.0.1 >nul\r\ngoto lingchat_wait");
    s
}

/// What closing a system window's process does once its windows were
/// asked to close.
#[derive(Debug, Clone, Copy, PartialEq, Eq, Structural)]
pub struct CloseActions {
    /// End the window's own child process.
    pub kill_child: bool,
    /// Keep the window's temporary files (the document is still in use).
    pub keep_files: bool,
}

/// The decision of a close: the child still running is ended when the
/// request says to, or when its tracked windows were found and the document
/// closed cleanly; the temporary files stay only when the process was not
/// to be ended and the document is still open, or no window was found and
/// the child still runs.
pub fn close_decision(kill_process: bool, document_open: bool, windows_found: bool, child_running: bool) -> (r: CloseActions)
    ensures
        r.kill_child == (child_running && (kill_process || (!document_open && windows_found))),
        r.keep_files == (!kill_process && (document_open || (!windows_found && child_running))),
{
    let mut running = child_running;
    let mut kill = false;
    if running && kill_process {
        kill = true;
        running = false;
    }
    if !kill_process && !document_open && windows_found && running {
        kill = true;
        running = false;
    }
    CloseActions { kill_child: kill, keep_files: !kill_process && (document_open || (!windows_found && running)) }
}

} // verus!
