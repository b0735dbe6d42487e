//! Sessions, and the functions that the host calls on them.
//!
//! The host cannot hold the state of a session, only an integer that stands
//! for it. [`Sessions`] is where the states live in the meantime: handing a
//! state over gives the integer, and taking it back for good ends the
//! session. A handle is never handed out twice, so the handle of a session
//! that has ended stays invalid.
//!
//! Every function here that takes a session handle takes a live one. To call
//! one with 0, or with any other handle that is not live, is a mistake of
//! the host that these functions do not recover from.

use crate::interpreter::string_views;
use crate::interpreter::Reporter;
use crate::string::Heap;
use crate::string::HeapOp;
use crate::string::HeapView;
use std::collections::hash_map::Entry;
use std::collections::HashMap;
use vstd::pervasive::unreached;
use vstd::prelude::*;
use vstd::utf8::encode_utf8;

verus! {

broadcast use vstd::std_specs::hash::group_hash_axioms;

/// The state of one playground session: the string heap that the host and
/// the module pass strings through.
#[derive(Debug)]
pub struct State {
    heap: Heap,
}

impl View for State {
    type V = HeapView;

    closed spec fn view(&self) -> HeapView {
        self.heap@
    }
}

impl Default for State {
    fn default() -> (state: Self)
        ensures
            state@ == HeapView::empty(),
    {
        Self { heap: Heap::new() }
    }
}

impl Clone for State {
    fn clone(&self) -> (state: Self)
        ensures
            state@ == self@,
    {
        Self { heap: self.heap.clone() }
    }
}

/// The mathematical content of [`Sessions`]: the heap of each live session
/// under its handle, and the handle that the next session gets.
#[verifier::ext_equal]
pub struct SessionsView {
    pub live: Map<u32, HeapView>,
    pub next_free: nat,
}

/// One step in the life of the sessions, for statements about runs of steps.
pub enum SessionOp {
    /// A session starts with the given heap.
    Start(HeapView),
    /// The heap of the session under the handle changes.
    Change(u32, HeapOp),
    /// The session under the handle ends.
    End(u32),
}

impl SessionsView {
    /// No session was ever started. Handle 0 means "no session", so the
    /// first handle is 1.
    pub open spec fn empty() -> SessionsView {
        SessionsView { live: Map::empty(), next_free: 1 }
    }

    /// Every live handle was handed out: it is not 0 and lies below
    /// `next_free`, which still fits a handle. Every live heap is well
    /// formed.
    pub open spec fn wf(self) -> bool {
        &&& 1 <= self.next_free <= u32::MAX
        &&& self.live.dom().finite()
        &&& forall|raw: u32| #[trigger]
            self.live.contains_key(raw) ==> 1 <= raw < self.next_free && self.live[raw].wf()
    }

    /// Whether a handle is left for one more session.
    pub open spec fn has_room(self) -> bool {
        self.next_free < u32::MAX
    }

    /// The handle stands for a session that the host holds.
    pub open spec fn is_live(self, raw: u32) -> bool {
        self.live.contains_key(raw)
    }

    /// The handle stood for a session that has ended.
    pub open spec fn is_consumed(self, raw: u32) -> bool {
        1 <= raw < self.next_free && !self.live.contains_key(raw)
    }

    /// The handle was never handed out.
    pub open spec fn is_uninitialized(self, raw: u32) -> bool {
        raw == 0 || raw >= self.next_free
    }

    /// The sessions after a state with heap `state` was handed over under
    /// the next free handle.
    pub open spec fn into_raw(self, state: HeapView) -> SessionsView {
        SessionsView {
            live: self.live.insert(self.next_free as u32, state),
            next_free: self.next_free + 1,
        }
    }

    /// The sessions after the state under `raw` was taken back for good.
    pub open spec fn from_raw(self, raw: u32) -> SessionsView {
        SessionsView { live: self.live.remove(raw), next_free: self.next_free }
    }

    /// The sessions with `heap` as the heap of the live session `raw`.
    pub open spec fn with_heap(self, raw: u32, heap: HeapView) -> SessionsView {
        SessionsView { live: self.live.insert(raw, heap), next_free: self.next_free }
    }

    /// The sessions after one step. A step on a session that is not live
    /// changes nothing.
    pub open spec fn apply(self, op: SessionOp) -> SessionsView {
        match op {
            SessionOp::Start(heap) => self.into_raw(heap),
            SessionOp::Change(raw, change) => if self.is_live(raw) {
                self.with_heap(raw, self.live[raw].apply(change))
            } else {
                self
            },
            SessionOp::End(raw) => self.from_raw(raw),
        }
    }

    /// The sessions after a run of steps, first to last.
    pub open spec fn run(self, ops: Seq<SessionOp>) -> SessionsView
        decreases ops.len(),
    {
        if ops.len() == 0 {
            self
        } else {
            self.run(ops.drop_last()).apply(ops.last())
        }
    }

    /// The handle that the step at position `i` of `ops` returns if it
    /// starts a session.
    pub open spec fn handle_at(self, ops: Seq<SessionOp>, i: int) -> u32 {
        self.run(ops.take(i)).next_free as u32
    }
}

/// The states of the sessions that the host holds a handle to.
#[derive(Debug)]
pub struct Sessions {
    live: HashMap<u32, State>,
    next_free: u32,
}

impl View for Sessions {
    type V = SessionsView;

    closed spec fn view(&self) -> SessionsView {
        SessionsView {
            live: Map::new(|raw: u32| self.live@.contains_key(raw), |raw: u32| self.live@[raw]@),
            next_free: self.next_free as nat,
        }
    }
}

impl Default for Sessions {
    fn default() -> (sessions: Self)
        ensures
            sessions@ == SessionsView::empty(),
    {
        Self::new()
    }
}

impl Sessions {
    /// No sessions.
    pub fn new() -> (sessions: Self)
        ensures
            sessions@ == SessionsView::empty(),
    {
        let sessions = Self { live: HashMap::new(), next_free: 1 };
        assert(sessions@.live =~= Map::empty());
        sessions
    }

    /// Returns `true` if a handle is left for one more session.
    pub fn has_room(&self) -> (room: bool)
        ensures
            room == self@.has_room(),
    {
        self.next_free < u32::MAX
    }

    /// Returns `true` if `raw` stands for a session that the host holds.
    pub fn is_live(&self, raw: u32) -> (live: bool)
        ensures
            live == self@.is_live(raw),
    {
        self.live.contains_key(&raw)
    }

    /// Returns `true` if `raw` stands for a session that the host holds and
    /// whose heap can still hand out a handle.
    pub fn heap_has_room(&self, raw: u32) -> (room: bool)
        ensures
            room == (self@.is_live(raw) && self@.live[raw].has_room()),
    {
        match self.live.get(&raw) {
            Some(state) => state.heap.has_room(),
            None => false,
        }
    }

    /// The state of the live session `raw`.
    fn state(&self, raw: u32) -> (state: &State)
        requires
            self@.is_live(raw),
        ensures
            state@ == self@.live[raw],
    {
        match self.live.get(&raw) {
            Some(state) => state,
            None => unreached(),
        }
    }

    /// The state of the live session `raw`, to change it in place.
    fn state_mut(&mut self, raw: u32) -> (state: &mut State)
        requires
            old(self)@.is_live(raw),
        ensures
            state@ == old(self)@.live[raw],
            final(self)@ == old(self)@.with_heap(raw, final(state)@),
    {
        match self.live.entry(raw) {
            Entry::Occupied(entry) => entry.into_mut(),
            Entry::Vacant(_) => unreached(),
        }
    }
}

impl State {
    /// Hand the state over to the host: from now on the value returned
    /// stands for it. The value is not 0 and was never returned before.
    pub fn into_raw(self, sessions: &mut Sessions) -> (raw: u32)
        requires
            old(sessions)@.has_room(),
        ensures
            raw == old(sessions)@.next_free,
            final(sessions)@ == old(sessions)@.into_raw(self@),
            final(sessions)@.is_live(raw),
            old(sessions)@.wf() ==> raw != 0 && !old(sessions)@.is_live(raw),
            old(sessions)@.wf() && self@.wf() ==> final(sessions)@.wf(),
    {
        let raw = sessions.next_free;
        sessions.next_free += 1;
        sessions.live.insert(raw, self);
        assert(sessions@.live =~= old(sessions)@.live.insert(raw, self@));
        raw
    }

    /// Take the state that `raw` stands for back from the host, for good:
    /// the session ends, and `raw` stands for nothing from now on.
    pub fn from_raw(raw: u32, sessions: &mut Sessions) -> (state: Self)
        requires
            raw != 0,
            old(sessions)@.is_live(raw),
        ensures
            state@ == old(sessions)@.live[raw],
            final(sessions)@ == old(sessions)@.from_raw(raw),
            old(sessions)@.wf() ==> final(sessions)@.wf() && final(sessions)@.is_consumed(raw),
    {
        let state = match sessions.live.remove(&raw) {
            Some(state) => state,
            None => unreached(),
        };
        assert(sessions@.live =~= old(sessions)@.live.remove(raw));
        state
    }
}

/// The text that a session starts with, for what the interpreter said of
/// its build: its words where it had any, and the failure where it could
/// not be made.
pub open spec fn spec_build_text(interp: Result<Option<String>, String>) -> Seq<char> {
    match interp {
        Ok(Some(build)) => build@,
        Ok(None) => "Could not extract interpreter metadata"@,
        Err(error) => error@,
    }
}

/// The text that a session starts with. `interp` holds the description of
/// the build that the interpreter gave, if it gave one, or else the display
/// text of the failure to make an interpreter.
pub fn build_text(interp: Result<Option<String>, String>) -> (build: String)
    ensures
        build@ == spec_build_text(interp),
{
    match interp {
        Ok(Some(build)) => build,
        Ok(None) => String::from_str("Could not extract interpreter metadata"),
        Err(error) => error,
    }
}

/// The text that a run leaves in the heap: the report where there is one,
/// `Fatal error` where none could be made, and the failure where no
/// interpreter could be made.
pub open spec fn spec_eval_text(
    evaluation: Result<Option<Reporter>, String>,
    escaped: Seq<Seq<char>>,
) -> Seq<char> {
    match evaluation {
        Ok(Some(reporter)) => if escaped.len() == reporter.spec_lines_to_escape().len() {
            reporter.spec_report(escaped)
        } else {
            "Fatal error"@
        },
        Ok(None) => "Fatal error"@,
        Err(error) => error@,
    }
}

/// The text that a run leaves in the heap. `evaluation` holds what the run
/// gave, if the interpreter could say, or else the display text of the
/// failure to make an interpreter. `escaped` is as
/// [`Reporter::to_report`] takes it.
pub fn eval_text(evaluation: Result<Option<Reporter>, String>, escaped: &Vec<String>) -> (out:
    String)
    ensures
        out@ == spec_eval_text(evaluation, string_views(escaped@)),
{
    match evaluation {
        Ok(Some(reporter)) => match reporter.to_report(escaped) {
            Some(report) => report,
            None => String::from_str("Fatal error"),
        },
        Ok(None) => String::from_str("Fatal error"),
        Err(error) => error,
    }
}

/// Starts a session and returns its handle. The heap of the session holds
/// one string, `build`, under the first handle.
#[must_use]
pub fn artichoke_web_repl_init(sessions: &mut Sessions, build: String) -> (state: u32)
    requires
        old(sessions)@.has_room(),
    ensures
        state == old(sessions)@.next_free,
        final(sessions)@ == old(sessions)@.into_raw(
            HeapView::empty().allocate(encode_utf8(build@)),
        ),
        final(sessions)@.is_live(state),
        old(sessions)@.wf() ==> state != 0 && !old(sessions)@.is_live(state),
        old(sessions)@.wf() ==> final(sessions)@.wf(),
{
    let mut state = State::default();
    state.heap.allocate(build);
    state.into_raw(sessions)
}

/// Allocates an empty string in the heap of the session `state` and returns
/// its handle.
#[must_use]
pub fn artichoke_string_new(sessions: &mut Sessions, state: u32) -> (ptr: u32)
    requires
        state != 0,
        old(sessions)@.is_live(state),
        old(sessions)@.live[state].has_room(),
    ensures
        ptr == old(sessions)@.live[state].next_free,
        final(sessions)@ == old(sessions)@.with_heap(
            state,
            old(sessions)@.live[state].allocate(Seq::empty()),
        ),
        final(sessions)@.is_live(state),
        old(sessions)@.wf() ==> ptr != 0 && !old(sessions)@.live[state].memory.contains_key(ptr),
        old(sessions)@.wf() ==> final(sessions)@.wf(),
{
    let state = sessions.state_mut(state);
    state.heap.allocate(String::new())
}

/// Frees the string `ptr` in the heap of the session `state`. Freeing a
/// string that is not there does nothing.
pub fn artichoke_string_free(sessions: &mut Sessions, state: u32, ptr: u32)
    requires
        state != 0,
        old(sessions)@.is_live(state),
    ensures
        final(sessions)@ == old(sessions)@.with_heap(state, old(sessions)@.live[state].free(ptr)),
        final(sessions)@.is_live(state),
        old(sessions)@.wf() ==> final(sessions)@.wf(),
{
    let state = sessions.state_mut(state);
    state.heap.free(ptr);
}

/// The byte length of the string `ptr` in the heap of the session `state`;
/// 0 if the string is not there.
#[must_use]
pub fn artichoke_string_getlen(sessions: &Sessions, state: u32, ptr: u32) -> (len: u32)
    requires
        state != 0,
        sessions@.is_live(state),
    ensures
        len == sessions@.live[state].string_getlen(ptr),
{
    sessions.state(state).heap.string_getlen(ptr)
}

/// The byte at `idx` of the string `ptr` in the heap of the session
/// `state`; 0 if the string is not there or ends before `idx`.
#[must_use]
pub fn artichoke_string_getch(sessions: &Sessions, state: u32, ptr: u32, idx: u32) -> (ch: u8)
    requires
        state != 0,
        sessions@.is_live(state),
    ensures
        ch == sessions@.live[state].string_getch(ptr, idx),
{
    sessions.state(state).heap.string_getch(ptr, idx)
}

/// Appends `ch` to the string `ptr` in the heap of the session `state`.
/// Appending to a string that is not there does nothing.
pub fn artichoke_string_putch(sessions: &mut Sessions, state: u32, ptr: u32, ch: u8)
    requires
        state != 0,
        old(sessions)@.is_live(state),
    ensures
        final(sessions)@ == old(sessions)@.with_heap(
            state,
            old(sessions)@.live[state].string_putch(ptr, ch),
        ),
        final(sessions)@.is_live(state),
        old(sessions)@.wf() ==> final(sessions)@.wf(),
{
    let state = sessions.state_mut(state);
    state.heap.string_putch(ptr, ch);
}

/// The code to run: the bytes of the string `ptr` in the heap of the
/// session `state`. The string stays where it is.
#[must_use]
pub fn artichoke_eval_code(sessions: &Sessions, state: u32, ptr: u32) -> (code: &[u8])
    requires
        state != 0,
        sessions@.is_live(state),
    ensures
        code@ == sessions@.live[state].string(ptr),
{
    sessions.state(state).heap.string(ptr)
}

/// Stores what a run gave as a new string in the heap of the session
/// `state` and returns its handle. No string is freed: the code that was run
/// and the string returned here are the host's to free.
#[must_use]
pub fn artichoke_eval(
    sessions: &mut Sessions,
    state: u32,
    evaluation: Result<Option<Reporter>, String>,
    escaped: &Vec<String>,
) -> (ptr: u32)
    requires
        state != 0,
        old(sessions)@.is_live(state),
        old(sessions)@.live[state].has_room(),
    ensures
        ptr == old(sessions)@.live[state].next_free,
        final(sessions)@ == old(sessions)@.with_heap(
            state,
            old(sessions)@.live[state].allocate(
                encode_utf8(spec_eval_text(evaluation, string_views(escaped@))),
            ),
        ),
        final(sessions)@.is_live(state),
        old(sessions)@.wf() ==> ptr != 0 && !old(sessions)@.live[state].memory.contains_key(ptr),
        old(sessions)@.wf() ==> forall|code: u32| #[trigger]
            old(sessions)@.live[state].memory.contains_key(code) ==> {
                &&& final(sessions)@.live[state].memory.contains_key(code)
                &&& final(sessions)@.live[state].string(code) == old(sessions)@.live[state].string(
                    code,
                )
            },
        old(sessions)@.wf() ==> final(sessions)@.wf(),
{
    let out = eval_text(evaluation, escaped);
    let state = sessions.state_mut(state);
    state.heap.allocate(out)
}

/// Handle 0 never stands for a session: it is never handed out and never
/// live, so no function that takes a live session handle takes 0.
pub proof fn lemma_null_handle_never_live(sessions: SessionsView)
    requires
        sessions.wf(),
    ensures
        !sessions.is_live(0),
        !sessions.is_consumed(0),
        sessions.is_uninitialized(0),
{
}

/// Every handle is in exactly one of the three states of a session: never
/// handed out, live, or consumed.
pub proof fn lemma_handle_in_one_state(sessions: SessionsView, raw: u32)
    requires
        sessions.wf(),
    ensures
        sessions.is_uninitialized(raw) || sessions.is_live(raw) || sessions.is_consumed(raw),
        !(sessions.is_uninitialized(raw) && sessions.is_live(raw)),
        !(sessions.is_uninitialized(raw) && sessions.is_consumed(raw)),
        !(sessions.is_live(raw) && sessions.is_consumed(raw)),
{
}

/// A step never lowers `next_free`.
pub proof fn lemma_sessions_next_free_only_grows(sessions: SessionsView, ops: Seq<SessionOp>)
    ensures
        sessions.next_free <= sessions.run(ops).next_free,
    decreases ops.len(),
{
    if ops.len() > 0 {
        lemma_sessions_next_free_only_grows(sessions, ops.drop_last());
    }
}

/// Along a run of steps `next_free` never falls from one position to a
/// later one.
pub proof fn lemma_sessions_next_free_grows_along(
    sessions: SessionsView,
    ops: Seq<SessionOp>,
    i: int,
    j: int,
)
    requires
        0 <= i <= j <= ops.len(),
    ensures
        sessions.run(ops.take(i)).next_free <= sessions.run(ops.take(j)).next_free,
    decreases j - i,
{
    if i < j {
        lemma_sessions_next_free_grows_along(sessions, ops, i, j - 1);
        assert(ops.take(j).drop_last() =~= ops.take(j - 1));
    }
}

/// Whatever sessions start, change and end, no session gets handle 0 and no
/// two sessions get the same handle, not even when the first of them has
/// ended before the second starts.
pub proof fn lemma_started_handles_distinct(ops: Seq<SessionOp>, i: int, j: int)
    requires
        0 <= i < j < ops.len(),
        ops[i] is Start,
        ops[j] is Start,
        SessionsView::empty().run(ops).next_free <= u32::MAX,
    ensures
        SessionsView::empty().handle_at(ops, i) != SessionsView::empty().handle_at(ops, j),
        SessionsView::empty().handle_at(ops, i) != 0,
        SessionsView::empty().handle_at(ops, j) != 0,
{
    let fresh = SessionsView::empty();
    assert(ops.take(i + 1).drop_last() =~= ops.take(i));
    assert(ops.take(i + 1).last() == ops[i]);
    lemma_sessions_next_free_only_grows(fresh, ops.take(i));
    lemma_sessions_next_free_grows_along(fresh, ops, i + 1, j);
    lemma_sessions_next_free_grows_along(fresh, ops, j, ops.len() as int);
    assert(ops.take(ops.len() as int) =~= ops);
}

/// Once a session has ended, its handle stays invalid: whatever sessions
/// start, change and end afterwards, the handle is never live again.
pub proof fn lemma_consumed_stays_consumed(sessions: SessionsView, raw: u32, ops: Seq<SessionOp>)
    requires
        sessions.is_consumed(raw),
        sessions.run(ops).next_free <= u32::MAX,
    ensures
        sessions.run(ops).is_consumed(raw),
        !sessions.run(ops).is_live(raw),
    decreases ops.len(),
{
    if ops.len() > 0 {
        let before = sessions.run(ops.drop_last());
        assert(before.next_free <= before.apply(ops.last()).next_free);
        lemma_consumed_stays_consumed(sessions, raw, ops.drop_last());
    }
}

/// Ending a live session consumes its handle, and the steps that follow do
/// not bring it back.
pub proof fn lemma_ended_session_stays_ended(sessions: SessionsView, raw: u32, ops: Seq<SessionOp>)
    requires
        sessions.wf(),
        sessions.is_live(raw),
        sessions.from_raw(raw).run(ops).next_free <= u32::MAX,
    ensures
        !sessions.from_raw(raw).run(ops).is_live(raw),
{
    lemma_consumed_stays_consumed(sessions.from_raw(raw), raw, ops);
}

} // verus!
