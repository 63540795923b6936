//! Reading an inference out of the native engine once an utterance is
//! finalized.
//!
//! The host drives an [`Extraction`]: it asks for the next step, makes the
//! native call that the step names, and hands the outcome back as a reply.
//! The session decides everything else: whether the intent is fetched, that
//! the native slot buffers are freed exactly once after a successful fetch,
//! that the engine is reset at the end, and which error a failed call gives.

use vstd::prelude::*;

use crate::error::{call_failed, call_failure, stack_views, ErrorView, RhinoError};
use crate::slots::{distinct_names, lemma_distinct_pairs_map, pair_views, pairs_map, SlotMap};
use crate::status::PvStatus;

verus! {

/// The outcome of reading out an utterance.
pub struct RhinoInference {
    /// Whether the utterance matched the context.
    pub is_understood: bool,
    /// The intent, when the utterance was understood.
    pub intent: Option<String>,
    /// The slots of the intent; empty when the utterance was not understood.
    pub slots: SlotMap,
}

/// The native calls made while an inference is read out.
#[derive(Clone, Copy, Debug, PartialEq, Eq, Structural)]
pub enum ExtractionCall {
    IsUnderstood,
    GetIntent,
    FreeSlotsAndValues,
    Reset,
    GetErrorStack,
}

/// The next thing the host is to do.
#[derive(Clone, Copy, Debug, PartialEq, Eq, Structural)]
pub enum ExtractionStep {
    /// Ask whether the utterance was understood.
    QueryUnderstood,
    /// Fetch the intent and the slot names and values.
    GetIntent,
    /// Free the slot buffers that the last fetch returned, by the very
    /// pointers it returned.
    FreeSlots,
    /// Reset the engine for the next utterance.
    ResetEngine,
    /// Fetch, copy and free the native message stack.
    FetchErrorStack,
    /// Nothing: the session has its outcome.
    Finished,
}

/// The outcome of the native call that a step asked for.
pub enum ExtractionReply {
    /// The status of the query and whether the utterance was understood.
    Understood(PvStatus, bool),
    /// The status of the fetch, the intent, and the slot name and value
    /// pairs in the order the engine listed them.
    Intent(PvStatus, String, Vec<(String, String)>),
    /// The status of freeing the slot buffers.
    SlotsFreed(PvStatus),
    /// The status of the reset.
    EngineReset(PvStatus),
    /// The message stack, or the status with which fetching it failed.
    ErrorStack(Result<Vec<String>, PvStatus>),
}

/// Where a session stands.
pub enum Phase {
    AwaitUnderstood,
    AwaitIntent,
    AwaitFree,
    AwaitReset,
    /// A native call failed with this status; its messages are wanted.
    AwaitStack(PvStatus, ExtractionCall),
    Failed(RhinoError),
    Succeeded,
}

/// Where a session stands, as plain values.
pub enum PhaseView {
    AwaitUnderstood,
    AwaitIntent,
    AwaitFree,
    AwaitReset,
    AwaitStack(PvStatus, ExtractionCall),
    Failed(ErrorView),
    Succeeded,
}

/// A session, as plain values. `calls` lists the native calls made so far,
/// each with whether it succeeded.
pub struct ExtractionView {
    pub phase: PhaseView,
    pub understood: bool,
    pub intent: Option<Seq<char>>,
    pub slots: Map<Seq<char>, Seq<char>>,
    pub calls: Seq<(ExtractionCall, bool)>,
}

/// A session that reads out one inference.
pub struct Extraction {
    phase: Phase,
    understood: bool,
    intent: Option<String>,
    slots: SlotMap,
    calls: Ghost<Seq<(ExtractionCall, bool)>>,
}

/// A phase as plain values.
pub open spec fn phase_view(p: Phase) -> PhaseView {
    match p {
        Phase::AwaitUnderstood => PhaseView::AwaitUnderstood,
        Phase::AwaitIntent => PhaseView::AwaitIntent,
        Phase::AwaitFree => PhaseView::AwaitFree,
        Phase::AwaitReset => PhaseView::AwaitReset,
        Phase::AwaitStack(s, c) => PhaseView::AwaitStack(s, c),
        Phase::Failed(e) => PhaseView::Failed(e@),
        Phase::Succeeded => PhaseView::Succeeded,
    }
}

/// An optional string as plain values.
pub open spec fn option_view(o: Option<String>) -> Option<Seq<char>> {
    match o {
        Some(s) => Some(s@),
        None => None,
    }
}

impl View for Extraction {
    type V = ExtractionView;

    closed spec fn view(&self) -> ExtractionView {
        ExtractionView {
            phase: phase_view(self.phase),
            understood: self.understood,
            intent: option_view(self.intent),
            slots: self.slots@,
            calls: self.calls@,
        }
    }
}

/// The name of the native function behind a call.
pub open spec fn call_name(c: ExtractionCall) -> Seq<char> {
    match c {
        ExtractionCall::IsUnderstood => "pv_rhino_is_understood"@,
        ExtractionCall::GetIntent => "pv_rhino_get_intent"@,
        ExtractionCall::FreeSlotsAndValues => "pv_rhino_free_slots_and_values"@,
        ExtractionCall::Reset => "pv_rhino_reset"@,
        ExtractionCall::GetErrorStack => "pv_get_error_stack"@,
    }
}

/// The session before any native call.
pub open spec fn extraction_start() -> ExtractionView {
    ExtractionView {
        phase: PhaseView::AwaitUnderstood,
        understood: false,
        intent: None,
        slots: Map::empty(),
        calls: Seq::empty(),
    }
}

/// `v` after the call `c` with status `st`: on success, the phase `next`;
/// on failure, waiting for the message stack.
pub open spec fn after_call(v: ExtractionView, c: ExtractionCall, st: PvStatus, next: PhaseView) -> ExtractionView {
    if st == PvStatus::SUCCESS {
        ExtractionView { phase: next, calls: v.calls.push((c, true)), ..v }
    } else {
        ExtractionView { phase: PhaseView::AwaitStack(st, c), calls: v.calls.push((c, false)), ..v }
    }
}

/// How a session moves on a reply. A reply that does not answer the step
/// the session asked for leaves it as it is.
pub open spec fn extraction_step(v: ExtractionView, r: ExtractionReply) -> ExtractionView {
    match (v.phase, r) {
        (PhaseView::AwaitUnderstood, ExtractionReply::Understood(st, u)) => {
            let next = if u { PhaseView::AwaitIntent } else { PhaseView::AwaitReset };
            let v2 = if st == PvStatus::SUCCESS { ExtractionView { understood: u, ..v } } else { v };
            after_call(v2, ExtractionCall::IsUnderstood, st, next)
        },
        (PhaseView::AwaitIntent, ExtractionReply::Intent(st, intent, pairs)) => {
            let v2 = if st == PvStatus::SUCCESS {
                ExtractionView { intent: Some(intent@), slots: pairs_map(pair_views(pairs@)), ..v }
            } else {
                v
            };
            after_call(v2, ExtractionCall::GetIntent, st, PhaseView::AwaitFree)
        },
        (PhaseView::AwaitFree, ExtractionReply::SlotsFreed(st)) => {
            after_call(v, ExtractionCall::FreeSlotsAndValues, st, PhaseView::AwaitReset)
        },
        (PhaseView::AwaitReset, ExtractionReply::EngineReset(st)) => {
            after_call(v, ExtractionCall::Reset, st, PhaseView::Succeeded)
        },
        (PhaseView::AwaitStack(st, c), ExtractionReply::ErrorStack(stack)) => ExtractionView {
            phase: PhaseView::Failed(call_failure(st, call_name(c), stack_views(stack))),
            calls: v.calls.push((ExtractionCall::GetErrorStack, stack is Ok)),
            ..v
        },
        _ => v,
    }
}

/// The session after the replies `rs`, in order, from the start.
pub open spec fn extraction_run(rs: Seq<ExtractionReply>) -> ExtractionView
    decreases rs.len(),
{
    if rs.len() == 0 {
        extraction_start()
    } else {
        extraction_step(extraction_run(rs.drop_last()), rs.last())
    }
}

/// The step a session asks for.
pub open spec fn step_of(p: PhaseView) -> ExtractionStep {
    match p {
        PhaseView::AwaitUnderstood => ExtractionStep::QueryUnderstood,
        PhaseView::AwaitIntent => ExtractionStep::GetIntent,
        PhaseView::AwaitFree => ExtractionStep::FreeSlots,
        PhaseView::AwaitReset => ExtractionStep::ResetEngine,
        PhaseView::AwaitStack(_, _) => ExtractionStep::FetchErrorStack,
        _ => ExtractionStep::Finished,
    }
}

/// The number of calls to `c` in `calls`; only the successful ones where
/// `only_ok` is set.
pub open spec fn count_calls(calls: Seq<(ExtractionCall, bool)>, c: ExtractionCall, only_ok: bool) -> nat
    decreases calls.len(),
{
    if calls.len() == 0 {
        0
    } else {
        count_calls(calls.drop_last(), c, only_ok) + if calls.last().0 == c && (calls.last().1 || !only_ok) {
            1nat
        } else {
            0nat
        }
    }
}

impl ExtractionCall {
    /// The name of the native function behind this call.
    pub fn function_name(&self) -> (r: &'static str)
        ensures
            r@ == call_name(*self),
    {
        match self {
            ExtractionCall::IsUnderstood => "pv_rhino_is_understood",
            ExtractionCall::GetIntent => "pv_rhino_get_intent",
            ExtractionCall::FreeSlotsAndValues => "pv_rhino_free_slots_and_values",
            ExtractionCall::Reset => "pv_rhino_reset",
            ExtractionCall::GetErrorStack => "pv_get_error_stack",
        }
    }
}

impl RhinoInference {
    /// The invariant of the slot map inside.
    pub open spec fn wf(&self) -> bool {
        self.slots.wf()
    }
}

impl Extraction {
    /// The invariant of the slot map inside.
    pub closed spec fn wf(&self) -> bool {
        self.slots.wf()
    }

    /// A session that has made no native call yet.
    pub fn new() -> (r: Self)
        ensures
            r.wf(),
            r@ == extraction_start(),
    {
        Extraction {
            phase: Phase::AwaitUnderstood,
            understood: false,
            intent: None,
            slots: SlotMap::new(),
            calls: Ghost(Seq::empty()),
        }
    }

    /// What the host is to do next.
    pub fn next_step(&self) -> (r: ExtractionStep)
        ensures
            r == step_of(self@.phase),
    {
        match &self.phase {
            Phase::AwaitUnderstood => ExtractionStep::QueryUnderstood,
            Phase::AwaitIntent => ExtractionStep::GetIntent,
            Phase::AwaitFree => ExtractionStep::FreeSlots,
            Phase::AwaitReset => ExtractionStep::ResetEngine,
            Phase::AwaitStack(_, _) => ExtractionStep::FetchErrorStack,
            _ => ExtractionStep::Finished,
        }
    }

    fn after_call(&mut self, c: ExtractionCall, st: PvStatus, next: Phase)
        ensures
            final(self).wf() == old(self).wf(),
            final(self)@ == after_call(old(self)@, c, st, phase_view(next)),
    {
        if st.is_success() {
            self.phase = next;
            self.calls = Ghost(self.calls@.push((c, true)));
        } else {
            self.phase = Phase::AwaitStack(st, c);
            self.calls = Ghost(self.calls@.push((c, false)));
        }
    }

    /// Takes the outcome of the native call that the session asked for.
    pub fn handle(&mut self, reply: ExtractionReply)
        ensures
            old(self).wf() ==> final(self).wf(),
            final(self)@ == extraction_step(old(self)@, reply),
    {
        let ghost r = reply;
        match (&self.phase, reply) {
            (Phase::AwaitUnderstood, ExtractionReply::Understood(st, u)) => {
                if st.is_success() {
                    self.understood = u;
                }
                let next = if u { Phase::AwaitIntent } else { Phase::AwaitReset };
                self.after_call(ExtractionCall::IsUnderstood, st, next);
            },
            (Phase::AwaitIntent, ExtractionReply::Intent(st, intent, pairs)) => {
                if st.is_success() {
                    self.intent = Some(intent);
                    self.slots = SlotMap::from_pairs(pairs);
                }
                self.after_call(ExtractionCall::GetIntent, st, Phase::AwaitFree);
            },
            (Phase::AwaitFree, ExtractionReply::SlotsFreed(st)) => {
                self.after_call(ExtractionCall::FreeSlotsAndValues, st, Phase::AwaitReset);
            },
            (Phase::AwaitReset, ExtractionReply::EngineReset(st)) => {
                self.after_call(ExtractionCall::Reset, st, Phase::Succeeded);
            },
            (Phase::AwaitStack(st, c), ExtractionReply::ErrorStack(stack)) => {
                let (st, c) = (*st, *c);
                let fetched = stack.is_ok();
                let e = call_failed(st, c.function_name(), stack);
                self.phase = Phase::Failed(e);
                self.calls = Ghost(self.calls@.push((ExtractionCall::GetErrorStack, fetched)));
            },
            _ => {},
        }
    }

    /// The outcome, once the session has finished; `None` before.
    pub fn finish(self) -> (r: Option<Result<RhinoInference, RhinoError>>)
        ensures
            r is None <==> step_of(self@.phase) != ExtractionStep::Finished,
            r matches Some(Ok(inf)) ==> {
                &&& self@.phase is Succeeded
                &&& self.wf() ==> inf.wf()
                &&& inf.is_understood == self@.understood
                &&& option_view(inf.intent) == self@.intent
                &&& inf.slots@ == self@.slots
            },
            r matches Some(Err(e)) ==> self@.phase == PhaseView::Failed(e@),
    {
        match self.phase {
            Phase::Succeeded => Some(
                Ok(RhinoInference { is_understood: self.understood, intent: self.intent, slots: self.slots }),
            ),
            Phase::Failed(e) => Some(Err(e)),
            _ => None,
        }
    }
}

// ---------------------------------------------------------------------------
// Laws

/// The calls a session has made when the call `c` failed, with what it must
/// hold of the intent and slots at that point.
pub open spec fn failed_prefix(v: ExtractionView, c: ExtractionCall, calls: Seq<(ExtractionCall, bool)>) -> bool {
    let u = (ExtractionCall::IsUnderstood, true);
    let g = (ExtractionCall::GetIntent, true);
    let f = (ExtractionCall::FreeSlotsAndValues, true);
    match c {
        ExtractionCall::IsUnderstood => calls == seq![(ExtractionCall::IsUnderstood, false)] && !v.understood
            && v.intent is None && v.slots == Map::<Seq<char>, Seq<char>>::empty(),
        ExtractionCall::GetIntent => calls == seq![u, (ExtractionCall::GetIntent, false)] && v.understood,
        ExtractionCall::FreeSlotsAndValues => calls == seq![u, g, (ExtractionCall::FreeSlotsAndValues, false)]
            && v.understood,
        ExtractionCall::Reset => if v.understood {
            calls == seq![u, g, f, (ExtractionCall::Reset, false)]
        } else {
            calls == seq![u, (ExtractionCall::Reset, false)] && v.intent is None
                && v.slots == Map::<Seq<char>, Seq<char>>::empty()
        },
        ExtractionCall::GetErrorStack => false,
    }
}

/// The shapes a session can take: in each phase, the native calls made so
/// far and what is known of the intent and slots.
pub open spec fn extraction_inv(v: ExtractionView) -> bool {
    let u = (ExtractionCall::IsUnderstood, true);
    let g = (ExtractionCall::GetIntent, true);
    let f = (ExtractionCall::FreeSlotsAndValues, true);
    let r = (ExtractionCall::Reset, true);
    match v.phase {
        PhaseView::AwaitUnderstood => v.calls == Seq::<(ExtractionCall, bool)>::empty() && !v.understood
            && v.intent is None && v.slots == Map::<Seq<char>, Seq<char>>::empty(),
        PhaseView::AwaitIntent => v.calls == seq![u] && v.understood && v.intent is None,
        PhaseView::AwaitFree => v.calls == seq![u, g] && v.understood && v.intent is Some,
        PhaseView::AwaitReset => if v.understood {
            v.calls == seq![u, g, f] && v.intent is Some
        } else {
            v.calls == seq![u] && v.intent is None && v.slots == Map::<Seq<char>, Seq<char>>::empty()
        },
        PhaseView::AwaitStack(st, c) => st != PvStatus::SUCCESS && failed_prefix(v, c, v.calls),
        PhaseView::Failed(_) => v.calls.len() >= 2 && v.calls.last().0 == ExtractionCall::GetErrorStack
            && failed_prefix(v, v.calls[v.calls.len() - 2].0, v.calls.drop_last()),
        PhaseView::Succeeded => if v.understood {
            v.calls == seq![u, g, f, r] && v.intent is Some
        } else {
            v.calls == seq![u, r] && v.intent is None && v.slots == Map::<Seq<char>, Seq<char>>::empty()
        },
    }
}

proof fn lemma_step_keeps_inv(v: ExtractionView, r: ExtractionReply)
    requires
        extraction_inv(v),
    ensures
        extraction_inv(extraction_step(v, r)),
{
    let w = extraction_step(v, r);
    let u = (ExtractionCall::IsUnderstood, true);
    let g = (ExtractionCall::GetIntent, true);
    let f = (ExtractionCall::FreeSlotsAndValues, true);
    match (v.phase, r) {
        (PhaseView::AwaitUnderstood, ExtractionReply::Understood(st, b)) => {
            assert(w.calls =~= seq![(ExtractionCall::IsUnderstood, st == PvStatus::SUCCESS)]);
        },
        (PhaseView::AwaitIntent, ExtractionReply::Intent(st, _, _)) => {
            assert(w.calls =~= seq![u, (ExtractionCall::GetIntent, st == PvStatus::SUCCESS)]);
        },
        (PhaseView::AwaitFree, ExtractionReply::SlotsFreed(st)) => {
            assert(w.calls =~= seq![u, g, (ExtractionCall::FreeSlotsAndValues, st == PvStatus::SUCCESS)]);
        },
        (PhaseView::AwaitReset, ExtractionReply::EngineReset(st)) => {
            if v.understood {
                assert(w.calls =~= seq![u, g, f, (ExtractionCall::Reset, st == PvStatus::SUCCESS)]);
            } else {
                assert(w.calls =~= seq![u, (ExtractionCall::Reset, st == PvStatus::SUCCESS)]);
            }
        },
        (PhaseView::AwaitStack(st, c), ExtractionReply::ErrorStack(_)) => {
            assert(w.calls.drop_last() =~= v.calls);
            assert(w.calls[w.calls.len() - 2] == v.calls.last());
        },
        _ => {},
    }
}

/// Every session, whatever the native calls reply, takes one of the shapes
/// of `extraction_inv`.
pub proof fn lemma_extraction_run_inv(rs: Seq<ExtractionReply>)
    ensures
        extraction_inv(extraction_run(rs)),
    decreases rs.len(),
{
    if rs.len() > 0 {
        lemma_extraction_run_inv(rs.drop_last());
        lemma_step_keeps_inv(extraction_run(rs.drop_last()), rs.last());
    } else {
        assert(extraction_run(rs).calls =~= Seq::<(ExtractionCall, bool)>::empty());
    }
}

proof fn lemma_count_push(c: ExtractionCall, only_ok: bool)
    ensures
        count_calls(Seq::<(ExtractionCall, bool)>::empty(), c, only_ok) == 0,
        forall|s: Seq<(ExtractionCall, bool)>, a: (ExtractionCall, bool)| #[trigger] count_calls(s.push(a), c, only_ok)
            == count_calls(s, c, only_ok) + if a.0 == c && (a.1 || !only_ok) { 1nat } else { 0nat },
{
    assert forall|s: Seq<(ExtractionCall, bool)>, a: (ExtractionCall, bool)| #[trigger] count_calls(s.push(a), c, only_ok)
        == count_calls(s, c, only_ok) + if a.0 == c && (a.1 || !only_ok) { 1nat } else { 0nat } by {
        assert(s.push(a).drop_last() =~= s);
    }
}

/// Once a read-out has finished, whatever the native calls replied, the slot
/// buffers were freed exactly as often as they were successfully fetched,
/// and at most once.
pub proof fn lemma_extraction_frees_what_it_fetched(rs: Seq<ExtractionReply>)
    requires
        step_of(extraction_run(rs).phase) == ExtractionStep::Finished,
    ensures
        count_calls(extraction_run(rs).calls, ExtractionCall::FreeSlotsAndValues, false) == count_calls(
            extraction_run(rs).calls,
            ExtractionCall::GetIntent,
            true,
        ),
        count_calls(extraction_run(rs).calls, ExtractionCall::FreeSlotsAndValues, false) <= 1,
{
    let v = extraction_run(rs);
    lemma_extraction_run_inv(rs);
    lemma_count_push(ExtractionCall::FreeSlotsAndValues, false);
    lemma_count_push(ExtractionCall::GetIntent, true);
    let e = Seq::<(ExtractionCall, bool)>::empty();
    let u = (ExtractionCall::IsUnderstood, true);
    let g = (ExtractionCall::GetIntent, true);
    let f = (ExtractionCall::FreeSlotsAndValues, true);
    let r = (ExtractionCall::Reset, true);
    let (u0, g0, f0, r0) = (
        (ExtractionCall::IsUnderstood, false),
        (ExtractionCall::GetIntent, false),
        (ExtractionCall::FreeSlotsAndValues, false),
        (ExtractionCall::Reset, false),
    );
    assert(seq![u, g, f, r] =~= e.push(u).push(g).push(f).push(r));
    assert(seq![u, r] =~= e.push(u).push(r));
    assert(seq![u0] =~= e.push(u0));
    assert(seq![u, g0] =~= e.push(u).push(g0));
    assert(seq![u, g, f0] =~= e.push(u).push(g).push(f0));
    assert(seq![u, g, f, r0] =~= e.push(u).push(g).push(f).push(r0));
    assert(seq![u, r0] =~= e.push(u).push(r0));
    if v.phase is Failed {
        let p = v.calls.drop_last();
        assert(v.calls =~= p.push(v.calls.last()));
    }
}

/// A read-out that succeeds, whatever the native calls replied, ends with a
/// successful reset of the engine and resets it once; when the utterance was
/// not understood it has no intent and no slot, and when it was, it has an
/// intent.
pub proof fn lemma_extraction_success_resets(rs: Seq<ExtractionReply>)
    requires
        extraction_run(rs).phase is Succeeded,
    ensures
        extraction_run(rs).calls.last() == (ExtractionCall::Reset, true),
        count_calls(extraction_run(rs).calls, ExtractionCall::Reset, false) == 1,
        !extraction_run(rs).understood ==> extraction_run(rs).intent is None && extraction_run(rs).slots.len() == 0,
        extraction_run(rs).understood ==> extraction_run(rs).intent is Some,
{
    lemma_extraction_run_inv(rs);
    lemma_count_push(ExtractionCall::Reset, false);
    let e = Seq::<(ExtractionCall, bool)>::empty();
    let u = (ExtractionCall::IsUnderstood, true);
    let g = (ExtractionCall::GetIntent, true);
    let f = (ExtractionCall::FreeSlotsAndValues, true);
    let r = (ExtractionCall::Reset, true);
    assert(seq![u, g, f, r] =~= e.push(u).push(g).push(f).push(r));
    assert(seq![u, r] =~= e.push(u).push(r));
}

/// A session's intent, once it has one, and its slots came in a successful
/// intent reply among `rs`.
pub open spec fn intent_from_replies(v: ExtractionView, rs: Seq<ExtractionReply>) -> bool {
    v.intent is Some ==> exists|k: int| 0 <= k < rs.len() && (#[trigger] rs[k] matches ExtractionReply::Intent(
        st,
        intent,
        pairs,
    ) && st == PvStatus::SUCCESS && v.intent == Some(intent@) && v.slots == pairs_map(pair_views(pairs@)))
}

proof fn lemma_intent_from_replies(rs: Seq<ExtractionReply>)
    ensures
        intent_from_replies(extraction_run(rs), rs),
    decreases rs.len(),
{
    if rs.len() > 0 {
        let prev = rs.drop_last();
        lemma_intent_from_replies(prev);
        let v = extraction_run(prev);
        let w = extraction_run(rs);
        if w.intent is Some {
            if w.intent == v.intent && w.slots == v.slots {
                let k = choose|k: int| 0 <= k < prev.len() && (#[trigger] prev[k] matches ExtractionReply::Intent(
                    st,
                    intent,
                    pairs,
                ) && st == PvStatus::SUCCESS && v.intent == Some(intent@) && v.slots == pairs_map(
                    pair_views(pairs@),
                ));
                assert(rs[k] == prev[k]);
            } else {
                assert(rs[rs.len() - 1] == rs.last());
            }
        }
    }
}

/// A read-out that succeeds on an understood utterance, whatever the native
/// calls replied, holds the intent and exactly the slots of a successful
/// intent reply: the pairs inserted in order, so one slot per pair when the
/// slot names are distinct.
pub proof fn lemma_understood_inference_copies_the_reply(rs: Seq<ExtractionReply>)
    requires
        extraction_run(rs).phase is Succeeded,
        extraction_run(rs).understood,
    ensures
        exists|k: int| 0 <= k < rs.len() && (#[trigger] rs[k] matches ExtractionReply::Intent(
            st,
            intent,
            pairs,
        ) && {
            &&& st == PvStatus::SUCCESS
            &&& extraction_run(rs).intent == Some(intent@)
            &&& extraction_run(rs).slots == pairs_map(pair_views(pairs@))
            &&& distinct_names(pair_views(pairs@)) ==> extraction_run(rs).slots.len() == pairs@.len()
        }),
{
    lemma_extraction_success_resets(rs);
    lemma_intent_from_replies(rs);
    let v = extraction_run(rs);
    let k = choose|k: int| 0 <= k < rs.len() && (#[trigger] rs[k] matches ExtractionReply::Intent(
        st,
        intent,
        pairs,
    ) && st == PvStatus::SUCCESS && v.intent == Some(intent@) && v.slots == pairs_map(pair_views(pairs@)));
    if let ExtractionReply::Intent(_, _, pairs) = rs[k] {
        if distinct_names(pair_views(pairs@)) {
            lemma_distinct_pairs_map(pair_views(pairs@));
        }
    }
}

} // verus!
