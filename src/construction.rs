//! Building an engine.
//!
//! The host drives a [`Construction`]: it asks for the next step, performs
//! it (opening the library, resolving one symbol, calling the native
//! constructor, reading a property, deleting the native object) and hands
//! the outcome back. The session refuses a bad configuration before any
//! native work, resolves every symbol before the engine is created, and
//! deletes a created engine again when a later step fails.

use vstd::prelude::*;

use crate::config::{config_problem, ConfigView, RhinoBuilder};
use crate::engine::{symbol_at, symbol_name, EngineInfo, EngineInfoView, NativeSymbol, SYMBOL_COUNT};
use crate::error::{
    call_failed, call_failure, library_load_failed, stack_views, symbol_missing, ErrorView, RhinoError,
    RhinoErrorStatus,
};
use crate::status::PvStatus;

verus! {

/// The name under which this binding announces itself to the engine.
pub const SDK_NAME: &'static str = "rust";

/// The native work done while an engine is built.
#[derive(Clone, Copy, Debug, PartialEq, Eq, Structural)]
pub enum InitCall {
    OpenLibrary,
    Resolve(NativeSymbol),
    SetSdk,
    Create,
    GetErrorStack,
    Version,
    ContextInfo,
    SampleRate,
    FrameLength,
    Delete,
}

/// The next thing the host is to do.
#[derive(Clone, Copy, Debug, PartialEq, Eq, Structural)]
pub enum InitStep {
    /// Open the shared library at the configured path.
    LoadLibrary,
    /// Look up this symbol in the library.
    ResolveSymbol(NativeSymbol),
    /// Announce the binding by `SDK_NAME`.
    SetSdk,
    /// Call the native constructor with the configuration of the session.
    CreateEngine,
    /// Fetch, copy and free the native message stack.
    FetchErrorStack,
    ReadVersion,
    ReadContextInfo,
    ReadSampleRate,
    ReadFrameLength,
    /// Delete the native object that the constructor made.
    DeleteEngine,
    /// Nothing: the session has its outcome.
    Finished,
}

/// The outcome of a step.
pub enum InitReply {
    /// The library was opened, or what the loader reported.
    LibraryOpened(Result<(), String>),
    /// The symbol was found, or what the loader reported.
    SymbolResolved(Result<(), String>),
    SdkSet,
    EngineCreated(PvStatus),
    /// The message stack, or the status with which fetching it failed.
    ErrorStack(Result<Vec<String>, PvStatus>),
    Version(String),
    ContextInfo(PvStatus, String),
    SampleRate(i32),
    FrameLength(i32),
    EngineDeleted,
}

/// Where a session stands.
pub enum InitPhase {
    AwaitLibrary,
    AwaitSymbol(usize),
    AwaitSdk,
    AwaitCreate,
    /// The native function `NativeSymbol` failed with this status; its
    /// messages are wanted.
    AwaitStack(PvStatus, NativeSymbol),
    AwaitVersion,
    AwaitContextInfo,
    AwaitSampleRate,
    AwaitFrameLength,
    AwaitDelete(RhinoError),
    Failed(RhinoError),
    Succeeded(EngineInfo),
}

/// Where a session stands, as plain values.
pub enum InitPhaseView {
    AwaitLibrary,
    AwaitSymbol(nat),
    AwaitSdk,
    AwaitCreate,
    AwaitStack(PvStatus, NativeSymbol),
    AwaitVersion,
    AwaitContextInfo,
    AwaitSampleRate,
    AwaitFrameLength,
    AwaitDelete(ErrorView),
    Failed(ErrorView),
    Succeeded(EngineInfoView),
}

/// A session, as plain values. `calls` lists the native work done so far,
/// each with whether it succeeded.
pub struct ConstructionView {
    pub phase: InitPhaseView,
    pub config: ConfigView,
    pub version: Seq<char>,
    pub context_info: Seq<char>,
    pub sample_rate: i32,
    pub calls: Seq<(InitCall, bool)>,
}

/// A session that builds one engine.
pub struct Construction {
    phase: InitPhase,
    config: RhinoBuilder,
    version: String,
    context_info: String,
    sample_rate: i32,
    calls: Ghost<Seq<(InitCall, bool)>>,
}

/// A phase as plain values.
pub open spec fn init_phase_view(p: InitPhase) -> InitPhaseView {
    match p {
        InitPhase::AwaitLibrary => InitPhaseView::AwaitLibrary,
        InitPhase::AwaitSymbol(i) => InitPhaseView::AwaitSymbol(i as nat),
        InitPhase::AwaitSdk => InitPhaseView::AwaitSdk,
        InitPhase::AwaitCreate => InitPhaseView::AwaitCreate,
        InitPhase::AwaitStack(st, s) => InitPhaseView::AwaitStack(st, s),
        InitPhase::AwaitVersion => InitPhaseView::AwaitVersion,
        InitPhase::AwaitContextInfo => InitPhaseView::AwaitContextInfo,
        InitPhase::AwaitSampleRate => InitPhaseView::AwaitSampleRate,
        InitPhase::AwaitFrameLength => InitPhaseView::AwaitFrameLength,
        InitPhase::AwaitDelete(e) => InitPhaseView::AwaitDelete(e@),
        InitPhase::Failed(e) => InitPhaseView::Failed(e@),
        InitPhase::Succeeded(info) => InitPhaseView::Succeeded(info@),
    }
}

impl View for Construction {
    type V = ConstructionView;

    closed spec fn view(&self) -> ConstructionView {
        ConstructionView {
            phase: init_phase_view(self.phase),
            config: self.config@,
            version: self.version@,
            context_info: self.context_info@,
            sample_rate: self.sample_rate,
            calls: self.calls@,
        }
    }
}

/// Whether a native object exists after the native function `s` failed:
/// only the constructor's own failure leaves none.
pub open spec fn engine_exists_after(s: NativeSymbol) -> bool {
    s != NativeSymbol::Init
}

/// The session for a configuration, given whether its library, model and
/// context files exist: refused at once with an argument error and no native
/// work when the configuration has a problem; else waiting to open the
/// library.
pub open spec fn construction_start(
    c: ConfigView,
    library_exists: bool,
    model_exists: bool,
    context_exists: bool,
) -> ConstructionView {
    ConstructionView {
        phase: match config_problem(c, library_exists, model_exists, context_exists) {
            Some(m) => InitPhaseView::Failed(
                ErrorView { status: RhinoErrorStatus::ArgumentError, message: m, message_stack: Seq::empty() },
            ),
            None => InitPhaseView::AwaitLibrary,
        },
        config: c,
        version: Seq::empty(),
        context_info: Seq::empty(),
        sample_rate: 0,
        calls: Seq::empty(),
    }
}

/// `v` after the call `c` that succeeded or not, moving to `next`.
pub open spec fn record(v: ConstructionView, c: InitCall, ok: bool, next: InitPhaseView) -> ConstructionView {
    ConstructionView { phase: next, calls: v.calls.push((c, ok)), ..v }
}

/// `v` after the call `c` of the native function `s` with status `st`: on
/// success the phase `next`, on failure waiting for the message stack.
pub open spec fn after_status(
    v: ConstructionView,
    c: InitCall,
    s: NativeSymbol,
    st: PvStatus,
    next: InitPhaseView,
) -> ConstructionView {
    if st == PvStatus::SUCCESS {
        record(v, c, true, next)
    } else {
        record(v, c, false, InitPhaseView::AwaitStack(st, s))
    }
}

/// How a session moves on a reply. A reply that does not answer the step
/// the session asked for leaves it as it is.
pub open spec fn construction_step(v: ConstructionView, r: InitReply) -> ConstructionView {
    match (v.phase, r) {
        (InitPhaseView::AwaitLibrary, InitReply::LibraryOpened(res)) => match res {
            Ok(_) => record(v, InitCall::OpenLibrary, true, InitPhaseView::AwaitSymbol(0)),
            Err(d) => record(
                v,
                InitCall::OpenLibrary,
                false,
                InitPhaseView::Failed(
                    ErrorView {
                        status: RhinoErrorStatus::LibraryLoadError,
                        message: "Failed to load rhino dynamic library: "@ + d@,
                        message_stack: Seq::empty(),
                    },
                ),
            ),
        },
        (InitPhaseView::AwaitSymbol(i), InitReply::SymbolResolved(res)) => {
            let s = symbol_at(i as int);
            match res {
                Ok(_) => record(
                    v,
                    InitCall::Resolve(s),
                    true,
                    if i + 1 < SYMBOL_COUNT {
                        InitPhaseView::AwaitSymbol(i + 1)
                    } else {
                        InitPhaseView::AwaitSdk
                    },
                ),
                Err(d) => record(
                    v,
                    InitCall::Resolve(s),
                    false,
                    InitPhaseView::Failed(
                        ErrorView {
                            status: RhinoErrorStatus::LibraryLoadError,
                            message: "Failed to load function symbol '"@ + symbol_name(s)
                                + "' from rhino library: "@ + d@,
                            message_stack: Seq::empty(),
                        },
                    ),
                ),
            }
        },
        (InitPhaseView::AwaitSdk, InitReply::SdkSet) => record(v, InitCall::SetSdk, true, InitPhaseView::AwaitCreate),
        (InitPhaseView::AwaitCreate, InitReply::EngineCreated(st)) => after_status(
            v,
            InitCall::Create,
            NativeSymbol::Init,
            st,
            InitPhaseView::AwaitVersion,
        ),
        (InitPhaseView::AwaitStack(st, s), InitReply::ErrorStack(stack)) => {
            let e = call_failure(st, symbol_name(s), stack_views(stack));
            record(
                v,
                InitCall::GetErrorStack,
                stack is Ok,
                if engine_exists_after(s) {
                    InitPhaseView::AwaitDelete(e)
                } else {
                    InitPhaseView::Failed(e)
                },
            )
        },
        (InitPhaseView::AwaitVersion, InitReply::Version(s)) => record(
            ConstructionView { version: s@, ..v },
            InitCall::Version,
            true,
            InitPhaseView::AwaitContextInfo,
        ),
        (InitPhaseView::AwaitContextInfo, InitReply::ContextInfo(st, s)) => after_status(
            if st == PvStatus::SUCCESS {
                ConstructionView { context_info: s@, ..v }
            } else {
                v
            },
            InitCall::ContextInfo,
            NativeSymbol::ContextInfo,
            st,
            InitPhaseView::AwaitSampleRate,
        ),
        (InitPhaseView::AwaitSampleRate, InitReply::SampleRate(n)) => record(
            ConstructionView { sample_rate: n, ..v },
            InitCall::SampleRate,
            true,
            InitPhaseView::AwaitFrameLength,
        ),
        (InitPhaseView::AwaitFrameLength, InitReply::FrameLength(n)) => record(
            v,
            InitCall::FrameLength,
            true,
            InitPhaseView::Succeeded(
                EngineInfoView {
                    sample_rate: v.sample_rate,
                    frame_length: n,
                    version: v.version,
                    context_info: v.context_info,
                },
            ),
        ),
        (InitPhaseView::AwaitDelete(e), InitReply::EngineDeleted) => record(
            v,
            InitCall::Delete,
            true,
            InitPhaseView::Failed(e),
        ),
        _ => v,
    }
}

/// The session after the replies `rs`, in order, from `start`.
pub open spec fn construction_run(start: ConstructionView, rs: Seq<InitReply>) -> ConstructionView
    decreases rs.len(),
{
    if rs.len() == 0 {
        start
    } else {
        construction_step(construction_run(start, rs.drop_last()), rs.last())
    }
}

/// The step a session asks for.
pub open spec fn init_step_of(p: InitPhaseView) -> InitStep {
    match p {
        InitPhaseView::AwaitLibrary => InitStep::LoadLibrary,
        InitPhaseView::AwaitSymbol(i) => InitStep::ResolveSymbol(symbol_at(i as int)),
        InitPhaseView::AwaitSdk => InitStep::SetSdk,
        InitPhaseView::AwaitCreate => InitStep::CreateEngine,
        InitPhaseView::AwaitStack(_, _) => InitStep::FetchErrorStack,
        InitPhaseView::AwaitVersion => InitStep::ReadVersion,
        InitPhaseView::AwaitContextInfo => InitStep::ReadContextInfo,
        InitPhaseView::AwaitSampleRate => InitStep::ReadSampleRate,
        InitPhaseView::AwaitFrameLength => InitStep::ReadFrameLength,
        InitPhaseView::AwaitDelete(_) => InitStep::DeleteEngine,
        _ => InitStep::Finished,
    }
}

impl Construction {
    /// A session for `config`, given whether its library, model and context
    /// files exist.
    pub fn new(config: RhinoBuilder, library_exists: bool, model_exists: bool, context_exists: bool) -> (r: Self)
        ensures
            r@ == construction_start(config@, library_exists, model_exists, context_exists),
    {
        let phase = match config.validate(library_exists, model_exists, context_exists) {
            Ok(()) => InitPhase::AwaitLibrary,
            Err(e) => {
                assert(crate::error::views(e.message_stack@) =~= Seq::<Seq<char>>::empty());
                InitPhase::Failed(e)
            },
        };
        Construction {
            phase,
            config,
            version: String::new(),
            context_info: String::new(),
            sample_rate: 0,
            calls: Ghost(Seq::empty()),
        }
    }

    /// The configuration the engine is built with.
    pub fn config(&self) -> (r: &RhinoBuilder)
        ensures
            r@ == self@.config,
    {
        &self.config
    }

    /// What the host is to do next.
    pub fn next_step(&self) -> (r: InitStep)
        ensures
            r == init_step_of(self@.phase),
    {
        match &self.phase {
            InitPhase::AwaitLibrary => InitStep::LoadLibrary,
            InitPhase::AwaitSymbol(i) => {
                if *i < SYMBOL_COUNT {
                    InitStep::ResolveSymbol(NativeSymbol::at(*i))
                } else {
                    InitStep::ResolveSymbol(NativeSymbol::SetSdk)
                }
            },
            InitPhase::AwaitSdk => InitStep::SetSdk,
            InitPhase::AwaitCreate => InitStep::CreateEngine,
            InitPhase::AwaitStack(_, _) => InitStep::FetchErrorStack,
            InitPhase::AwaitVersion => InitStep::ReadVersion,
            InitPhase::AwaitContextInfo => InitStep::ReadContextInfo,
            InitPhase::AwaitSampleRate => InitStep::ReadSampleRate,
            InitPhase::AwaitFrameLength => InitStep::ReadFrameLength,
            InitPhase::AwaitDelete(_) => InitStep::DeleteEngine,
            _ => InitStep::Finished,
        }
    }

    fn record(&mut self, c: InitCall, ok: bool, next: InitPhase)
        ensures
            final(self)@ == record(old(self)@, c, ok, init_phase_view(next)),
    {
        self.phase = next;
        self.calls = Ghost(self.calls@.push((c, ok)));
    }

    fn after_status(&mut self, c: InitCall, s: NativeSymbol, st: PvStatus, next: InitPhase)
        ensures
            final(self)@ == after_status(old(self)@, c, s, st, init_phase_view(next)),
    {
        if st.is_success() {
            self.record(c, true, next);
        } else {
            self.record(c, false, InitPhase::AwaitStack(st, s));
        }
    }

    /// Takes the outcome of the step that the session asked for.
    pub fn handle(&mut self, reply: InitReply)
        ensures
            final(self)@ == construction_step(old(self)@, reply),
    {
        match (&self.phase, reply) {
            (InitPhase::AwaitLibrary, InitReply::LibraryOpened(res)) => match res {
                Ok(()) => self.record(InitCall::OpenLibrary, true, InitPhase::AwaitSymbol(0)),
                Err(d) => {
                    let e = library_load_failed(d.as_str());
                    self.record(InitCall::OpenLibrary, false, InitPhase::Failed(e));
                },
            },
            (InitPhase::AwaitSymbol(i), InitReply::SymbolResolved(res)) => {
                let i = *i;
                let s = if i < SYMBOL_COUNT { NativeSymbol::at(i) } else { NativeSymbol::SetSdk };
                assert(s == symbol_at(i as int));
                match res {
                    Ok(()) => {
                        let next = if i < SYMBOL_COUNT - 1 {
                            InitPhase::AwaitSymbol(i + 1)
                        } else {
                            InitPhase::AwaitSdk
                        };
                        self.record(InitCall::Resolve(s), true, next);
                    },
                    Err(d) => {
                        let e = symbol_missing(s.name(), d.as_str());
                        self.record(InitCall::Resolve(s), false, InitPhase::Failed(e));
                    },
                }
            },
            (InitPhase::AwaitSdk, InitReply::SdkSet) => {
                self.record(InitCall::SetSdk, true, InitPhase::AwaitCreate);
            },
            (InitPhase::AwaitCreate, InitReply::EngineCreated(st)) => {
                self.after_status(InitCall::Create, NativeSymbol::Init, st, InitPhase::AwaitVersion);
            },
            (InitPhase::AwaitStack(st, s), InitReply::ErrorStack(stack)) => {
                let (st, s) = (*st, *s);
                let fetched = stack.is_ok();
                let e = call_failed(st, s.name(), stack);
                let next = if s != NativeSymbol::Init {
                    InitPhase::AwaitDelete(e)
                } else {
                    InitPhase::Failed(e)
                };
                self.record(InitCall::GetErrorStack, fetched, next);
            },
            (InitPhase::AwaitVersion, InitReply::Version(s)) => {
                self.version = s;
                self.record(InitCall::Version, true, InitPhase::AwaitContextInfo);
            },
            (InitPhase::AwaitContextInfo, InitReply::ContextInfo(st, s)) => {
                if st.is_success() {
                    self.context_info = s;
                }
                self.after_status(InitCall::ContextInfo, NativeSymbol::ContextInfo, st, InitPhase::AwaitSampleRate);
            },
            (InitPhase::AwaitSampleRate, InitReply::SampleRate(n)) => {
                self.sample_rate = n;
                self.record(InitCall::SampleRate, true, InitPhase::AwaitFrameLength);
            },
            (InitPhase::AwaitFrameLength, InitReply::FrameLength(n)) => {
                let info = EngineInfo::new(self.sample_rate, n, self.version.clone(), self.context_info.clone());
                self.record(InitCall::FrameLength, true, InitPhase::Succeeded(info));
            },
            (InitPhase::AwaitDelete(_), InitReply::EngineDeleted) => {
                let mut phase = InitPhase::AwaitLibrary;
                std::mem::swap(&mut self.phase, &mut phase);
                if let InitPhase::AwaitDelete(e) = phase {
                    self.record(InitCall::Delete, true, InitPhase::Failed(e));
                }
            },
            _ => {},
        }
    }

    /// The outcome, once the session has finished; `None` before.
    pub fn finish(self) -> (r: Option<Result<EngineInfo, RhinoError>>)
        ensures
            r is None <==> init_step_of(self@.phase) != InitStep::Finished,
            r matches Some(Ok(info)) ==> self@.phase == InitPhaseView::Succeeded(info@),
            r matches Some(Err(e)) ==> self@.phase == InitPhaseView::Failed(e@),
    {
        match self.phase {
            InitPhase::Succeeded(info) => Some(Ok(info)),
            InitPhase::Failed(e) => Some(Err(e)),
            _ => None,
        }
    }
}

// ---------------------------------------------------------------------------
// Laws

/// The library opened and the first `i` symbols resolved.
pub open spec fn resolved_prefix(i: nat) -> Seq<(InitCall, bool)> {
    seq![(InitCall::OpenLibrary, true)] + Seq::new(i, |j: int| (InitCall::Resolve(symbol_at(j)), true))
}

/// Everything done before the native constructor is called: the library
/// opened, every symbol resolved in order, the binding announced.
pub open spec fn prepared() -> Seq<(InitCall, bool)> {
    resolved_prefix(SYMBOL_COUNT as nat).push((InitCall::SetSdk, true))
}

/// The native work done once the engine is created and its properties are
/// read, the first `k` items of it.
pub open spec fn reading(k: int) -> Seq<(InitCall, bool)> {
    seq![
        (InitCall::Create, true),
        (InitCall::Version, true),
        (InitCall::ContextInfo, true),
        (InitCall::SampleRate, true),
        (InitCall::FrameLength, true),
    ].take(k)
}

/// The native work of a session that failed.
pub open spec fn failed_shape(calls: Seq<(InitCall, bool)>) -> bool {
    ||| calls.len() == 0
    ||| calls == seq![(InitCall::OpenLibrary, false)]
    ||| exists|i: nat| i < SYMBOL_COUNT && calls == #[trigger] resolved_prefix(i).push(
        (InitCall::Resolve(symbol_at(i as int)), false),
    )
    ||| (calls.len() == prepared().len() + 2 && calls.drop_last() == prepared().push((InitCall::Create, false))
        && calls.last().0 == InitCall::GetErrorStack)
    ||| (calls.len() == prepared().len() + 5 && calls.drop_last().drop_last() == prepared() + reading(2).push(
        (InitCall::ContextInfo, false),
    ) && calls[calls.len() - 2].0 == InitCall::GetErrorStack && calls.last() == (InitCall::Delete, true))
}

/// The shapes a session can take: in each phase, the native work done so
/// far.
pub open spec fn construction_inv(v: ConstructionView) -> bool {
    match v.phase {
        InitPhaseView::AwaitLibrary => v.calls.len() == 0,
        InitPhaseView::AwaitSymbol(i) => i < SYMBOL_COUNT && v.calls == resolved_prefix(i),
        InitPhaseView::AwaitSdk => v.calls == resolved_prefix(SYMBOL_COUNT as nat),
        InitPhaseView::AwaitCreate => v.calls == prepared(),
        InitPhaseView::AwaitStack(st, s) => {
            ||| (s == NativeSymbol::Init && v.calls == prepared().push((InitCall::Create, false)))
            ||| (s == NativeSymbol::ContextInfo && v.calls == prepared() + reading(2).push(
                (InitCall::ContextInfo, false),
            ))
        },
        InitPhaseView::AwaitVersion => v.calls == prepared() + reading(1),
        InitPhaseView::AwaitContextInfo => v.calls == prepared() + reading(2),
        InitPhaseView::AwaitSampleRate => v.calls == prepared() + reading(3),
        InitPhaseView::AwaitFrameLength => v.calls == prepared() + reading(4),
        InitPhaseView::Succeeded(_) => v.calls == prepared() + reading(5),
        InitPhaseView::AwaitDelete(_) => v.calls.len() == prepared().len() + 4 && v.calls.drop_last() == prepared()
            + reading(2).push((InitCall::ContextInfo, false)) && v.calls.last().0 == InitCall::GetErrorStack,
        InitPhaseView::Failed(_) => failed_shape(v.calls),
    }
}

proof fn lemma_construction_step_keeps_inv(v: ConstructionView, r: InitReply)
    requires
        construction_inv(v),
    ensures
        construction_inv(construction_step(v, r)),
{
    let w = construction_step(v, r);
    match (v.phase, r) {
        (InitPhaseView::AwaitLibrary, InitReply::LibraryOpened(res)) => {
            if res is Ok {
                assert(w.calls =~= resolved_prefix(0));
            } else {
                assert(w.calls =~= seq![(InitCall::OpenLibrary, false)]);
            }
        },
        (InitPhaseView::AwaitSymbol(i), InitReply::SymbolResolved(res)) => {
            if res is Ok {
                assert(w.calls =~= resolved_prefix(i + 1));
            } else {
                assert(w.calls == resolved_prefix(i).push((InitCall::Resolve(symbol_at(i as int)), false)));
            }
        },
        (InitPhaseView::AwaitCreate, InitReply::EngineCreated(st)) => {
            if st == PvStatus::SUCCESS {
                assert(w.calls =~= prepared() + reading(1));
            }
        },
        (InitPhaseView::AwaitStack(_, _), InitReply::ErrorStack(_)) => {
            assert(w.calls.drop_last() =~= v.calls);
        },
        (InitPhaseView::AwaitVersion, InitReply::Version(_)) => {
            assert(w.calls =~= prepared() + reading(2));
        },
        (InitPhaseView::AwaitContextInfo, InitReply::ContextInfo(st, _)) => {
            if st == PvStatus::SUCCESS {
                assert(w.calls =~= prepared() + reading(3));
            } else {
                assert(w.calls =~= prepared() + reading(2).push((InitCall::ContextInfo, false)));
            }
        },
        (InitPhaseView::AwaitSampleRate, InitReply::SampleRate(_)) => {
            assert(w.calls =~= prepared() + reading(4));
        },
        (InitPhaseView::AwaitFrameLength, InitReply::FrameLength(_)) => {
            assert(w.calls =~= prepared() + reading(5));
        },
        (InitPhaseView::AwaitDelete(_), InitReply::EngineDeleted) => {
            assert(w.calls.drop_last() =~= v.calls);
            assert(w.calls.drop_last().drop_last() =~= v.calls.drop_last());
        },
        _ => {},
    }
}

/// Every session, whatever the configuration and whatever the native work
/// reports, takes one of the shapes of `construction_inv`.
pub proof fn lemma_construction_run_inv(
    c: ConfigView,
    library_exists: bool,
    model_exists: bool,
    context_exists: bool,
    rs: Seq<InitReply>,
)
    ensures
        construction_inv(construction_run(construction_start(c, library_exists, model_exists, context_exists), rs)),
    decreases rs.len(),
{
    let start = construction_start(c, library_exists, model_exists, context_exists);
    if rs.len() > 0 {
        lemma_construction_run_inv(c, library_exists, model_exists, context_exists, rs.drop_last());
        lemma_construction_step_keeps_inv(construction_run(start, rs.drop_last()), rs.last());
    }
}

/// A configuration with a problem is refused with an argument error before
/// any native work, whatever replies follow: no library is opened.
pub proof fn lemma_refused_config_does_no_native_work(
    c: ConfigView,
    library_exists: bool,
    model_exists: bool,
    context_exists: bool,
    rs: Seq<InitReply>,
)
    requires
        config_problem(c, library_exists, model_exists, context_exists) is Some,
    ensures
        construction_run(construction_start(c, library_exists, model_exists, context_exists), rs).calls.len() == 0,
        construction_run(construction_start(c, library_exists, model_exists, context_exists), rs).phase matches
            InitPhaseView::Failed(e) && e.status == RhinoErrorStatus::ArgumentError,
    decreases rs.len(),
{
    if rs.len() > 0 {
        lemma_refused_config_does_no_native_work(c, library_exists, model_exists, context_exists, rs.drop_last());
    }
}

/// Whenever a session asks to resolve a symbol, the library is open and the
/// symbols before it in the fixed order have all been resolved; whenever it
/// asks to create the engine, every symbol has been resolved and the binding
/// announced.
pub proof fn lemma_engine_created_after_every_symbol(
    c: ConfigView,
    library_exists: bool,
    model_exists: bool,
    context_exists: bool,
    rs: Seq<InitReply>,
)
    ensures
        ({
            let v = construction_run(construction_start(c, library_exists, model_exists, context_exists), rs);
            &&& v.phase matches InitPhaseView::AwaitSymbol(i) ==> init_step_of(v.phase) == InitStep::ResolveSymbol(
                symbol_at(i as int),
            ) && v.calls == resolved_prefix(i)
            &&& init_step_of(v.phase) == InitStep::CreateEngine ==> v.calls == prepared()
        }),
{
    lemma_construction_run_inv(c, library_exists, model_exists, context_exists, rs);
}

/// The number of times `c` occurs in `calls`; only successful ones where
/// `only_ok` is set.
pub open spec fn count_init_calls(calls: Seq<(InitCall, bool)>, c: InitCall, only_ok: bool) -> nat
    decreases calls.len(),
{
    if calls.len() == 0 {
        0
    } else {
        count_init_calls(calls.drop_last(), c, only_ok) + if calls.last().0 == c && (calls.last().1 || !only_ok) {
            1nat
        } else {
            0nat
        }
    }
}

proof fn lemma_count_init_push(c: InitCall, only_ok: bool)
    ensures
        count_init_calls(Seq::<(InitCall, bool)>::empty(), c, only_ok) == 0,
        forall|s: Seq<(InitCall, bool)>, a: (InitCall, bool)| #[trigger] count_init_calls(s.push(a), c, only_ok)
            == count_init_calls(s, c, only_ok) + if a.0 == c && (a.1 || !only_ok) { 1nat } else { 0nat },
{
    assert forall|s: Seq<(InitCall, bool)>, a: (InitCall, bool)| #[trigger] count_init_calls(s.push(a), c, only_ok)
        == count_init_calls(s, c, only_ok) + if a.0 == c && (a.1 || !only_ok) { 1nat } else { 0nat } by {
        assert(s.push(a).drop_last() =~= s);
    }
}

proof fn lemma_prefix_has_no_engine_work(i: nat, c: InitCall, only_ok: bool)
    requires
        c == InitCall::Create || c == InitCall::Delete,
    ensures
        count_init_calls(resolved_prefix(i), c, only_ok) == 0,
    decreases i,
{
    lemma_count_init_push(c, only_ok);
    if i == 0 {
        assert(resolved_prefix(0) =~= Seq::<(InitCall, bool)>::empty().push((InitCall::OpenLibrary, true)));
    } else {
        lemma_prefix_has_no_engine_work((i - 1) as nat, c, only_ok);
        assert(resolved_prefix(i) =~= resolved_prefix((i - 1) as nat).push(
            (InitCall::Resolve(symbol_at(i - 1)), true),
        ));
    }
}

/// Once a session has finished, whatever the configuration and whatever the
/// native work reports, the native object was created at most once, and it
/// was deleted again exactly when the session failed: a failed construction
/// leaves no native object behind, a successful one leaves one.
pub proof fn lemma_failed_construction_deletes_engine(
    c: ConfigView,
    library_exists: bool,
    model_exists: bool,
    context_exists: bool,
    rs: Seq<InitReply>,
)
    requires
        init_step_of(
            construction_run(construction_start(c, library_exists, model_exists, context_exists), rs).phase,
        ) == InitStep::Finished,
    ensures
        ({
            let v = construction_run(construction_start(c, library_exists, model_exists, context_exists), rs);
            let created = count_init_calls(v.calls, InitCall::Create, true);
            let deleted = count_init_calls(v.calls, InitCall::Delete, false);
            &&& created <= 1
            &&& v.phase is Succeeded ==> created == 1 && deleted == 0
            &&& v.phase is Failed ==> created == deleted
        }),
{
    let v = construction_run(construction_start(c, library_exists, model_exists, context_exists), rs);
    lemma_construction_run_inv(c, library_exists, model_exists, context_exists, rs);
    lemma_count_init_push(InitCall::Create, true);
    lemma_count_init_push(InitCall::Delete, false);
    let n = SYMBOL_COUNT as nat;
    lemma_prefix_has_no_engine_work(n, InitCall::Create, true);
    lemma_prefix_has_no_engine_work(n, InitCall::Delete, false);
    let p = prepared();
    let cr = (InitCall::Create, true);
    let ve = (InitCall::Version, true);
    let ci = (InitCall::ContextInfo, true);
    let sr = (InitCall::SampleRate, true);
    let fl = (InitCall::FrameLength, true);
    assert(p + reading(5) =~= p.push(cr).push(ve).push(ci).push(sr).push(fl));
    if v.phase is Failed {
        let calls = v.calls;
        if calls.len() == 0 {
        } else if calls == seq![(InitCall::OpenLibrary, false)] {
            assert(calls =~= Seq::<(InitCall, bool)>::empty().push((InitCall::OpenLibrary, false)));
        } else if exists|i: nat| i < SYMBOL_COUNT && calls == #[trigger] resolved_prefix(i).push(
            (InitCall::Resolve(symbol_at(i as int)), false),
        ) {
            let i = choose|i: nat| i < SYMBOL_COUNT && calls == #[trigger] resolved_prefix(i).push(
                (InitCall::Resolve(symbol_at(i as int)), false),
            );
            lemma_prefix_has_no_engine_work(i, InitCall::Create, true);
            lemma_prefix_has_no_engine_work(i, InitCall::Delete, false);
        } else if calls.len() == p.len() + 2 {
            assert(calls =~= calls.drop_last().push(calls.last()));
        } else {
            let d = calls.drop_last();
            assert(calls =~= d.push(calls.last()));
            assert(d =~= d.drop_last().push(d.last()));
            assert(d.drop_last() =~= p.push(cr).push(ve).push((InitCall::ContextInfo, false)));
        }
    }
}

/// What a session has read of the engine's properties so far agrees with
/// the replies: the sample rate it holds came in a reply once it has moved
/// past reading it, and a built engine's frame length came in a later one.
pub open spec fn reported_by(v: ConstructionView, rs: Seq<InitReply>) -> bool {
    &&& (v.phase is AwaitFrameLength || v.phase is Succeeded) ==> exists|j: int|
        0 <= j < rs.len() && rs[j] == InitReply::SampleRate(v.sample_rate)
    &&& v.phase matches InitPhaseView::Succeeded(info) ==> {
        &&& info.sample_rate == v.sample_rate
        &&& exists|k: int| 0 <= k < rs.len() && rs[k] == InitReply::FrameLength(info.frame_length)
    }
}

proof fn lemma_reported_by_run(start: ConstructionView, rs: Seq<InitReply>)
    requires
        !(start.phase is AwaitFrameLength || start.phase is Succeeded),
    ensures
        reported_by(construction_run(start, rs), rs),
    decreases rs.len(),
{
    if rs.len() > 0 {
        let prev = rs.drop_last();
        lemma_reported_by_run(start, prev);
        let v = construction_run(start, prev);
        let w = construction_run(start, rs);
        let last = rs.len() - 1;
        if v.phase is AwaitFrameLength || v.phase is Succeeded {
            let j = choose|j: int| 0 <= j < prev.len() && prev[j] == InitReply::SampleRate(v.sample_rate);
            assert(rs[j] == prev[j]);
        }
        if let InitPhaseView::Succeeded(info) = v.phase {
            let k = choose|k: int| 0 <= k < prev.len() && prev[k] == InitReply::FrameLength(info.frame_length);
            assert(rs[k] == prev[k]);
        }
        if v.phase is AwaitSampleRate {
            if w.phase is AwaitFrameLength {
                assert(rs[last] == InitReply::SampleRate(w.sample_rate));
            }
        }
        if v.phase is AwaitFrameLength {
            if let InitPhaseView::Succeeded(info) = w.phase {
                assert(rs[last] == InitReply::FrameLength(info.frame_length));
            }
        }
    }
}

/// A built engine's frame length and sample rate are values that the native
/// library reported while it was built, whatever else it replied.
pub proof fn lemma_engine_reports_native_values(
    c: ConfigView,
    library_exists: bool,
    model_exists: bool,
    context_exists: bool,
    rs: Seq<InitReply>,
)
    ensures
        construction_run(construction_start(c, library_exists, model_exists, context_exists), rs).phase matches
            InitPhaseView::Succeeded(info) ==> {
            &&& exists|j: int| 0 <= j < rs.len() && rs[j] == InitReply::SampleRate(info.sample_rate)
            &&& exists|k: int| 0 <= k < rs.len() && rs[k] == InitReply::FrameLength(info.frame_length)
        },
{
    lemma_reported_by_run(construction_start(c, library_exists, model_exists, context_exists), rs);
}

} // verus!
