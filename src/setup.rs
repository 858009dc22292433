use vstd::prelude::*;

use crate::error::FDPError;
use crate::symbol::{symbol_count, Symbol};

verus! {

/// Where the construction of a session stands.
#[derive(Clone, Copy, Debug, PartialEq, Eq, Structural)]
pub enum Phase {
    /// The native library is to be loaded.
    LoadLibrary,
    /// This entry point is to be resolved; the library is loaded.
    Resolve(Symbol),
    /// A session handle is to be opened for the machine's name.
    OpenSession,
    /// The open handle is to be initialised.
    InitSession,
    /// The loaded library is to be released before the error is reported.
    Release(FDPError),
    /// The session is ready for use.
    Ready,
    /// Construction failed and everything acquired has been released.
    Failed(FDPError),
}

/// The native work that the driver of a construction performs next.
#[derive(Clone, Copy, Debug, PartialEq, Eq, Structural)]
pub enum Action {
    LoadLibrary,
    Resolve(Symbol),
    OpenSession,
    InitSession,
    Unload,
    Finish,
}

/// The action asked for in a phase.
pub open spec fn action_of(p: Phase) -> Action {
    match p {
        Phase::LoadLibrary => Action::LoadLibrary,
        Phase::Resolve(s) => Action::Resolve(s),
        Phase::OpenSession => Action::OpenSession,
        Phase::InitSession => Action::InitSession,
        Phase::Release(_) => Action::Unload,
        Phase::Ready | Phase::Failed(_) => Action::Finish,
    }
}

/// The phase that follows once the phase's action reported success (`ok`)
/// or failure. Releasing cannot fail, and a finished construction stays as
/// it is.
pub open spec fn step(p: Phase, ok: bool) -> Phase {
    match p {
        Phase::LoadLibrary => if ok {
            Phase::Resolve(Symbol::CreateShm)
        } else {
            Phase::Failed(FDPError::LibraryLoad)
        },
        Phase::Resolve(s) => if !ok {
            Phase::Release(FDPError::SymbolResolution(s))
        } else {
            match s.spec_next() {
                Some(n) => Phase::Resolve(n),
                None => Phase::OpenSession,
            }
        },
        Phase::OpenSession => if ok {
            Phase::InitSession
        } else {
            Phase::Release(FDPError::HandleCreation)
        },
        Phase::InitSession => if ok {
            Phase::Ready
        } else {
            Phase::Release(FDPError::Initialization)
        },
        Phase::Release(e) => Phase::Failed(e),
        Phase::Ready | Phase::Failed(_) => p,
    }
}

/// The phase reached from `p` when the actions report `outcomes` in turn.
pub open spec fn run(p: Phase, outcomes: Seq<bool>) -> Phase
    decreases outcomes.len(),
{
    if outcomes.len() == 0 {
        p
    } else {
        run(step(p, outcomes[0]), outcomes.drop_first())
    }
}

/// How many times the library is released on that way.
pub open spec fn unloads(p: Phase, outcomes: Seq<bool>) -> nat
    decreases outcomes.len(),
{
    if outcomes.len() == 0 {
        0
    } else {
        (if action_of(p) is Unload { 1nat } else { 0nat }) + unloads(
            step(p, outcomes[0]),
            outcomes.drop_first(),
        )
    }
}

/// Whether a session name holds a null character, which the native string
/// format cannot carry.
pub open spec fn has_nul(name: Seq<char>) -> bool {
    exists|i: int| 0 <= i < name.len() && name[i] == '\0'
}

/// Construction of one session, driven by the caller: it performs
/// `action()`, reports how it went with `advance`, and stops once
/// `outcome()` is known.
pub struct Setup {
    phase: Phase,
}

impl View for Setup {
    type V = Phase;

    closed spec fn view(&self) -> Phase {
        self.phase
    }
}

impl Setup {
    /// Begins the construction of a session for the machine `vm_name`. The
    /// name is checked before anything is loaded.
    pub fn start(vm_name: &str) -> (r: Result<Setup, FDPError>)
        ensures
            r is Err <==> has_nul(vm_name@),
            r is Err ==> r == Err::<Setup, FDPError>(FDPError::InvalidName),
            r matches Ok(s) ==> s@ == Phase::LoadLibrary,
    {
        let n = vm_name.unicode_len();
        let mut i: usize = 0;
        while i < n
            invariant
                n == vm_name@.len(),
                i <= n,
                forall|j: int| 0 <= j < i ==> vm_name@[j] != '\0',
            decreases n - i,
        {
            if vm_name.get_char(i) == '\0' {
                return Err(FDPError::InvalidName);
            }
            i = i + 1;
        }
        Ok(Setup { phase: Phase::LoadLibrary })
    }

    /// The native work to perform now.
    pub fn action(&self) -> (r: Action)
        ensures
            r == action_of(self@),
    {
        match self.phase {
            Phase::LoadLibrary => Action::LoadLibrary,
            Phase::Resolve(s) => Action::Resolve(s),
            Phase::OpenSession => Action::OpenSession,
            Phase::InitSession => Action::InitSession,
            Phase::Release(_) => Action::Unload,
            Phase::Ready | Phase::Failed(_) => Action::Finish,
        }
    }

    /// Records whether the last action succeeded.
    pub fn advance(&mut self, ok: bool)
        ensures
            final(self)@ == step(old(self)@, ok),
    {
        self.phase = match self.phase {
            Phase::LoadLibrary => if ok {
                Phase::Resolve(Symbol::first())
            } else {
                Phase::Failed(FDPError::LibraryLoad)
            },
            Phase::Resolve(s) => if !ok {
                Phase::Release(FDPError::SymbolResolution(s))
            } else {
                match s.next() {
                    Some(n) => Phase::Resolve(n),
                    None => Phase::OpenSession,
                }
            },
            Phase::OpenSession => if ok {
                Phase::InitSession
            } else {
                Phase::Release(FDPError::HandleCreation)
            },
            Phase::InitSession => if ok {
                Phase::Ready
            } else {
                Phase::Release(FDPError::Initialization)
            },
            Phase::Release(e) => Phase::Failed(e),
            Phase::Ready => Phase::Ready,
            Phase::Failed(e) => Phase::Failed(e),
        };
    }

    /// The result of the construction once it is finished.
    pub fn outcome(&self) -> (r: Option<Result<(), FDPError>>)
        ensures
            self@ is Ready <==> r == Some(Ok::<(), FDPError>(())),
            self@ matches Phase::Failed(e) ==> r == Some(Err::<(), FDPError>(e)),
            r is None <==> !(self@ is Ready || self@ is Failed),
    {
        match self.phase {
            Phase::Ready => Some(Ok(())),
            Phase::Failed(e) => Some(Err(e)),
            _ => None,
        }
    }
}

/// Successful actions still needed to get from `p` to a ready session.
pub open spec fn steps_to_ready(p: Phase) -> nat {
    match p {
        Phase::LoadLibrary => symbol_count() + 3,
        Phase::Resolve(s) => (symbol_count() - s.rank()) as nat + 2,
        Phase::OpenSession => 2,
        Phase::InitSession => 1,
        _ => 0,
    }
}

proof fn lemma_finished_stays(p: Phase, outcomes: Seq<bool>)
    requires
        p is Ready || p is Failed,
    ensures
        run(p, outcomes) == p,
        unloads(p, outcomes) == 0,
    decreases outcomes.len(),
{
    if outcomes.len() > 0 {
        lemma_finished_stays(step(p, outcomes[0]), outcomes.drop_first());
    }
}

proof fn lemma_release_ends_failed(e: FDPError, outcomes: Seq<bool>)
    ensures
        outcomes.len() > 0 ==> run(Phase::Release(e), outcomes) == Phase::Failed(e),
        outcomes.len() > 0 ==> unloads(Phase::Release(e), outcomes) == 1,
        !(run(Phase::Release(e), outcomes) is Ready),
{
    if outcomes.len() > 0 {
        lemma_finished_stays(Phase::Failed(e), outcomes.drop_first());
    }
}

proof fn lemma_run_unloads(p: Phase, outcomes: Seq<bool>)
    requires
        p != Phase::Release(FDPError::LibraryLoad),
    ensures
        run(p, outcomes) is Ready ==> unloads(p, outcomes) == 0,
        run(p, outcomes) matches Phase::Failed(e) ==> unloads(p, outcomes) == (if p is Failed
            || e == FDPError::LibraryLoad { 0nat } else { 1nat }),
        run(p, outcomes) == Phase::Failed(FDPError::LibraryLoad) ==> (p is LoadLibrary || p
            == Phase::Failed(FDPError::LibraryLoad)),
    decreases outcomes.len(),
{
    if outcomes.len() > 0 {
        let q = step(p, outcomes[0]);
        lemma_run_unloads(q, outcomes.drop_first());
        if q is Ready || q is Failed {
            lemma_finished_stays(q, outcomes.drop_first());
        }
    }
}

proof fn lemma_run_ready(p: Phase, outcomes: Seq<bool>)
    requires
        !(p is Release || p is Failed),
    ensures
        run(p, outcomes) is Ready <==> (outcomes.len() >= steps_to_ready(p) && forall|i: int|
            0 <= i < steps_to_ready(p) ==> #[trigger] outcomes[i]),
    decreases outcomes.len(),
{
    if p is Ready {
        lemma_finished_stays(p, outcomes);
    } else if outcomes.len() > 0 {
        let rest = outcomes.drop_first();
        let q = step(p, outcomes[0]);
        if !outcomes[0] {
            match q {
                Phase::Release(e) => lemma_release_ends_failed(e, rest),
                _ => lemma_finished_stays(q, rest),
            }
        } else {
            lemma_run_ready(q, rest);
            assert(steps_to_ready(q) + 1 == steps_to_ready(p));
            if outcomes.len() >= steps_to_ready(p) && forall|i: int|
                0 <= i < steps_to_ready(p) ==> #[trigger] outcomes[i] {
                assert forall|i: int| 0 <= i < steps_to_ready(q) implies #[trigger] rest[i] by {
                    assert(outcomes[i + 1]);
                }
            }
            if run(p, outcomes) is Ready {
                assert forall|i: int| 0 <= i < steps_to_ready(p) implies #[trigger] outcomes[i] by {
                    if i > 0 {
                        assert(rest[i - 1]);
                    }
                }
            }
        }
    }
}

proof fn lemma_resolve_fails(s: Symbol, t: Symbol, outcomes: Seq<bool>)
    requires
        s.rank() <= t.rank(),
        outcomes.len() >= t.rank() - s.rank() + 2,
        forall|i: int| 0 <= i < t.rank() - s.rank() ==> #[trigger] outcomes[i],
        !outcomes[t.rank() - s.rank() as int],
    ensures
        run(Phase::Resolve(s), outcomes) == Phase::Failed(FDPError::SymbolResolution(t)),
    decreases t.rank() - s.rank(),
{
    let rest = outcomes.drop_first();
    if s.rank() == t.rank() {
        assert(s == t);
        lemma_release_ends_failed(FDPError::SymbolResolution(t), rest);
    } else {
        assert(outcomes[0]);
        let n = s.spec_next()->Some_0;
        assert forall|i: int| 0 <= i < t.rank() - n.rank() implies #[trigger] rest[i] by {
            assert(outcomes[i + 1]);
        }
        lemma_resolve_fails(n, t, rest);
    }
}

/// A construction releases the library exactly when it fails after loading
/// it, and then exactly once: never on success, never when loading failed.
pub proof fn lemma_release_once(outcomes: Seq<bool>)
    ensures
        run(Phase::LoadLibrary, outcomes) is Ready ==> unloads(Phase::LoadLibrary, outcomes) == 0,
        run(Phase::LoadLibrary, outcomes) == Phase::Failed(FDPError::LibraryLoad) ==> unloads(
            Phase::LoadLibrary,
            outcomes,
        ) == 0,
        run(Phase::LoadLibrary, outcomes) matches Phase::Failed(e) && e != FDPError::LibraryLoad
            ==> unloads(Phase::LoadLibrary, outcomes) == 1,
{
    lemma_run_unloads(Phase::LoadLibrary, outcomes);
}

/// When the library cannot be loaded, construction fails with
/// `LibraryLoad`, releases nothing and yields no session.
pub proof fn lemma_library_missing(outcomes: Seq<bool>)
    requires
        outcomes.len() > 0,
        !outcomes[0],
    ensures
        run(Phase::LoadLibrary, outcomes) == Phase::Failed(FDPError::LibraryLoad),
        unloads(Phase::LoadLibrary, outcomes) == 0,
{
    lemma_finished_stays(Phase::Failed(FDPError::LibraryLoad), outcomes.drop_first());
}

/// When the library loads and the entry points before `s` resolve but `s`
/// does not, construction fails naming `s`, after releasing the library once.
pub proof fn lemma_symbol_missing(s: Symbol, outcomes: Seq<bool>)
    requires
        outcomes.len() >= s.rank() + 3,
        forall|i: int| 0 <= i <= s.rank() ==> #[trigger] outcomes[i],
        !outcomes[s.rank() + 1 as int],
    ensures
        run(Phase::LoadLibrary, outcomes) == Phase::Failed(FDPError::SymbolResolution(s)),
        unloads(Phase::LoadLibrary, outcomes) == 1,
{
    let rest = outcomes.drop_first();
    assert(outcomes[0]);
    assert forall|i: int| 0 <= i < s.rank() implies #[trigger] rest[i] by {
        assert(outcomes[i + 1]);
    }
    assert(!rest[s.rank() as int]);
    lemma_resolve_fails(Symbol::CreateShm, s, rest);
    lemma_run_unloads(Phase::LoadLibrary, outcomes);
}

/// Construction is all or nothing: a session is ready exactly when loading,
/// every resolution, opening and initialisation all succeed.
pub proof fn lemma_ready_iff_all_succeed(outcomes: Seq<bool>)
    ensures
        run(Phase::LoadLibrary, outcomes) is Ready <==> (outcomes.len() >= symbol_count() + 3
            && forall|i: int| 0 <= i < symbol_count() + 3 ==> #[trigger] outcomes[i]),
{
    lemma_run_ready(Phase::LoadLibrary, outcomes);
}

} // verus!
