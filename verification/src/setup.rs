//! The gated acquisition chain that precedes drawing: window, document,
//! element lookup, canvas narrowing, context request, 2D-context narrowing.
//! Every acquisition either proceeds to the next stage or aborts the whole
//! chain at the stage that failed; drawing happens only once the chain is
//! ready.

use vstd::prelude::*;

verus! {

/// One acquisition stage of the chain, in order.
#[derive(Clone, Copy, Debug, PartialEq, Eq, Structural)]
pub enum Stage {
    /// Obtain the global window handle.
    Window,
    /// Obtain the document of the window.
    Document,
    /// Find the element with the fixed identifier.
    Element,
    /// Narrow the element to a canvas element.
    Canvas,
    /// Request a 2D rendering context from the canvas.
    Context,
    /// Narrow the returned context to a 2D-context capability.
    Context2d,
}

/// Where the chain stands: waiting on an acquisition, ready to draw, or
/// aborted at the stage that failed.
#[derive(Clone, Copy, Debug, PartialEq, Eq, Structural)]
pub enum SetupState {
    /// The given acquisition is the next one to attempt.
    Pending(Stage),
    /// Every acquisition succeeded; the drawing sequence may run.
    Ready,
    /// The given acquisition failed; nothing is drawn.
    Aborted(Stage),
}

/// The single kind of failure this renderer knows: an acquisition of the
/// environment did not hold, named by the stage at which the chain stopped.
#[derive(Clone, Copy, Debug, PartialEq, Eq, Structural)]
pub struct EnvironmentPreconditionFailure {
    /// The acquisition that failed.
    pub stage: Stage,
}

/// The state before any acquisition was attempted.
pub open spec fn initial_state_spec() -> SetupState {
    SetupState::Pending(Stage::Window)
}

/// The state a successful acquisition at the given stage leads to.
pub open spec fn next_state(s: Stage) -> SetupState {
    match s {
        Stage::Window => SetupState::Pending(Stage::Document),
        Stage::Document => SetupState::Pending(Stage::Element),
        Stage::Element => SetupState::Pending(Stage::Canvas),
        Stage::Canvas => SetupState::Pending(Stage::Context),
        Stage::Context => SetupState::Pending(Stage::Context2d),
        Stage::Context2d => SetupState::Ready,
    }
}

/// The stage attempted after the given number of successful acquisitions.
pub open spec fn stage_at(i: int) -> Stage {
    if i == 0 {
        Stage::Window
    } else if i == 1 {
        Stage::Document
    } else if i == 2 {
        Stage::Element
    } else if i == 3 {
        Stage::Canvas
    } else if i == 4 {
        Stage::Context
    } else {
        Stage::Context2d
    }
}

/// How one acquisition outcome moves the chain: a pending stage proceeds or
/// aborts, and the two terminal states never change again.
pub open spec fn advance_spec(state: SetupState, acquired: bool) -> SetupState {
    match state {
        SetupState::Pending(s) => if acquired {
            next_state(s)
        } else {
            SetupState::Aborted(s)
        },
        SetupState::Ready => SetupState::Ready,
        SetupState::Aborted(s) => SetupState::Aborted(s),
    }
}

/// The state of the chain after the given acquisition outcomes, oldest
/// first, starting from the initial state.
pub open spec fn run_spec(events: Seq<bool>) -> SetupState
    decreases events.len(),
{
    if events.len() == 0 {
        initial_state_spec()
    } else {
        advance_spec(run_spec(events.drop_last()), events.last())
    }
}

/// The state before any acquisition was attempted.
pub fn initial_state() -> (r: SetupState)
    ensures
        r == initial_state_spec(),
{
    SetupState::Pending(Stage::Window)
}

/// Moves the chain by one acquisition outcome, exactly as [`advance_spec`]
/// says.
pub fn advance(state: SetupState, acquired: bool) -> (r: SetupState)
    ensures
        r == advance_spec(state, acquired),
{
    match state {
        SetupState::Pending(s) => if acquired {
            match s {
                Stage::Window => SetupState::Pending(Stage::Document),
                Stage::Document => SetupState::Pending(Stage::Element),
                Stage::Element => SetupState::Pending(Stage::Canvas),
                Stage::Canvas => SetupState::Pending(Stage::Context),
                Stage::Context => SetupState::Pending(Stage::Context2d),
                Stage::Context2d => SetupState::Ready,
            }
        } else {
            SetupState::Aborted(s)
        },
        SetupState::Ready => SetupState::Ready,
        SetupState::Aborted(s) => SetupState::Aborted(s),
    }
}

/// Runs the whole chain over the given acquisition outcomes, oldest first.
pub fn run_steps(events: &Vec<bool>) -> (r: SetupState)
    ensures
        r == run_spec(events@),
{
    let mut state = initial_state();
    let n = events.len();
    let mut i: usize = 0;
    while i < n
        invariant
            n == events.len(),
            i <= n,
            state == run_spec(events@.take(i as int)),
        decreases n - i,
    {
        state = advance(state, events[i]);
        proof {
            assert(events@.take(i + 1 as int).drop_last() =~= events@.take(i as int));
            assert(events@.take(i + 1 as int).last() == events@[i as int]);
        }
        i = i + 1;
    }
    proof {
        assert(events@.take(n as int) =~= events@);
    }
    state
}

/// What each reachable state of the chain tells about the acquisition
/// outcomes: a pending chain has seen only successes and stands at the stage
/// their number names; a ready chain has seen six successes; an aborted
/// chain has seen a failure among the first six outcomes.
pub proof fn lemma_run_form(events: Seq<bool>)
    ensures
        run_spec(events) is Pending ==> events.len() < 6 && run_spec(events) == SetupState::Pending(
            stage_at(events.len() as int),
        ) && (forall|j: int| 0 <= j < events.len() ==> events[j]),
        run_spec(events) is Ready ==> events.len() >= 6 && (forall|j: int|
            0 <= j < 6 ==> events[j]),
        run_spec(events) is Aborted ==> (exists|j: int|
            0 <= j < events.len() && j < 6 && !events[j]),
    decreases events.len(),
{
    if events.len() > 0 {
        lemma_run_form(events.drop_last());
        let rest = events.drop_last();
        let prior = run_spec(rest);
        let last = events.last();
        assert(forall|j: int| 0 <= j < rest.len() ==> rest[j] == events[j]);
        match prior {
            SetupState::Pending(s) => {
                assert(s == stage_at(rest.len() as int));
                if last {
                    assert(events[events.len() - 1]);
                    assert(forall|j: int| 0 <= j < events.len() ==> events[j]);
                } else {
                    assert(!events[events.len() - 1]);
                }
            },
            SetupState::Ready => {
                assert(forall|j: int| 0 <= j < 6 ==> rest[j]);
            },
            SetupState::Aborted(_) => {
                let j = choose|j: int| 0 <= j < rest.len() && j < 6 && !rest[j];
                assert(0 <= j < events.len() && j < 6 && !events[j]);
            },
        }
    }
}

/// The chain is ready to draw exactly when its first six acquisitions all
/// succeeded.
pub proof fn lemma_ready_iff_all_acquired(events: Seq<bool>)
    ensures
        run_spec(events) is Ready <==> (events.len() >= 6 && forall|i: int|
            0 <= i < 6 ==> events[i]),
{
    lemma_run_form(events);
    if events.len() >= 6 && (forall|i: int| 0 <= i < 6 ==> events[i]) {
        match run_spec(events) {
            SetupState::Pending(_) => {
                assert(false);
            },
            SetupState::Ready => {},
            SetupState::Aborted(_) => {
                let j = choose|j: int| 0 <= j < events.len() && j < 6 && !events[j];
                assert(events[j]);
                assert(false);
            },
        }
    }
}

/// The first failed acquisition aborts the chain at exactly its stage,
/// whatever outcomes follow; the chain never reaches the drawing phase.
pub proof fn lemma_first_failure_aborts(events: Seq<bool>, i: int)
    requires
        0 <= i < 6,
        i < events.len(),
        !events[i],
        forall|j: int| 0 <= j < i ==> events[j],
    ensures
        run_spec(events) == SetupState::Aborted(stage_at(i)),
        !(run_spec(events) is Ready),
    decreases events.len(),
{
    if events.len() - 1 == i {
        lemma_run_form(events.drop_last());
        let prior = run_spec(events.drop_last());
        match prior {
            SetupState::Pending(_) => {
                assert(prior == SetupState::Pending(stage_at(i)));
            },
            SetupState::Ready => {
                assert(events.drop_last().len() >= 6);
                assert(false);
            },
            SetupState::Aborted(_) => {
                let j = choose|j: int|
                    0 <= j < events.drop_last().len() && j < 6 && !events.drop_last()[j];
                assert(events[j]);
                assert(false);
            },
        }
    } else {
        lemma_first_failure_aborts(events.drop_last(), i);
    }
}

} // verus!
