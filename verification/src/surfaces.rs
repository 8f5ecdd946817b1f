//! The splashscreen-transition command, stated over a model of the runtime's
//! window registry: which of the two named surfaces exist, and whether each
//! is visible and focused. The decision logic is verified here; the host
//! runtime performs the returned actions on the real surfaces.

use vstd::prelude::*;

verus! {

/// Visibility and input focus of one surface the runtime holds.
#[derive(Clone, Copy, Debug, PartialEq, Eq)]
pub struct SurfaceState {
    pub visible: bool,
    pub focused: bool,
}

/// The two named surfaces the shell knows, each either present with a state
/// or absent (never created, or already closed).
#[derive(Clone, Copy, Debug, PartialEq, Eq)]
pub struct Registry {
    pub splashscreen: Option<SurfaceState>,
    pub main: Option<SurfaceState>,
}

/// One side effect the transition asks the runtime to perform.
#[derive(Clone, Copy, Debug, PartialEq, Eq)]
pub enum Action {
    CloseSplashscreen,
    ShowMain,
    FocusMain,
}

/// The state of a surface that was just shown and given input focus.
pub open spec fn shown_and_focused() -> SurfaceState {
    SurfaceState { visible: true, focused: true }
}

/// The registry after one splashscreen transition: the splash surface is
/// gone (closed if it was present, still absent otherwise) and the main
/// surface, where present, is visible and holds input focus.
pub open spec fn transitioned(r: Registry) -> Registry {
    Registry {
        splashscreen: None,
        main: if r.main is Some {
            Some(shown_and_focused())
        } else {
            None
        },
    }
}

/// The actions one transition performs, in order: close the splash surface
/// if it is present, then show and focus the main surface if it is present.
/// The steps of an absent surface are skipped silently.
pub open spec fn transition_actions(r: Registry) -> Seq<Action> {
    let close_step = if r.splashscreen is Some {
        seq![Action::CloseSplashscreen]
    } else {
        Seq::<Action>::empty()
    };
    let show_steps = if r.main is Some {
        seq![Action::ShowMain, Action::FocusMain]
    } else {
        Seq::<Action>::empty()
    };
    close_step + show_steps
}

/// The splashscreen-transition command on the registry model. Closes the
/// splash surface when it exists, then shows and focuses the main surface
/// when it exists; an absent surface is skipped rather than treated as an
/// error. Returns, in order, the actions for the runtime to carry out.
pub fn close_splashscreen(registry: &mut Registry) -> (actions: Vec<Action>)
    ensures
        *final(registry) == transitioned(*old(registry)),
        actions@ == transition_actions(*old(registry)),
{
    let mut actions: Vec<Action> = Vec::new();
    if registry.splashscreen.is_some() {
        actions.push(Action::CloseSplashscreen);
        registry.splashscreen = None;
    }
    if registry.main.is_some() {
        registry.main = Some(SurfaceState { visible: true, focused: true });
        actions.push(Action::ShowMain);
        actions.push(Action::FocusMain);
    }
    actions
}

/// When neither named surface exists, the transition is a no-op: the
/// registry is unchanged and no action is performed.
pub proof fn lemma_transition_noop_when_absent(r: Registry)
    requires
        r.splashscreen is None,
        r.main is None,
    ensures
        transitioned(r) == r,
        transition_actions(r) == Seq::<Action>::empty(),
{
}

/// When only the main surface exists, the close step is skipped and the
/// transition exactly shows and focuses the main surface.
pub proof fn lemma_transition_main_only(r: Registry)
    requires
        r.splashscreen is None,
        r.main is Some,
    ensures
        transition_actions(r) == seq![Action::ShowMain, Action::FocusMain],
        transitioned(r).main == Some(shown_and_focused()),
        transitioned(r).splashscreen is None,
{
}

/// A second transition right after a first one is idempotent: the registry
/// does not change further, the second close step is a no-op (the splash
/// surface is already gone), and the show-and-focus steps simply repeat
/// where the main surface exists.
pub proof fn lemma_transition_idempotent(r: Registry)
    ensures
        transitioned(transitioned(r)) == transitioned(r),
        transition_actions(transitioned(r)) == (if r.main is Some {
            seq![Action::ShowMain, Action::FocusMain]
        } else {
            Seq::<Action>::empty()
        }),
{
}

} // verus!
