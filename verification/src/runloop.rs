use vstd::prelude::*;
use crate::appliance::Appliance;
use crate::error::APIError;
use crate::message::{Channel, Event, KeyCode};
use crate::view::{App, Context, Control, MainContext, Screen, ScreenView, State};

verus! {

/// The run loop's state machine: it runs until the active view signals
/// `Exit` or the input channel closes, and `Terminating` is terminal.
#[derive(Clone, Copy, PartialEq, Eq, Structural, Debug)]
pub enum RunState {
    Running,
    Terminating,
}

/// Scoped ownership of the terminal: raw mode, the alternate screen and the
/// hidden cursor, held from setup until the one teardown that restores them.
/// `restores` counts how many times the restore sequence actually ran, so
/// that running it exactly once is a theorem and not a hope.
pub struct TerminalGuard {
    pub active: bool,
    pub restores: Ghost<nat>,
}

/// What tearing down does to the terminal resource: it always leaves the
/// resource released, and it performs the restore sequence only if the
/// resource was still held.
pub open spec fn torn_down(active: bool, restores: nat) -> (bool, nat) {
    (false, if active { restores + 1 } else { restores })
}

impl TerminalGuard {
    /// Terminal setup: raw mode entered, alternate screen entered. The
    /// terminal layer performs the real calls; the guard records that the
    /// resource is now held.
    pub fn acquire() -> (g: TerminalGuard)
        ensures
            g.active,
            g.restores@ == 0,
    {
        TerminalGuard { active: true, restores: Ghost(0) }
    }

    /// Restore the terminal. Returns whether the restore sequence ran, which
    /// it does exactly when the resource was still held: releasing twice
    /// does not double-release.
    pub fn teardown(&mut self) -> (did: bool)
        ensures
            ((final(self).active, final(self).restores@) == torn_down(
                old(self).active,
                old(self).restores@,
            )),
            did == old(self).active,
    {
        if self.active {
            self.active = false;
            self.restores = Ghost(self.restores@ + 1);
            true
        } else {
            false
        }
    }
}

/// Exit determinism: teardown is idempotent. Tearing down a second time
/// changes nothing — in particular it does not run the restore sequence
/// again — so every exit path may end in teardown and the resource is still
/// released exactly once.
pub proof fn lemma_teardown_idempotent(active: bool, restores: nat)
    ensures
        (torn_down(torn_down(active, restores).0, torn_down(active, restores).1) == torn_down(
            active,
            restores,
        )),
{
}

/// One dispatch decision of the run loop: a closed channel terminates the
/// loop, a tick is consumed without any effect, and a key press goes to the
/// active view, whose `Exit` signal terminates the loop.
pub open spec fn spec_step(ctx: MainContext, app: App, msg: Option<Event<KeyCode>>) -> (
    MainContext,
    App,
    RunState,
) {
    match msg {
        None => (ctx, app, RunState::Terminating),
        Some(Event::Tick) => (ctx, app, RunState::Running),
        Some(Event::Input(code)) => {
            let (c2, a2, ctl) = ctx.spec_event(app, code);
            (c2, a2, if ctl is Exit {
                RunState::Terminating
            } else {
                RunState::Running
            })
        },
    }
}

/// Dispatch one received message (or the lack of one) to the active view.
pub fn step(ctx: &mut MainContext, app_state: &mut App, msg: Option<Event<KeyCode>>) -> (rs:
    RunState)
    ensures
        ((*final(ctx), *final(app_state), rs) == spec_step(*old(ctx), *old(app_state), msg)),
{
    match msg {
        None => RunState::Terminating,
        Some(Event::Tick) => RunState::Running,
        Some(Event::Input(code)) => {
            match ctx.event(code, app_state) {
                Control::Exit => RunState::Terminating,
                Control::Continue => RunState::Running,
            }
        },
    }
}

/// The whole run loop as a function of the scripted message sequence: the
/// view and state it ends in, the screens it rendered (one per iteration, in
/// order, none after termination), and the messages it never consumed.
pub open spec fn run_spec(ctx: MainContext, app: App, msgs: Seq<Event<KeyCode>>) -> (
    MainContext,
    App,
    Seq<ScreenView>,
    Seq<Event<KeyCode>>,
)
    decreases msgs.len(),
{
    let (c1, scr) = ctx.spec_draw(app);
    let msg = if msgs.len() == 0 {
        None
    } else {
        Some(msgs[0])
    };
    let rest = if msgs.len() == 0 {
        msgs
    } else {
        msgs.drop_first()
    };
    let (c2, a2, rs) = spec_step(c1, app, msg);
    if rs is Terminating {
        (c2, a2, seq![scr], rest)
    } else {
        let (c3, a3, scrs, rem) = run_spec(c2, a2, rest);
        (c3, a3, seq![scr] + scrs, rem)
    }
}

fn run_inner(
    ctx: &mut MainContext,
    app_state: &mut App,
    inbox: &mut Channel<Event<KeyCode>>,
    screens: &mut Vec<Screen>,
)
    ensures
        ({
            let (c, a, scrs, rem) = run_spec(*old(ctx), *old(app_state), old(inbox)@);
            &&& *final(ctx) == c
            &&& *final(app_state) == a
            &&& final(screens).deep_view() == old(screens).deep_view() + scrs
            &&& final(inbox)@ == rem
        }),
    decreases inbox@.len(),
{
    let scr = ctx.draw(app_state);
    screens.push(scr);
    proof {
        assert(screens.deep_view() =~= old(screens).deep_view() + seq![scr@]);
    }
    let msg = inbox.recv();
    let rs = step(ctx, app_state, msg);
    match rs {
        RunState::Terminating => {},
        RunState::Running => {
            run_inner(ctx, app_state, inbox, screens);
            proof {
                let (c, a, scrs, rem) = run_spec(*old(ctx), *old(app_state), old(inbox)@);
                assert(final(screens).deep_view() =~~= old(screens).deep_view() + scrs);
            }
        },
    }
}

/// The run loop, against a scripted channel: render the active view, receive
/// the next message, dispatch it, and repeat until the view signals `Exit`
/// or the channel is empty (the producer is gone); then restore the terminal
/// — exactly once, whichever exit path was taken. Returns the rendered
/// screens, in order; once termination is signalled no further render
/// occurs.
pub fn run(
    ctx: &mut MainContext,
    app_state: &mut App,
    inbox: &mut Channel<Event<KeyCode>>,
    guard: &mut TerminalGuard,
) -> (screens: Vec<Screen>)
    requires
        old(guard).active,
    ensures
        ({
            let (c, a, scrs, rem) = run_spec(*old(ctx), *old(app_state), old(inbox)@);
            &&& *final(ctx) == c
            &&& *final(app_state) == a
            &&& screens.deep_view() == scrs
            &&& final(inbox)@ == rem
        }),
        !final(guard).active,
        final(guard).restores@ == old(guard).restores@ + 1,
{
    let mut screens: Vec<Screen> = Vec::new();
    proof {
        assert(screens.deep_view() =~~= Seq::<ScreenView>::empty());
    }
    run_inner(ctx, app_state, inbox, &mut screens);
    proof {
        let (c, a, scrs, rem) = run_spec(*old(ctx), *old(app_state), old(inbox)@);
        assert(Seq::<ScreenView>::empty() + scrs =~~= scrs);
    }
    guard.teardown();
    screens
}

/// What stands between terminal setup and the run loop: the initial fetch's
/// result decides whether the dashboard starts. A failed fetch is fatal —
/// the terminal is restored (exactly once) and no shared state is built, so
/// the run loop is never entered and nothing is rendered. A successful
/// fetch yields the shared state, with the master screen active.
pub fn startup(fetch: Result<Vec<Appliance>, APIError>, guard: &mut TerminalGuard) -> (r: Option<
    App,
>)
    requires
        old(guard).active,
    ensures
        (match fetch {
            Ok(appliances) => r == Some(App { appliances, current_state: State::Main })
                && *final(guard) == *old(guard),
            Err(_) => r is None && !final(guard).active && final(guard).restores@ == old(
                guard,
            ).restores@ + 1,
        }),
{
    match fetch {
        Ok(appliances) => Some(App { appliances, current_state: State::Main }),
        Err(_) => {
            guard.teardown();
            None
        },
    }
}

/// Quit from any cursor position: on the quit key the master view signals
/// `Exit` and leaves the shared state and its own cursor untouched.
pub proof fn lemma_quit_exits(ctx: MainContext, app: App)
    ensures
        ctx.spec_event(app, KeyCode::Char('q')) == (ctx, app, Control::Exit),
{
}

/// ... and once quit is pressed no further render occurs: with the quit key
/// as the next message the run loop renders exactly the frame that was
/// already due, then terminates.
pub proof fn lemma_quit_stops_rendering(ctx: MainContext, app: App, msgs: Seq<Event<KeyCode>>)
    requires
        msgs.len() > 0,
        msgs[0] == Event::Input(KeyCode::Char('q')),
    ensures
        run_spec(ctx, app, msgs).2.len() == 1,
        run_spec(ctx, app, msgs).3 == msgs.drop_first(),
{
}

/// Empty-list safety: against a zero-length appliance list the master view
/// renders an empty list with nothing highlighted and no right-pane title,
/// and every key press leaves the shared state unchanged with nothing
/// selected; nothing is ever indexed out of bounds (the operations above
/// verify with no precondition on the list).
pub proof fn lemma_empty_list_safe(ctx: MainContext, app: App, code: KeyCode)
    requires
        app.appliances@.len() == 0,
    ensures
        ctx.spec_draw(app).1.left_items.len() == 0,
        ctx.spec_draw(app).1.highlighted is None,
        ctx.spec_draw(app).1.right_title is None,
        ctx.spec_event(app, code).1 == app,
        ctx.spec_draw(app).0.state.spec_selected() is None,
{
}

} // verus!
