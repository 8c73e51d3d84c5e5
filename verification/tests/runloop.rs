use remo::appliance::Appliance;
use remo::device::Device;
use remo::error::APIError;
use remo::message::{poll_timeout, tick_due, Channel, Event, KeyCode};
use remo::runloop::{run, startup, step, RunState, TerminalGuard};
use remo::selection::Selection;
use remo::view::{App, Context, MainContext, State};

fn appliance(nickname: &str) -> Appliance {
    Appliance {
        id: format!("id-{nickname}"),
        device: Device {
            id: "dev-1".to_string(),
            name: "Living Room".to_string(),
            temperature_offset: 0,
            humidity_offset: 0,
            created_at: "2020-01-01T00:00:00Z".to_string(),
            updated_at: "2020-01-01T00:00:00Z".to_string(),
            firmware_version: "Remo/1.0.62-gabbf5bd".to_string(),
        },
        model: None,
        nickname: nickname.to_string(),
        image: "ico_io".to_string(),
        kind: "IR".to_string(),
        settings: None,
        aircon: None,
        signals: vec![],
    }
}

fn three_appliance_state() -> App {
    App {
        appliances: vec![appliance("a1"), appliance("a2"), appliance("a3")],
        current_state: State::Main,
    }
}

#[test]
fn message_ordering() {
    let mut chan: Channel<Event<KeyCode>> = Channel::new();
    chan.send(Event::Input(KeyCode::Char('a')));
    chan.send(Event::Tick);
    chan.send(Event::Input(KeyCode::Char('b')));
    chan.send(Event::Tick);
    assert_eq!(chan.len(), 4);
    assert_eq!(chan.recv(), Some(Event::Input(KeyCode::Char('a'))));
    assert_eq!(chan.recv(), Some(Event::Tick));
    assert_eq!(chan.recv(), Some(Event::Input(KeyCode::Char('b'))));
    assert_eq!(chan.recv(), Some(Event::Tick));
    assert_eq!(chan.recv(), None);
}

#[test]
fn teardown_runs_exactly_once() {
    let mut guard = TerminalGuard::acquire();
    assert!(guard.active);
    assert!(guard.teardown());
    assert!(!guard.active);
    // A second teardown must not release anything again.
    assert!(!guard.teardown());
    assert!(!guard.active);
}

#[test]
fn quit_from_any_cursor_position() {
    for cursor in 0..3 {
        let mut app_state = three_appliance_state();
        let mut ctx = MainContext { state: Selection { cursor, length: 3 } };
        let mut inbox: Channel<Event<KeyCode>> = Channel::new();
        inbox.send(Event::Input(KeyCode::Char('q')));
        inbox.send(Event::Tick);
        inbox.send(Event::Input(KeyCode::Down));
        let mut guard = TerminalGuard::acquire();

        let screens = run(&mut ctx, &mut app_state, &mut inbox, &mut guard);

        // One render was already due when quit arrived; none follows it.
        assert_eq!(screens.len(), 1);
        assert_eq!(screens[0].highlighted, Some(cursor));
        assert!(!guard.active);
        // The unconsumed script is still in the channel and the cursor never
        // moved: the loop stopped at the quit key.
        assert_eq!(inbox.len(), 2);
        assert_eq!(ctx.state.cursor, cursor);
    }
}

#[test]
fn scripted_navigation_run() {
    let mut app_state = three_appliance_state();
    let mut ctx = MainContext::new();
    let mut inbox: Channel<Event<KeyCode>> = Channel::new();
    inbox.send(Event::Input(KeyCode::Down));
    inbox.send(Event::Tick);
    inbox.send(Event::Input(KeyCode::Down));
    inbox.send(Event::Input(KeyCode::Char('q')));
    let mut guard = TerminalGuard::acquire();

    let screens = run(&mut ctx, &mut app_state, &mut inbox, &mut guard);

    // One render per iteration: initial, after Down, after Tick, after Down.
    assert_eq!(screens.len(), 4);
    let highlights: Vec<Option<usize>> = screens.iter().map(|s| s.highlighted).collect();
    assert_eq!(highlights, vec![Some(0), Some(1), Some(1), Some(2)]);
    assert_eq!(ctx.state.cursor, 2);
    assert!(!guard.active);
    assert_eq!(inbox.len(), 0);
}

#[test]
fn disconnected_channel_terminates_loop() {
    let mut app_state = three_appliance_state();
    let mut ctx = MainContext::new();
    let mut inbox: Channel<Event<KeyCode>> = Channel::new();
    let mut guard = TerminalGuard::acquire();

    let screens = run(&mut ctx, &mut app_state, &mut inbox, &mut guard);

    assert_eq!(screens.len(), 1);
    assert!(!guard.active);
}

#[test]
fn tick_is_consumed_without_effect() {
    let mut app_state = three_appliance_state();
    let mut ctx = MainContext::new();
    let rs = step(&mut ctx, &mut app_state, Some(Event::Tick));
    assert_eq!(rs, RunState::Running);
    assert_eq!(ctx.state.cursor, 0);
    assert_eq!(app_state.appliances.len(), 3);
}

#[test]
fn closed_channel_is_a_terminating_step() {
    let mut app_state = three_appliance_state();
    let mut ctx = MainContext::new();
    let rs = step(&mut ctx, &mut app_state, None);
    assert_eq!(rs, RunState::Terminating);
}

#[test]
fn startup_success_builds_master_state() {
    let mut guard = TerminalGuard::acquire();
    let list = vec![appliance("a1"), appliance("a2")];
    let state = startup(Ok(list), &mut guard);
    let state = state.expect("a fetched list must start the dashboard");
    assert_eq!(state.appliances.len(), 2);
    assert_eq!(state.current_state, State::Main);
    assert!(guard.active);
    guard.teardown();
}

#[test]
fn unauthenticated_fetch_aborts_before_run_loop() {
    // Without a credential the cloud answers 401, which the status
    // classifier turns into an authorization error; startup must then
    // restore the terminal and never build the run loop's state.
    let fetch: Result<Vec<Appliance>, APIError> =
        match remo::error::classify_status(401) {
            Ok(()) => Ok(vec![]),
            Err(e) => Err(e),
        };
    assert!(matches!(fetch, Err(APIError::AuthError)));

    let mut guard = TerminalGuard::acquire();
    let state = startup(fetch, &mut guard);
    assert!(state.is_none());
    // The terminal was restored on the abort path, exactly once.
    assert!(!guard.active);
    assert!(!guard.teardown());
}

#[test]
fn poll_timeout_is_clamped_remainder() {
    assert_eq!(poll_timeout(200, 0), 200);
    assert_eq!(poll_timeout(200, 150), 50);
    assert_eq!(poll_timeout(200, 200), 0);
    assert_eq!(poll_timeout(200, 999), 0);
}

#[test]
fn tick_due_after_full_interval() {
    assert!(!tick_due(200, 199));
    assert!(tick_due(200, 200));
    assert!(tick_due(200, 201));
}
