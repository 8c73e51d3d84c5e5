use vstd::prelude::*;
use crate::appliance::Appliance;
use crate::message::KeyCode;
use crate::selection::Selection;

verus! {

/// Which screen is active. `Detail` is a declared extension point: no detail
/// screen exists yet, so the dashboard never leaves `Main`.
#[derive(Clone, Copy, PartialEq, Eq, Structural, Debug)]
pub enum State {
    Main,
    Detail,
}

/// What a view's key handler tells the run loop: keep going, or tear the
/// terminal down and stop.
#[derive(Clone, Copy, PartialEq, Eq, Structural, Debug)]
pub enum Control {
    Continue,
    Exit,
}

/// The application state shared across screens: the appliance list fetched
/// once at startup (read-only for the life of the run loop) and the active
/// screen. The run loop owns it and lends it to the active view one call at
/// a time.
pub struct App {
    pub appliances: Vec<Appliance>,
    pub current_state: State,
}

/// What one rendering of the master screen shows, as plain values: the
/// nicknames listed in the left pane, which of them is highlighted, and the
/// title of the right pane (the selected appliance's nickname). The terminal
/// layer turns this into styled widgets; nothing it adds depends on the
/// state.
#[derive(Clone, Debug, PartialEq)]
pub struct Screen {
    pub left_items: Vec<String>,
    pub highlighted: Option<usize>,
    pub right_title: Option<String>,
}

/// The mathematical image of a `Screen`.
pub struct ScreenView {
    pub left_items: Seq<Seq<char>>,
    pub highlighted: Option<usize>,
    pub right_title: Option<Seq<char>>,
}

impl View for Screen {
    type V = ScreenView;

    open spec fn view(&self) -> ScreenView {
        ScreenView {
            left_items: self.left_items.deep_view(),
            highlighted: self.highlighted,
            right_title: match self.right_title {
                Some(t) => Some(t@),
                None => None,
            },
        }
    }
}

impl DeepView for Screen {
    type V = ScreenView;

    open spec fn deep_view(&self) -> ScreenView {
        self.view()
    }
}

/// A screen's behaviour: how it renders against the shared state and how it
/// reacts to a key press. Each operation carries its exact transition as a
/// spec function, so the run loop knows precisely what dispatching to a view
/// does.
pub trait Context: Sized {
    /// The view as it is when the screen is entered.
    spec fn spec_new() -> Self;

    /// What rendering does: the view after the call and the screen contents.
    spec fn spec_draw(self, app: App) -> (Self, ScreenView);

    /// What a key press does: the view and shared state after the call and
    /// the signal handed to the run loop.
    spec fn spec_event(self, app: App, code: KeyCode) -> (Self, App, Control);

    fn new() -> (c: Self)
        ensures
            c == Self::spec_new(),
    ;

    fn draw(&mut self, app_state: &App) -> (scr: Screen)
        ensures
            ((*final(self), scr@) == old(self).spec_draw(*app_state)),
    ;

    fn event(&mut self, code: KeyCode, app_state: &mut App) -> (r: Control)
        ensures
            ((*final(self), *final(app_state), r) == old(self).spec_event(*old(app_state), code)),
    ;
}

/// The master view: the appliance list with a wrap-around cursor.
pub struct MainContext {
    pub state: Selection,
}

impl MainContext {
    /// The welcome lines of the home panel, top to bottom.
    pub fn render_home() -> (lines: Vec<String>)
        ensures
            (lines.deep_view() == seq![""@, "Welcome"@, ""@, "to"@, ""@, "Nature Remo TUI"@]),
    {
        let mut lines: Vec<String> = Vec::new();
        lines.push("".to_owned());
        lines.push("Welcome".to_owned());
        lines.push("".to_owned());
        lines.push("to".to_owned());
        lines.push("".to_owned());
        lines.push("Nature Remo TUI".to_owned());
        proof {
            assert(lines.deep_view() =~= seq![""@, "Welcome"@, ""@, "to"@, ""@, "Nature Remo TUI"@]);
        }
        lines
    }
}

impl Context for MainContext {
    open spec fn spec_new() -> MainContext {
        MainContext { state: Selection { cursor: 0, length: 0 } }
    }

    /// Rendering points the cursor at the live appliance list, lists every
    /// nickname on the left, and titles the right pane with the selected
    /// nickname; over an empty list nothing is highlighted and the right
    /// pane stays untitled.
    open spec fn spec_draw(self, app: App) -> (MainContext, ScreenView) {
        let len = app.appliances@.len();
        let sel = self.state.spec_resize(len as usize);
        (
            MainContext { state: sel },
            ScreenView {
                left_items: Seq::new(len, |i: int| app.appliances@[i].nickname@),
                highlighted: sel.spec_selected(),
                right_title: if len > 0 {
                    Some(app.appliances@[sel.cursor as int].nickname@)
                } else {
                    None
                },
            },
        )
    }

    /// The key bindings of the master view: quit signals `Exit`; down and up
    /// move the cursor with wrap-around; reload, enter and escape are
    /// deliberate placeholders that change nothing; any other key is a
    /// no-op. The shared state is never changed.
    open spec fn spec_event(self, app: App, code: KeyCode) -> (MainContext, App, Control) {
        match code {
            KeyCode::Char(c) => {
                if c == 'q' {
                    (self, app, Control::Exit)
                } else {
                    (self, app, Control::Continue)
                }
            },
            KeyCode::Down => {
                let sel = self.state.spec_resize(app.appliances@.len() as usize);
                (MainContext { state: sel.spec_advance() }, app, Control::Continue)
            },
            KeyCode::Up => {
                let sel = self.state.spec_resize(app.appliances@.len() as usize);
                (MainContext { state: sel.spec_retreat() }, app, Control::Continue)
            },
            _ => (self, app, Control::Continue),
        }
    }

    fn new() -> (c: MainContext) {
        MainContext { state: Selection::new(0) }
    }

    fn draw(&mut self, app_state: &App) -> (scr: Screen) {
        let len = app_state.appliances.len();
        self.state.resize(len);
        let mut left_items: Vec<String> = Vec::new();
        for i in 0..len
            invariant
                len == app_state.appliances@.len(),
                left_items@.len() == i,
                forall|j: int| 0 <= j < i ==> left_items@[j]@ == app_state.appliances@[j].nickname@,
        {
            left_items.push(app_state.appliances[i].nickname.clone());
        }
        let highlighted = self.state.selected();
        let right_title = match self.state.selected() {
            Some(idx) => Some(app_state.appliances[idx].nickname.clone()),
            None => None,
        };
        let scr = Screen { left_items, highlighted, right_title };
        proof {
            let expected = old(self).spec_draw(*app_state).1;
            assert(scr@.left_items =~~= expected.left_items);
        }
        scr
    }

    fn event(&mut self, code: KeyCode, app_state: &mut App) -> (r: Control) {
        match code {
            // Quit
            KeyCode::Char(c) => {
                if c == 'q' {
                    Control::Exit
                } else {
                    // Reload ('r') is a deliberate placeholder: no-op.
                    Control::Continue
                }
            },
            // Move cursor down
            KeyCode::Down => {
                self.state.resize(app_state.appliances.len());
                self.state.advance();
                Control::Continue
            },
            // Move cursor up
            KeyCode::Up => {
                self.state.resize(app_state.appliances.len());
                self.state.retreat();
                Control::Continue
            },
            // Select appliance: the detail screen is a declared extension
            // point, so this is a deliberate placeholder.
            KeyCode::Enter => Control::Continue,
            // Return to menu: no other screen exists yet.
            KeyCode::Esc => Control::Continue,
            KeyCode::Other => Control::Continue,
        }
    }
}

} // verus!
