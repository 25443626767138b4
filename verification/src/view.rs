use vstd::prelude::*;

verus! {

/// Which pane of the dashboard is currently shown.
#[derive(Clone, Copy, PartialEq, Eq, Structural, Debug)]
pub enum Tab {
    Home,
    Git,
}

/// A discrete keyboard event consumed by the view state machine.
#[derive(Clone, Copy, PartialEq, Eq, Structural, Debug)]
pub enum InputEvent {
    ScrollUp,
    ScrollDown,
    TabLeft,
    TabRight,
    ToggleVerbose,
    Quit,
}

/// Content bounds supplied by the renderer: how many lines each scrollable
/// pane holds, and how many of those lines are visible at once.
#[derive(Clone, Copy, PartialEq, Eq, Structural, Debug)]
pub struct ContentBounds {
    pub tree_lines: u16,
    pub tree_view_height: u16,
    pub status_lines: u16,
    pub status_view_height: u16,
}

/// The mutable state of an interactive session: active tab, per-pane scroll
/// offsets, and the verbose flag that picks which log text is shown.
#[derive(Clone, Copy, PartialEq, Eq, Structural, Debug)]
pub struct ViewState {
    pub active_tab: Tab,
    pub home_scroll: u16,
    pub git_status_scroll: u16,
    pub verbose: bool,
}

/// Largest scroll offset a pane admits: scrolling stops once the last
/// visible row reaches the last content line, and a pane shorter than its
/// view never scrolls at all.
pub open spec fn spec_max_scroll(lines: u16, view_height: u16) -> u16 {
    if lines > view_height {
        (lines - view_height) as u16
    } else {
        0
    }
}

/// The state every session starts in: home tab, no scrolling, verbose off.
pub open spec fn spec_init() -> ViewState {
    ViewState { active_tab: Tab::Home, home_scroll: 0, git_status_scroll: 0, verbose: false }
}

/// The transition table of the view state machine. Scrolling moves the
/// active pane's offset by one, clamped to `[0, spec_max_scroll]`; the tab
/// keys switch between the two tabs; the verbose toggle acts only on the
/// git tab; every other pairing of tab and event leaves the state unchanged.
pub open spec fn spec_transition(s: ViewState, event: InputEvent, bounds: ContentBounds) -> ViewState {
    match event {
        InputEvent::ScrollDown => match s.active_tab {
            Tab::Home => {
                if s.home_scroll < spec_max_scroll(bounds.tree_lines, bounds.tree_view_height) {
                    ViewState { home_scroll: (s.home_scroll + 1) as u16, ..s }
                } else {
                    s
                }
            },
            Tab::Git => {
                if s.git_status_scroll < spec_max_scroll(
                    bounds.status_lines,
                    bounds.status_view_height,
                ) {
                    ViewState { git_status_scroll: (s.git_status_scroll + 1) as u16, ..s }
                } else {
                    s
                }
            },
        },
        InputEvent::ScrollUp => match s.active_tab {
            Tab::Home => {
                if s.home_scroll > 0 {
                    ViewState { home_scroll: (s.home_scroll - 1) as u16, ..s }
                } else {
                    s
                }
            },
            Tab::Git => {
                if s.git_status_scroll > 0 {
                    ViewState { git_status_scroll: (s.git_status_scroll - 1) as u16, ..s }
                } else {
                    s
                }
            },
        },
        InputEvent::TabRight => {
            if s.active_tab is Home {
                ViewState { active_tab: Tab::Git, ..s }
            } else {
                s
            }
        },
        InputEvent::TabLeft => {
            if s.active_tab is Git {
                ViewState { active_tab: Tab::Home, ..s }
            } else {
                s
            }
        },
        InputEvent::ToggleVerbose => {
            if s.active_tab is Git {
                ViewState { verbose: !s.verbose, ..s }
            } else {
                s
            }
        },
        InputEvent::Quit => s,
    }
}

/// Both scroll offsets respect their panes' bounds.
pub open spec fn spec_scrolls_clamped(s: ViewState, bounds: ContentBounds) -> bool {
    &&& s.home_scroll <= spec_max_scroll(bounds.tree_lines, bounds.tree_view_height)
    &&& s.git_status_scroll <= spec_max_scroll(bounds.status_lines, bounds.status_view_height)
}

/// Run the machine over a whole sequence of events, front to back.
pub open spec fn spec_run(s: ViewState, events: Seq<InputEvent>, bounds: ContentBounds) -> ViewState
    decreases events.len(),
{
    if events.len() == 0 {
        s
    } else {
        spec_run(spec_transition(s, events.first(), bounds), events.drop_first(), bounds)
    }
}

impl ViewState {
    /// Fresh state for a new session.
    pub fn init() -> (s: ViewState)
        ensures
            s == spec_init(),
    {
        ViewState { active_tab: Tab::Home, home_scroll: 0, git_status_scroll: 0, verbose: false }
    }

    /// Apply one input event, exactly as the transition table says.
    pub fn transition(&mut self, event: InputEvent, bounds: &ContentBounds)
        ensures
            *final(self) == spec_transition(*old(self), event, *bounds),
    {
        match event {
            InputEvent::ScrollDown => {
                match self.active_tab {
                    Tab::Home => {
                        let max: u16 = max_scroll(bounds.tree_lines, bounds.tree_view_height);
                        if self.home_scroll < max {
                            self.home_scroll = self.home_scroll + 1;
                        }
                    },
                    Tab::Git => {
                        let max: u16 = max_scroll(bounds.status_lines, bounds.status_view_height);
                        if self.git_status_scroll < max {
                            self.git_status_scroll = self.git_status_scroll + 1;
                        }
                    },
                }
            },
            InputEvent::ScrollUp => {
                match self.active_tab {
                    Tab::Home => {
                        if self.home_scroll > 0 {
                            self.home_scroll = self.home_scroll - 1;
                        }
                    },
                    Tab::Git => {
                        if self.git_status_scroll > 0 {
                            self.git_status_scroll = self.git_status_scroll - 1;
                        }
                    },
                }
            },
            InputEvent::TabRight => {
                if matches!(self.active_tab, Tab::Home) {
                    self.active_tab = Tab::Git;
                }
            },
            InputEvent::TabLeft => {
                if matches!(self.active_tab, Tab::Git) {
                    self.active_tab = Tab::Home;
                }
            },
            InputEvent::ToggleVerbose => {
                if matches!(self.active_tab, Tab::Git) {
                    self.verbose = !self.verbose;
                }
            },
            InputEvent::Quit => {},
        }
    }
}

/// Largest admissible scroll offset for a pane, as the clamp rule uses it.
pub fn max_scroll(lines: u16, view_height: u16) -> (m: u16)
    ensures
        m == spec_max_scroll(lines, view_height),
{
    if lines > view_height {
        lines - view_height
    } else {
        0
    }
}

/// Only a `Quit` event ends the session loop.
pub fn is_quit(event: InputEvent) -> (q: bool)
    ensures
        q == (event is Quit),
{
    matches!(event, InputEvent::Quit)
}

/// One step keeps both scroll offsets within their panes' bounds.
pub proof fn lemma_transition_preserves_clamp(s: ViewState, event: InputEvent, bounds: ContentBounds)
    requires
        spec_scrolls_clamped(s, bounds),
    ensures
        spec_scrolls_clamped(spec_transition(s, event, bounds), bounds),
{
}

/// Clamp law: from the initial state, no sequence of events — in particular
/// no sequence of `ScrollDown` events — ever pushes `home_scroll` above
/// `max(0, tree_lines - tree_view_height)`, nor `git_status_scroll` above its
/// pane's bound; as unsigned values, neither offset can go below zero.
pub proof fn lemma_run_scrolls_clamped(events: Seq<InputEvent>, bounds: ContentBounds)
    ensures
        spec_scrolls_clamped(spec_run(spec_init(), events, bounds), bounds),
{
    lemma_run_preserves_clamp(spec_init(), events, bounds);
}

/// The clamp invariant is preserved by any run of the machine.
pub proof fn lemma_run_preserves_clamp(s: ViewState, events: Seq<InputEvent>, bounds: ContentBounds)
    requires
        spec_scrolls_clamped(s, bounds),
    ensures
        spec_scrolls_clamped(spec_run(s, events, bounds), bounds),
    decreases events.len(),
{
    if events.len() > 0 {
        lemma_transition_preserves_clamp(s, events.first(), bounds);
        lemma_run_preserves_clamp(spec_transition(s, events.first(), bounds), events.drop_first(), bounds);
    }
}

/// Tab-switch idempotence: `TabRight` on the git tab and `TabLeft` on the
/// home tab are no-ops.
pub proof fn lemma_tab_switch_idempotent(s: ViewState, bounds: ContentBounds)
    ensures
        s.active_tab is Git ==> spec_transition(s, InputEvent::TabRight, bounds) == s,
        s.active_tab is Home ==> spec_transition(s, InputEvent::TabLeft, bounds) == s,
{
}

/// The verbose toggle flips the flag on the git tab, leaves the whole state
/// unchanged on the home tab, and never touches any other field.
pub proof fn lemma_toggle_verbose_only_on_git(s: ViewState, bounds: ContentBounds)
    ensures
        s.active_tab is Home ==> spec_transition(s, InputEvent::ToggleVerbose, bounds) == s,
        s.active_tab is Git ==> spec_transition(s, InputEvent::ToggleVerbose, bounds) == (ViewState {
            verbose: !s.verbose,
            ..s
        }),
{
}

} // verus!
