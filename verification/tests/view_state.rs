use pstat::view::is_quit;
use pstat::view::max_scroll;
use pstat::view::ContentBounds;
use pstat::view::InputEvent;
use pstat::view::Tab;
use pstat::view::ViewState;

fn bounds() -> ContentBounds {
    ContentBounds { tree_lines: 25, tree_view_height: 20, status_lines: 16, status_view_height: 13 }
}

#[test]
fn initial_state_is_home_zero_scroll() {
    let s = ViewState::init();
    assert_eq!(s.active_tab, Tab::Home);
    assert_eq!(s.home_scroll, 0);
    assert_eq!(s.git_status_scroll, 0);
    assert!(!s.verbose);
}

#[test]
fn max_scroll_clamps_short_content_to_zero() {
    assert_eq!(max_scroll(25, 20), 5);
    assert_eq!(max_scroll(20, 20), 0);
    assert_eq!(max_scroll(3, 20), 0);
}

#[test]
fn scroll_down_never_exceeds_bound() {
    let b = bounds();
    let mut s = ViewState::init();
    for _ in 0..50 {
        s.transition(InputEvent::ScrollDown, &b);
        assert!(s.home_scroll <= 5);
    }
    assert_eq!(s.home_scroll, 5);
}

#[test]
fn scroll_up_never_goes_below_zero() {
    let b = bounds();
    let mut s = ViewState::init();
    s.transition(InputEvent::ScrollUp, &b);
    assert_eq!(s.home_scroll, 0);
    s.transition(InputEvent::ScrollDown, &b);
    s.transition(InputEvent::ScrollUp, &b);
    s.transition(InputEvent::ScrollUp, &b);
    assert_eq!(s.home_scroll, 0);
}

#[test]
fn git_tab_scrolls_status_pane() {
    let b = bounds();
    let mut s = ViewState::init();
    s.transition(InputEvent::TabRight, &b);
    assert_eq!(s.active_tab, Tab::Git);
    for _ in 0..10 {
        s.transition(InputEvent::ScrollDown, &b);
    }
    assert_eq!(s.git_status_scroll, 3);
    assert_eq!(s.home_scroll, 0);
    s.transition(InputEvent::ScrollUp, &b);
    assert_eq!(s.git_status_scroll, 2);
}

#[test]
fn tab_switch_is_idempotent() {
    let b = bounds();
    let mut s = ViewState::init();
    s.transition(InputEvent::TabLeft, &b);
    assert_eq!(s, ViewState::init());
    s.transition(InputEvent::TabRight, &b);
    let on_git = s;
    s.transition(InputEvent::TabRight, &b);
    assert_eq!(s, on_git);
    s.transition(InputEvent::TabLeft, &b);
    assert_eq!(s.active_tab, Tab::Home);
}

#[test]
fn toggle_verbose_only_acts_on_git_tab() {
    let b = bounds();
    let mut s = ViewState::init();
    s.transition(InputEvent::ToggleVerbose, &b);
    assert_eq!(s, ViewState::init());
    s.transition(InputEvent::TabRight, &b);
    s.transition(InputEvent::ToggleVerbose, &b);
    assert!(s.verbose);
    s.transition(InputEvent::ToggleVerbose, &b);
    assert!(!s.verbose);
}

#[test]
fn quit_leaves_state_unchanged() {
    let b = bounds();
    let mut s = ViewState::init();
    s.transition(InputEvent::Quit, &b);
    assert_eq!(s, ViewState::init());
    assert!(is_quit(InputEvent::Quit));
    assert!(!is_quit(InputEvent::ScrollDown));
}
