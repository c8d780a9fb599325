use swayboard::Error;
use swayboard::device::InputDevice;
use swayboard::layout::{Layout, LayoutError};
use swayboard::manager::{Action, Event, LayoutManager, LayoutPolicy, WindowChange, WindowEventData};

fn layout(id: usize, name: &str) -> Layout {
    Layout::from((id, &name.to_owned()))
}

fn input_event(names: &[&str], active: Option<&str>) -> InputDevice {
    InputDevice {
        identifier: "kbd0".to_owned(),
        input_type: "keyboard".to_owned(),
        xkb_layout_names: names.iter().map(|n| (*n).to_owned()).collect(),
        xkb_active_layout_index: None,
        xkb_active_layout_name: active.map(|n| n.to_owned()),
    }
}

fn manager() -> LayoutManager {
    LayoutManager::new("kbd0".to_owned(), None)
}

#[test]
fn new_manager_knows_nothing_yet() {
    let m = manager();
    assert_eq!(m.device(), "kbd0");
    assert!(m.get_layout().is_none());
    assert!(m.current_container().is_none());
    assert!(m.cached_layout_of(1).is_none());
    assert!(matches!(m.policy(), LayoutPolicy::Previous));
}

#[test]
fn set_layout_issues_nothing_when_layout_matches() {
    let mut m = manager();
    m.seed_current_layout(Some(layout(1, "de")));
    assert!(m.set_layout(&layout(1, "de")).is_none());
}

#[test]
fn set_layout_issues_one_command_when_layout_differs() {
    let mut m = manager();
    m.seed_current_layout(Some(layout(1, "de")));
    let cmd = m.set_layout(&layout(0, "us")).unwrap();
    assert!(cmd == layout(0, "us"));
    // with no layout believed active yet, a command is also owed
    let m2 = manager();
    assert!(m2.set_layout(&layout(1, "de")).is_some());
}

#[test]
fn scenario_focus_then_input_change() {
    // device layouts [(0,"us"),(1,"de")]; focus window 1 with an empty cache
    let mut m = manager();
    let a = m.handle_focus_change(1);
    assert!(matches!(a, Action::Query));
    // the live query answers (0,"us"); the cache is seeded with it
    m.seed_current_container(layout(0, "us"));
    assert!(m.cached_layout_of(1).unwrap() == layout(0, "us"));
    // an input-change reports active name "de"
    m.handle_input_event(&input_event(&["us", "de"], Some("de"))).unwrap();
    assert!(m.get_layout().unwrap() == layout(1, "de"));
    assert!(m.cached_layout_of(1).unwrap() == layout(1, "de"));
}

#[test]
fn scenario_new_window_is_seeded_without_command() {
    // focus window 2 (never seen) while (1,"de") is believed active
    let mut m = manager();
    m.seed_current_layout(Some(layout(1, "de")));
    let a = m.handle_focus_change(2);
    assert!(matches!(a, Action::Nothing));
    assert!(m.cached_layout_of(2).unwrap() == layout(1, "de"));
}

#[test]
fn scenario_matching_cache_issues_nothing() {
    // focus back on window 1 whose remembered layout already matches
    let mut m = manager();
    m.seed_current_layout(Some(layout(1, "de")));
    m.handle_focus_change(1);
    m.seed_current_layout(Some(layout(1, "de")));
    let a = m.handle_focus_change(1);
    assert!(matches!(a, Action::Nothing));
}

#[test]
fn scenario_differing_cache_issues_one_switch() {
    // window 1 remembers (0,"us") while (1,"de") is believed active
    let mut m = manager();
    m.handle_focus_change(1);
    m.seed_current_container(layout(0, "us"));
    m.seed_current_layout(Some(layout(1, "de")));
    let a = m.handle_focus_change(1);
    match a {
        Action::Switch(l) => assert!(l == layout(0, "us")),
        other => panic!("expected a switch command, got {other:?}"),
    }
}

#[test]
fn scenario_close_evicts_the_cache_entry() {
    // window 2 is remembered, then closed: the next focus queries afresh
    let mut m = manager();
    let a = m.handle_focus_change(2);
    assert!(matches!(a, Action::Query));
    m.seed_current_container(layout(0, "us"));
    assert!(m.cached_layout_of(2).is_some());
    m.handle_window_close(2);
    assert!(m.cached_layout_of(2).is_none());
    let a = m.handle_focus_change(2);
    assert!(matches!(a, Action::Query));
}

#[test]
fn focus_and_close_leave_current_layout_alone() {
    let mut m = manager();
    m.seed_current_layout(Some(layout(1, "de")));
    m.handle_focus_change(1);
    m.handle_focus_change(2);
    m.handle_window_close(1);
    m.handle_focus_change(1);
    m.handle_window_close(2);
    assert!(m.get_layout().unwrap() == layout(1, "de"));
}

#[test]
fn close_then_focus_behaves_like_never_seen() {
    let mut m = manager();
    m.seed_current_layout(Some(layout(0, "us")));
    // remember (1,"de") for window 3 through the event path
    m.handle_focus_change(3);
    m.handle_input_event(&input_event(&["us", "de"], Some("de"))).unwrap();
    assert!(m.cached_layout_of(3).unwrap() == layout(1, "de"));
    m.handle_window_close(3);
    // no stale restoration: the focus seeds from the believed layout
    let a = m.handle_focus_change(3);
    assert!(matches!(a, Action::Nothing));
    assert!(m.cached_layout_of(3).unwrap() == layout(1, "de"));
}

#[test]
fn repeated_input_event_changes_nothing_the_second_time() {
    let mut m = manager();
    m.handle_focus_change(1);
    m.handle_input_event(&input_event(&["us", "de"], Some("de"))).unwrap();
    let layout_after_first = m.get_layout().unwrap();
    let cached_after_first = m.cached_layout_of(1).unwrap();
    m.handle_input_event(&input_event(&["us", "de"], Some("de"))).unwrap();
    assert!(m.get_layout().unwrap() == layout_after_first);
    assert!(m.cached_layout_of(1).unwrap() == cached_after_first);
}

#[test]
fn malformed_input_event_changes_nothing() {
    let mut m = manager();
    m.seed_current_layout(Some(layout(0, "us")));
    m.handle_focus_change(1);
    // active name missing
    let err = m.handle_input_event(&input_event(&["us", "de"], None)).unwrap_err();
    match err {
        Error::Layout(LayoutError::LayoutDetection(msg)) => {
            assert_eq!(msg, "Unable to detect current active layout");
        }
        other => panic!("expected a layout detection error, got {other:?}"),
    }
    // active name not among the configured ones
    let err = m.handle_input_event(&input_event(&["us", "de"], Some("fr"))).unwrap_err();
    assert!(matches!(err, Error::Layout(LayoutError::LayoutDetection(_))));
    assert!(m.get_layout().unwrap() == layout(0, "us"));
    assert!(m.cached_layout_of(1).unwrap() == layout(0, "us"));
}

#[test]
fn handle_event_dispatches_window_and_input_events() {
    let mut m = manager();
    m.seed_current_layout(Some(layout(0, "us")));
    let a = m
        .handle_event(&Event::Window(WindowEventData { change: WindowChange::Focus, container_id: 7 }))
        .unwrap();
    assert!(matches!(a, Action::Nothing));
    assert!(m.cached_layout_of(7).unwrap() == layout(0, "us"));
    let a = m.handle_event(&Event::Input(input_event(&["us", "de"], Some("de")))).unwrap();
    assert!(matches!(a, Action::Nothing));
    assert!(m.get_layout().unwrap() == layout(1, "de"));
    let a = m
        .handle_event(&Event::Window(WindowEventData { change: WindowChange::Close, container_id: 7 }))
        .unwrap();
    assert!(matches!(a, Action::Nothing));
    assert!(m.cached_layout_of(7).is_none());
}

#[test]
fn handle_event_ignores_other_events_and_survives_bad_input() {
    let mut m = manager();
    m.seed_current_layout(Some(layout(0, "us")));
    m.handle_focus_change(1);
    let a = m
        .handle_event(&Event::Window(WindowEventData { change: WindowChange::Other, container_id: 1 }))
        .unwrap();
    assert!(matches!(a, Action::Nothing));
    let a = m.handle_event(&Event::Other).unwrap();
    assert!(matches!(a, Action::Nothing));
    // a malformed input event reports an error but leaves the state usable
    let err = m.handle_event(&Event::Input(input_event(&["us"], Some("fr")))).unwrap_err();
    assert!(matches!(err, Error::Layout(_)));
    assert!(m.get_layout().unwrap() == layout(0, "us"));
    let a = m.handle_event(&Event::Other).unwrap();
    assert!(matches!(a, Action::Nothing));
}

#[test]
fn manager_queries_delegate_to_the_device_list() {
    let m = manager();
    let devices = vec![
        InputDevice {
            identifier: "kbd0".to_owned(),
            input_type: "keyboard".to_owned(),
            xkb_layout_names: vec!["us".to_owned(), "de".to_owned()],
            xkb_active_layout_index: Some(0),
            xkb_active_layout_name: Some("us".to_owned()),
        },
        InputDevice {
            identifier: "mouse0".to_owned(),
            input_type: "pointer".to_owned(),
            xkb_layout_names: vec![],
            xkb_active_layout_index: None,
            xkb_active_layout_name: None,
        },
    ];
    assert_eq!(m.keyboards(&devices), vec!["kbd0".to_owned()]);
    let layouts = m.layouts(&devices);
    assert_eq!(layouts.len(), 2);
    assert!(layouts[1] == layout(1, "de"));
}
