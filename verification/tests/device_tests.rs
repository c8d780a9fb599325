use swayboard::Error;
use swayboard::device::{InputDevice, current_layout_of, find_keyboard_device, keyboards_of, layouts_of};
use swayboard::layout::LayoutError;

fn device(
    identifier: &str,
    input_type: &str,
    names: &[&str],
    index: Option<usize>,
    active: Option<&str>,
) -> InputDevice {
    InputDevice {
        identifier: identifier.to_owned(),
        input_type: input_type.to_owned(),
        xkb_layout_names: names.iter().map(|n| (*n).to_owned()).collect(),
        xkb_active_layout_index: index,
        xkb_active_layout_name: active.map(|n| n.to_owned()),
    }
}

#[test]
fn keyboards_of_filters_by_class_in_order() {
    let devices = vec![
        device("mouse0", "pointer", &[], None, None),
        device("kbd0", "keyboard", &["us"], Some(0), Some("us")),
        device("kbd1", "keyboard", &["de"], Some(0), Some("de")),
        device("pad0", "touchpad", &[], None, None),
    ];
    assert_eq!(keyboards_of(&devices), vec!["kbd0".to_owned(), "kbd1".to_owned()]);
}

#[test]
fn keyboards_of_accepts_empty_result() {
    let devices = vec![device("mouse0", "pointer", &[], None, None)];
    assert!(keyboards_of(&devices).is_empty());
}

#[test]
fn find_keyboard_device_wants_class_and_identifier() {
    let devices = vec![
        device("kbd0", "pointer", &["us"], None, None),
        device("kbd0", "keyboard", &["de"], Some(0), Some("de")),
    ];
    let found = find_keyboard_device(&devices, &"kbd0".to_owned()).unwrap();
    assert_eq!(found.xkb_layout_names, vec!["de".to_owned()]);
    assert!(find_keyboard_device(&devices, &"kbd9".to_owned()).is_none());
}

#[test]
fn layouts_of_enumerates_configured_names() {
    let devices = vec![device("kbd0", "keyboard", &["us", "de"], Some(0), Some("us"))];
    let layouts = layouts_of(&devices, &"kbd0".to_owned());
    assert_eq!(layouts.len(), 2);
    assert_eq!(layouts[0].id, 0);
    assert_eq!(layouts[0].name, "us");
    assert_eq!(layouts[1].id, 1);
    assert_eq!(layouts[1].name, "de");
}

#[test]
fn layouts_of_unknown_device_is_empty() {
    let devices = vec![device("kbd0", "keyboard", &["us"], Some(0), Some("us"))];
    assert!(layouts_of(&devices, &"kbd9".to_owned()).is_empty());
}

#[test]
fn current_layout_of_reads_active_layout() {
    let devices = vec![
        device("kbd0", "keyboard", &["us", "de"], Some(1), Some("de")),
    ];
    let l = current_layout_of(&devices, &"kbd0".to_owned()).unwrap();
    assert_eq!(l.id, 1);
    assert_eq!(l.name, "de");
}

#[test]
fn current_layout_of_unknown_device_fails() {
    let devices = vec![device("kbd0", "keyboard", &["us"], Some(0), Some("us"))];
    match current_layout_of(&devices, &"kbd9".to_owned()) {
        Err(Error::DeviceNotFound) => {}
        other => panic!("expected DeviceNotFound, got {other:?}"),
    }
}

#[test]
fn current_layout_of_without_metadata_fails() {
    let devices = vec![device("kbd0", "keyboard", &["us"], None, None)];
    match current_layout_of(&devices, &"kbd0".to_owned()) {
        Err(Error::Layout(LayoutError::LayoutDetection(msg))) => {
            assert_eq!(msg, "layout index not found");
        }
        other => panic!("expected a layout detection error, got {other:?}"),
    }
}
