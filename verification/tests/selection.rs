use cam_controls::descriptor::{ControlDescriptor, ControlKind};
use cam_controls::selection::{device_label, Selection, SelectionError};

fn slider(id: u32, default: i64) -> ControlDescriptor {
    ControlDescriptor {
        id,
        name: format!("slider {id}"),
        kind: ControlKind::IntegerRange,
        minimum: 0,
        maximum: 100,
        default,
        items: Vec::new(),
    }
}

#[test]
fn new_selection_is_unselected() {
    let s = Selection::new();
    assert!(s.selected.is_none());
    assert_eq!(s.selected_name, "");
    assert!(s.cached_device.is_none());
}

#[test]
fn rebuild_is_needed_on_a_new_path_or_a_forced_refresh() {
    let mut s = Selection::new();
    assert!(!s.needs_rebuild(&None, false));
    assert!(!s.needs_rebuild(&None, true));
    assert!(s.needs_rebuild(&Some("/dev/video0".to_string()), false));
    assert!(s
        .install("/dev/video0".to_string(), "cam @ /dev/video0".to_string(), Ok(vec![slider(1, 5)]))
        .is_ok());
    assert!(!s.needs_rebuild(&Some("/dev/video0".to_string()), false));
    assert!(s.needs_rebuild(&Some("/dev/video0".to_string()), true));
    assert!(s.needs_rebuild(&Some("/dev/video1".to_string()), false));
    assert!(!s.needs_rebuild(&None, true));
}

#[test]
fn switching_devices_discards_the_old_cache_and_its_edits() {
    let mut s = Selection::new();
    let r = s.install("A".to_string(), "a @ A".to_string(), Ok(vec![slider(1, 5), slider(2, 6)]));
    assert_eq!(r, Ok(()));
    assert!(s.cached_device.as_mut().unwrap().set_value(0, 9));
    assert_eq!(s.cached_device.as_ref().unwrap().value(0), Some(9));

    let r = s.install("B".to_string(), "b @ B".to_string(), Ok(vec![slider(7, 1)]));
    assert_eq!(r, Ok(()));
    assert_eq!(s.selected, Some("B".to_string()));
    assert_eq!(s.selected_name, "b @ B");
    let cd = s.cached_device.as_mut().unwrap();
    assert_eq!(cd.len(), 1);
    assert_eq!(cd.value(0), Some(1));
    assert_eq!(cd.descriptor(0).map(|d| d.id), Some(7));
    let mut pass = cd.begin_pass(false);
    assert_eq!(pass.next_write(), None);
}

#[test]
fn forced_refresh_of_the_same_path_resets_edits() {
    let mut s = Selection::new();
    assert!(s.install("A".to_string(), "a".to_string(), Ok(vec![slider(1, 5)])).is_ok());
    assert!(s.cached_device.as_mut().unwrap().set_value(0, 9));
    assert!(s.install("A".to_string(), "a".to_string(), Ok(vec![slider(1, 5)])).is_ok());
    assert_eq!(s.cached_device.as_ref().unwrap().value(0), Some(5));
}

#[test]
fn failed_open_keeps_the_previous_session() {
    let mut s = Selection::new();
    assert!(s.install("A".to_string(), "a @ A".to_string(), Ok(vec![slider(1, 5)])).is_ok());
    assert!(s.cached_device.as_mut().unwrap().set_value(0, 9));
    let r = s.install("B".to_string(), "b @ B".to_string(), Err(SelectionError::OpenError));
    assert_eq!(r, Err(SelectionError::OpenError));
    assert_eq!(s.selected, Some("A".to_string()));
    assert_eq!(s.selected_name, "a @ A");
    assert_eq!(s.cached_device.as_ref().unwrap().value(0), Some(9));
}

#[test]
fn failed_enumeration_keeps_the_previous_session() {
    let mut s = Selection::new();
    let r = s.install("B".to_string(), "b".to_string(), Err(SelectionError::EnumerationError));
    assert_eq!(r, Err(SelectionError::EnumerationError));
    assert!(s.selected.is_none());
    assert!(s.cached_device.is_none());

    assert!(s.install("A".to_string(), "a".to_string(), Ok(vec![slider(1, 5)])).is_ok());
    let r = s.install("B".to_string(), "b".to_string(), Err(SelectionError::EnumerationError));
    assert_eq!(r, Err(SelectionError::EnumerationError));
    assert_eq!(s.selected, Some("A".to_string()));
    assert_eq!(s.cached_device.as_ref().unwrap().len(), 1);
}

#[test]
fn label_joins_name_and_path() {
    assert_eq!(device_label("Integrated Camera", "/dev/video0"), "Integrated Camera @ /dev/video0");
    assert_eq!(device_label("", "/dev/video3"), " @ /dev/video3");
    assert_eq!(device_label("", ""), " @ ");
}
