use tray_shell::dialog::{folder_dialog_title, settle_folder_selection, FolderHandoff};

#[test]
fn cancellation_is_an_absent_value_not_an_error() {
    assert_eq!(settle_folder_selection(Ok(None)), Ok(None));
}

#[test]
fn a_picked_path_is_returned_unmodified() {
    let picked = Some("/home/user/workspace".to_string());
    assert_eq!(settle_folder_selection(Ok(picked.clone())), Ok(picked));
}

#[test]
fn a_failed_receive_is_a_prefixed_error() {
    let r = settle_folder_selection(Err("receiving on an empty and disconnected channel".to_string()));
    assert_eq!(
        r,
        Err("Failed to receive folder path: receiving on an empty and disconnected channel"
            .to_string())
    );
}

#[test]
fn handoff_round_trips_a_picked_path() {
    let mut slot = FolderHandoff::new();
    slot.send(Some("/data/projects".to_string()));
    assert_eq!(slot.take(), Some("/data/projects".to_string()));
}

#[test]
fn handoff_round_trips_a_cancellation() {
    let mut slot = FolderHandoff::new();
    slot.send(None);
    assert_eq!(slot.take(), None);
}

#[test]
fn concurrent_invocations_do_not_cross_talk() {
    let mut first = FolderHandoff::new();
    let mut second = FolderHandoff::new();
    first.send(Some("/caller/one".to_string()));
    second.send(Some("/caller/two".to_string()));
    assert_eq!(first.take(), Some("/caller/one".to_string()));
    assert_eq!(second.take(), Some("/caller/two".to_string()));
}

#[test]
fn dialog_title_is_fixed() {
    assert_eq!(folder_dialog_title(), "选择工作区文件夹".to_string());
}
