use cursor_override::cursor::{Cursor, CursorKind, LoadError, SystemSlot};

fn all_kinds() -> Vec<CursorKind> {
    vec![
        CursorKind::AppStarting,
        CursorKind::Normal,
        CursorKind::Crosshair,
        CursorKind::Hand,
        CursorKind::Ibeam,
        CursorKind::No,
        CursorKind::SizeAll,
        CursorKind::SizeNeSw,
        CursorKind::SizeNs,
        CursorKind::SizeNwSe,
        CursorKind::SizeWe,
        CursorKind::Up,
        CursorKind::Wait,
    ]
}

#[test]
fn kind_ids_are_the_system_identifiers() {
    assert_eq!(CursorKind::AppStarting.as_id(), 32650);
    assert_eq!(CursorKind::Normal.as_id(), 32512);
    assert_eq!(CursorKind::Crosshair.as_id(), 32515);
    assert_eq!(CursorKind::Hand.as_id(), 32649);
    assert_eq!(CursorKind::Ibeam.as_id(), 32513);
    assert_eq!(CursorKind::No.as_id(), 32648);
    assert_eq!(CursorKind::SizeAll.as_id(), 32646);
    assert_eq!(CursorKind::SizeNeSw.as_id(), 32643);
    assert_eq!(CursorKind::SizeNs.as_id(), 32645);
    assert_eq!(CursorKind::SizeNwSe.as_id(), 32642);
    assert_eq!(CursorKind::SizeWe.as_id(), 32644);
    assert_eq!(CursorKind::Up.as_id(), 32516);
    assert_eq!(CursorKind::Wait.as_id(), 32514);
}

#[test]
fn kind_names_are_readable() {
    assert_eq!(CursorKind::AppStarting.as_str(), "AppStarting");
    assert_eq!(CursorKind::Normal.as_str(), "Normal");
    assert_eq!(CursorKind::Crosshair.as_str(), "Crosshair");
    assert_eq!(CursorKind::Hand.as_str(), "Hand");
    assert_eq!(CursorKind::Ibeam.as_str(), "IBeam");
    assert_eq!(CursorKind::No.as_str(), "No");
    assert_eq!(CursorKind::SizeAll.as_str(), "SizeAll");
    assert_eq!(CursorKind::SizeNeSw.as_str(), "SizeNeSw");
    assert_eq!(CursorKind::SizeNs.as_str(), "SizeNS");
    assert_eq!(CursorKind::SizeNwSe.as_str(), "SizeNWSE");
    assert_eq!(CursorKind::SizeWe.as_str(), "SizeWE");
    assert_eq!(CursorKind::Up.as_str(), "Up");
    assert_eq!(CursorKind::Wait.as_str(), "Wait");
}

#[test]
fn load_then_release_frees_the_acquired_handle() {
    let handle: u64 = 7001;
    let cursor = Cursor::from_file(handle, 0).expect("nonzero handle loads");
    // Releasing hands back exactly the handle the load acquired, and the
    // move-only value is gone afterwards: nothing leaks, nothing doubles.
    assert_eq!(cursor.release(), handle);
}

#[test]
fn missing_file_reports_resource_not_found() {
    let r = Cursor::from_file(0, 2);
    assert_eq!(r, Err(LoadError::ResourceNotFound));
}

#[test]
fn other_load_failures_are_platform_errors() {
    let r = Cursor::from_file(0, 5);
    assert_eq!(r, Err(LoadError::PlatformError(5)));
    let r2 = Cursor::from_file(0, 0);
    assert_eq!(r2, Err(LoadError::PlatformError(0)));
}

#[test]
fn install_then_revert_restores_every_kind() {
    for kind in all_kinds() {
        let prior_handle: u64 = 10;
        let prior_image: u64 = 100;
        let mut slot = SystemSlot::new(kind, prior_handle, prior_image);

        let replacement = Cursor::from_file(7, 0).expect("load");
        let (replaced, install) = replacement.replace_system(&mut slot, 55);
        assert_eq!(install.handle, 7);
        assert_eq!(install.id, kind.as_id());
        assert_eq!(slot.current_handle(), 7);
        assert_eq!(slot.current_image(), 7);

        let revert = replaced.revert(&mut slot);
        assert_eq!(revert.handle, 55);
        assert_eq!(revert.id, kind.as_id());
        // The slot shows the same image as before the override; the handle is
        // the retained private copy's.
        assert_eq!(slot.current_image(), prior_image);
        assert_eq!(slot.current_handle(), 55);
        assert_eq!(slot.kind(), kind);
    }
}

#[test]
fn reverting_twice_equals_reverting_once() {
    let mut slot = SystemSlot::new(CursorKind::Normal, 10, 100);
    let replacement = Cursor::from_file(7, 0).expect("load");
    let (replaced, _install) = replacement.replace_system(&mut slot, 55);

    let first = replaced.revert(&mut slot);
    let handle_once = slot.current_handle();
    let image_once = slot.current_image();

    let second = replaced.revert(&mut slot);
    assert_eq!(second, first);
    assert_eq!(slot.current_handle(), handle_once);
    assert_eq!(slot.current_image(), image_once);
    assert_eq!(slot.current_image(), 100);
}
