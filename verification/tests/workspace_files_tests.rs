use antex::workspace_files::{read_place, read_result, read_roots_check, write_check, FileRefusal, PermissionProfile};

#[test]
fn reads_go_to_the_root_or_the_first_read_root_that_holds_them() {
    assert_eq!(read_place("src/a.rs", true, &[true]), Ok(None));
    assert_eq!(read_place("../skills/x", false, &[false, true, true]), Ok(Some(1)));
    assert_eq!(read_place("/etc/passwd", false, &[false]), Err(FileRefusal::OutsideReadRoots));
    assert_eq!(read_place("", true, &[]), Err(FileRefusal::InvalidPathLength));
    assert_eq!(read_place(&"a".repeat(4097), true, &[]), Err(FileRefusal::InvalidPathLength));
    assert_eq!(read_place(&"a".repeat(4096), true, &[]), Ok(None));
    assert!(FileRefusal::OutsideReadRoots.permission_denied());
    assert_eq!(FileRefusal::OutsideReadRoots.message(), "path is outside the allowed read roots");
}

#[test]
fn reads_need_regular_files_within_16_mib() {
    assert_eq!(read_result(true, 16 * 1024 * 1024), Ok(()));
    assert_eq!(read_result(true, 16 * 1024 * 1024 + 1), Err(FileRefusal::ReadTooLarge));
    assert_eq!(read_result(false, 0), Err(FileRefusal::NotRegularFile));
    assert_eq!(read_roots_check(16), Ok(()));
    assert_eq!(read_roots_check(17), Err(FileRefusal::TooManyReadRoots));
}

#[test]
fn writes_are_refused_read_only_first_then_by_size_then_by_path() {
    assert_eq!(write_check(PermissionProfile::ReadOnly, 1 << 30, "", false), Err(FileRefusal::ReadOnly));
    assert_eq!(write_check(PermissionProfile::Workspace, (16 << 20) + 1, "", false), Err(FileRefusal::WriteTooLarge));
    assert_eq!(write_check(PermissionProfile::Workspace, 3, "", true), Err(FileRefusal::InvalidPathLength));
    assert_eq!(write_check(PermissionProfile::Full, 3, "a", false), Err(FileRefusal::OutsideRoot));
    assert_eq!(write_check(PermissionProfile::Workspace, 3, "a", true), Ok(()));
    assert_eq!(FileRefusal::ReadOnly.message(), "read-only profile forbids writes");
}
