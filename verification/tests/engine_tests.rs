use delprotect::control::dispatch_device_control;
use delprotect::control::ControlStatus;
use delprotect::control::IOCTL_DELPROTECT_ADD_EXE_UTF8;
use delprotect::control::IOCTL_DELPROTECT_CLEAR;
use delprotect::engine::pre_create;
use delprotect::engine::pre_set_information;
use delprotect::engine::PreopVerdict;
use delprotect::engine::FILE_DELETE_ON_CLOSE;
use delprotect::engine::FILE_DISPOSITION_INFORMATION;
use delprotect::engine::FILE_DISPOSITION_INFORMATION_EX;
use delprotect::registry::ProtectedNameRegistry;

fn protecting(name: &[u8]) -> ProtectedNameRegistry {
    let mut reg = ProtectedNameRegistry::new();
    reg.push_item(name.to_vec());
    reg
}

#[test]
fn kernel_requests_pass_unconditionally() {
    let reg = protecting(b"cmd.exe");
    let path = b"C:\\Windows\\System32\\cmd.exe".to_vec();
    let v = pre_create(&reg, true, FILE_DELETE_ON_CLOSE, Some(&path));
    assert_eq!(v, PreopVerdict::PassThrough);
}

#[test]
fn open_without_delete_on_close_passes() {
    let reg = protecting(b"cmd.exe");
    let path = b"C:\\Windows\\System32\\cmd.exe".to_vec();
    let v = pre_create(&reg, false, 0, Some(&path));
    assert_eq!(v, PreopVerdict::PassThrough);
}

#[test]
fn delete_on_close_by_protected_process_is_denied() {
    let reg = protecting(b"cmd.exe");
    let path = b"C:\\Windows\\System32\\cmd.exe".to_vec();
    let v = pre_create(&reg, false, FILE_DELETE_ON_CLOSE, Some(&path));
    assert_eq!(v, PreopVerdict::CompleteAccessDenied);
}

#[test]
fn delete_on_close_with_other_options_set_is_still_denied() {
    let reg = protecting(b"cmd.exe");
    let path = b"C:\\Windows\\System32\\cmd.exe".to_vec();
    let v = pre_create(&reg, false, FILE_DELETE_ON_CLOSE | 0x20, Some(&path));
    assert_eq!(v, PreopVerdict::CompleteAccessDenied);
}

#[test]
fn unresolvable_identity_fails_open_on_create() {
    let reg = protecting(b"cmd.exe");
    let v = pre_create(&reg, false, FILE_DELETE_ON_CLOSE, None);
    assert_eq!(v, PreopVerdict::PassThrough);
}

#[test]
fn other_information_classes_pass_untouched() {
    let reg = protecting(b"cmd.exe");
    let path = b"C:\\Windows\\System32\\cmd.exe".to_vec();
    // FileBasicInformation, for one.
    let v = pre_set_information(&reg, 4, 1, Some(&path));
    assert_eq!(v, PreopVerdict::PassThrough);
}

#[test]
fn disposition_with_clear_delete_flag_passes() {
    let reg = protecting(b"cmd.exe");
    let path = b"C:\\Windows\\System32\\cmd.exe".to_vec();
    let v = pre_set_information(&reg, FILE_DISPOSITION_INFORMATION, 0, Some(&path));
    assert_eq!(v, PreopVerdict::PassThrough);
}

#[test]
fn disposition_delete_by_protected_process_is_denied() {
    let reg = protecting(b"cmd.exe");
    let path = b"C:\\Windows\\System32\\cmd.exe".to_vec();
    let v = pre_set_information(&reg, FILE_DISPOSITION_INFORMATION, 1, Some(&path));
    assert_eq!(v, PreopVerdict::CompleteAccessDenied);
}

#[test]
fn extended_disposition_is_also_covered() {
    let reg = protecting(b"cmd.exe");
    let path = b"C:\\Windows\\System32\\cmd.exe".to_vec();
    let v = pre_set_information(&reg, FILE_DISPOSITION_INFORMATION_EX, 1, Some(&path));
    assert_eq!(v, PreopVerdict::CompleteAccessDenied);
}

#[test]
fn unresolvable_identity_fails_open_on_set_information() {
    let reg = protecting(b"cmd.exe");
    let v = pre_set_information(&reg, FILE_DISPOSITION_INFORMATION, 1, None);
    assert_eq!(v, PreopVerdict::PassThrough);
}

#[test]
fn end_to_end_add_deny_clear_allow() {
    let mut reg = ProtectedNameRegistry::new();
    let status =
        dispatch_device_control(&mut reg, IOCTL_DELPROTECT_ADD_EXE_UTF8, &b"cmd.exe\0".to_vec());
    assert_eq!(status, ControlStatus::Success);

    let path = b"C:\\Windows\\System32\\cmd.exe".to_vec();
    let denied = pre_create(&reg, false, FILE_DELETE_ON_CLOSE, Some(&path));
    assert_eq!(denied, PreopVerdict::CompleteAccessDenied);

    let status = dispatch_device_control(&mut reg, IOCTL_DELPROTECT_CLEAR, &Vec::new());
    assert_eq!(status, ControlStatus::Success);
    let allowed = pre_create(&reg, false, FILE_DELETE_ON_CLOSE, Some(&path));
    assert_eq!(allowed, PreopVerdict::PassThrough);
}
