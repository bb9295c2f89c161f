use tray_overlay::handle::{
    is_valid_raw, HandleAcquisitionError, HandleKind, NativeHandle, ReleaseRequest, INVALID_HANDLE,
    NULL_HANDLE,
};

#[test]
fn null_and_invalid_marker_have_their_platform_values() {
    assert_eq!(NULL_HANDLE, 0);
    assert_eq!(INVALID_HANDLE, -1);
}

#[test]
fn raw_validity_depends_on_the_kind() {
    assert!(is_valid_raw(HandleKind::Icon, 0x1234));
    assert!(!is_valid_raw(HandleKind::Icon, 0));
    assert!(!is_valid_raw(HandleKind::Icon, -1));
    assert!(is_valid_raw(HandleKind::Icon, -2));
    assert!(is_valid_raw(HandleKind::Window, 0x1234));
    assert!(!is_valid_raw(HandleKind::Window, 0));
    assert!(is_valid_raw(HandleKind::Window, -1));
    assert!(is_valid_raw(HandleKind::Icon, isize::MAX));
    assert!(is_valid_raw(HandleKind::Icon, isize::MIN));
}

#[test]
fn acquire_owns_a_valid_handle() {
    let handle = NativeHandle::acquire(HandleKind::Icon, 0x00AB_CDEF).unwrap();
    assert_eq!(handle.kind(), HandleKind::Icon);
    assert_eq!(handle.raw(), 0x00AB_CDEF);
    assert_eq!(handle.raw(), 0x00AB_CDEF);
}

#[test]
fn acquire_refuses_the_null_handle() {
    let refused = NativeHandle::acquire(HandleKind::Icon, 0).unwrap_err();
    assert_eq!(refused, HandleAcquisitionError { kind: HandleKind::Icon, raw: 0 });
    let refused = NativeHandle::acquire(HandleKind::Window, 0).unwrap_err();
    assert_eq!(refused, HandleAcquisitionError { kind: HandleKind::Window, raw: 0 });
}

#[test]
fn acquire_refuses_the_invalid_marker_for_icons_only() {
    let refused = NativeHandle::acquire(HandleKind::Icon, -1).unwrap_err();
    assert_eq!(refused, HandleAcquisitionError { kind: HandleKind::Icon, raw: -1 });
    let window = NativeHandle::acquire(HandleKind::Window, -1).unwrap();
    assert_eq!(window.raw(), -1);
}

#[test]
fn acquire_never_builds_a_wrapper_from_an_invalid_raw_value() {
    for kind in [HandleKind::Icon, HandleKind::Window] {
        for raw in [-1isize, 0, 1, 2, 77, isize::MAX, isize::MIN] {
            let acquired = NativeHandle::acquire(kind, raw);
            assert_eq!(acquired.is_ok(), is_valid_raw(kind, raw));
            match acquired {
                Ok(handle) => {
                    assert_eq!(handle.raw(), raw);
                    assert_eq!(handle.kind(), kind);
                }
                Err(e) => assert_eq!(e, HandleAcquisitionError { kind, raw }),
            }
        }
    }
}

#[test]
fn release_to_external_hands_out_the_raw_value() {
    let handle = NativeHandle::acquire(HandleKind::Icon, 4242).unwrap();
    let raw: isize = handle.release_to_external();
    assert_eq!(raw, 4242);
}

#[test]
fn into_release_names_the_call_that_is_owed() {
    let handle = NativeHandle::acquire(HandleKind::Icon, 99).unwrap();
    assert_eq!(handle.into_release(), ReleaseRequest { kind: HandleKind::Icon, raw: 99 });
    let handle = NativeHandle::acquire(HandleKind::Window, 7).unwrap();
    assert_eq!(handle.into_release(), ReleaseRequest { kind: HandleKind::Window, raw: 7 });
}
