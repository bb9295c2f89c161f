use std::num::NonZeroIsize;
use std::num::NonZeroU32;

use raw_window_handle::{RawWindowHandle, Win32WindowHandle, XcbWindowHandle, XlibWindowHandle};
use tray_overlay::handle::HandleKind;
use tray_overlay::platform::{
    always_on_top, enable_alpha, extract_icon, load_icon_from_exe, set_opacity, to_hwnd,
    ChromeCommand, ChromeError, IconExtractionError, WindowHandle, GWL_EXSTYLE, HWND_TOPMOST,
    LWA_ALPHA, SWP_NOMOVE, SWP_NOSIZE, WS_EX_LAYERED,
};

fn win32(hwnd: isize) -> RawWindowHandle {
    RawWindowHandle::Win32(Win32WindowHandle::new(NonZeroIsize::new(hwnd).unwrap()))
}

#[test]
fn platform_constants_have_their_platform_values() {
    assert_eq!(GWL_EXSTYLE, -20);
    assert_eq!(WS_EX_LAYERED, 0x80000);
    assert_eq!(WS_EX_LAYERED, 524288);
    assert_eq!(LWA_ALPHA, 2);
    assert_eq!(SWP_NOSIZE, 1);
    assert_eq!(SWP_NOMOVE, 2);
    assert_eq!(HWND_TOPMOST, -1);
}

#[test]
fn from_raw_reads_the_hwnd_of_a_win32_window() {
    assert_eq!(WindowHandle::from_raw(&win32(0x5A5A)), WindowHandle::Win32 { hwnd: 0x5A5A });
    assert_eq!(WindowHandle::from_raw(&win32(1)), WindowHandle::Win32 { hwnd: 1 });
    assert_eq!(WindowHandle::from_raw(&win32(-1)), WindowHandle::Win32 { hwnd: -1 });
    assert_eq!(
        WindowHandle::from_raw(&win32(isize::MAX)),
        WindowHandle::Win32 { hwnd: isize::MAX }
    );
}

#[test]
fn from_raw_ignores_the_instance_of_a_win32_window() {
    let mut handle = Win32WindowHandle::new(NonZeroIsize::new(31).unwrap());
    handle.hinstance = NonZeroIsize::new(77);
    assert_eq!(
        WindowHandle::from_raw(&RawWindowHandle::Win32(handle)),
        WindowHandle::Win32 { hwnd: 31 }
    );
}

#[test]
fn from_raw_takes_other_windowing_systems_as_other() {
    let xlib = RawWindowHandle::Xlib(XlibWindowHandle::new(0x5A5A));
    assert_eq!(WindowHandle::from_raw(&xlib), WindowHandle::Other);
    let xcb = RawWindowHandle::Xcb(XcbWindowHandle::new(NonZeroU32::new(9).unwrap()));
    assert_eq!(WindowHandle::from_raw(&xcb), WindowHandle::Other);
}

#[test]
fn to_hwnd_gives_the_handle_of_a_reachable_window() {
    assert_eq!(to_hwnd(&WindowHandle::Win32 { hwnd: 12 }), Ok(12));
    assert_eq!(to_hwnd(&WindowHandle::Win32 { hwnd: -1 }), Ok(-1));
    assert_eq!(to_hwnd(&WindowHandle::from_raw(&win32(0x77))), Ok(0x77));
}

#[test]
fn to_hwnd_refuses_what_is_no_window_of_the_platform() {
    assert_eq!(to_hwnd(&WindowHandle::Other), Err(ChromeError::InvalidHandle));
    assert_eq!(to_hwnd(&WindowHandle::Win32 { hwnd: 0 }), Err(ChromeError::InvalidHandle));
}

#[test]
fn enable_alpha_sets_the_layered_bit_and_keeps_the_rest() {
    let handle = WindowHandle::Win32 { hwnd: 5 };
    assert_eq!(
        enable_alpha(&handle, 0x0000_0100),
        Ok(ChromeCommand::SetExStyle { hwnd: 5, ex_style: 0x0008_0100 })
    );
    assert_eq!(
        enable_alpha(&handle, 0),
        Ok(ChromeCommand::SetExStyle { hwnd: 5, ex_style: 0x0008_0000 })
    );
    assert_eq!(
        enable_alpha(&handle, 0xFFF7_FFFF),
        Ok(ChromeCommand::SetExStyle { hwnd: 5, ex_style: 0xFFFF_FFFF })
    );
}

#[test]
fn enable_alpha_on_a_layered_style_asks_for_the_same_style() {
    let handle = WindowHandle::Win32 { hwnd: 5 };
    assert_eq!(
        enable_alpha(&handle, 0x0008_0100),
        Ok(ChromeCommand::SetExStyle { hwnd: 5, ex_style: 0x0008_0100 })
    );
}

#[test]
fn set_opacity_hands_over_the_complement_of_the_level() {
    let handle = WindowHandle::Win32 { hwnd: 9 };
    assert_eq!(
        set_opacity(&handle, 0),
        Ok(ChromeCommand::SetLayeredAlpha { hwnd: 9, color_key: 0, alpha: 255, flags: 2 })
    );
    assert_eq!(
        set_opacity(&handle, 255),
        Ok(ChromeCommand::SetLayeredAlpha { hwnd: 9, color_key: 0, alpha: 0, flags: 2 })
    );
    assert_eq!(
        set_opacity(&handle, 100),
        Ok(ChromeCommand::SetLayeredAlpha { hwnd: 9, color_key: 0, alpha: 155, flags: 2 })
    );
    assert_eq!(
        set_opacity(&handle, 1),
        Ok(ChromeCommand::SetLayeredAlpha { hwnd: 9, color_key: 0, alpha: 254, flags: 2 })
    );
}

#[test]
fn set_opacity_gives_the_same_command_for_the_same_level() {
    let handle = WindowHandle::Win32 { hwnd: 9 };
    for level in [0u8, 1, 127, 128, 254, 255] {
        assert_eq!(set_opacity(&handle, level), set_opacity(&handle, level));
    }
}

#[test]
fn always_on_top_asks_for_the_top_without_moving_or_resizing() {
    let handle = WindowHandle::Win32 { hwnd: 21 };
    assert_eq!(
        always_on_top(&handle),
        Ok(ChromeCommand::SetPosition {
            hwnd: 21,
            insert_after: -1,
            x: 0,
            y: 0,
            cx: 0,
            cy: 0,
            flags: 3,
        })
    );
    assert_eq!(always_on_top(&handle), always_on_top(&handle));
}

#[test]
fn chrome_operations_refuse_an_unreachable_window() {
    for handle in [WindowHandle::Other, WindowHandle::Win32 { hwnd: 0 }] {
        assert_eq!(enable_alpha(&handle, 0x100), Err(ChromeError::InvalidHandle));
        assert_eq!(set_opacity(&handle, 10), Err(ChromeError::InvalidHandle));
        assert_eq!(always_on_top(&handle), Err(ChromeError::InvalidHandle));
    }
}

#[test]
fn chrome_operations_work_on_a_window_of_the_toolkit() {
    let handle = WindowHandle::from_raw(&win32(0x40));
    assert_eq!(
        set_opacity(&handle, 255),
        Ok(ChromeCommand::SetLayeredAlpha { hwnd: 0x40, color_key: 0, alpha: 0, flags: 2 })
    );
    let elsewhere = WindowHandle::from_raw(&RawWindowHandle::Xlib(XlibWindowHandle::new(0x40)));
    assert_eq!(set_opacity(&elsewhere, 255), Err(ChromeError::InvalidHandle));
}

#[test]
fn a_command_names_its_window_and_its_failure() {
    let style = ChromeCommand::SetExStyle { hwnd: 1, ex_style: 0 };
    let alpha = ChromeCommand::SetLayeredAlpha { hwnd: 2, color_key: 0, alpha: 0, flags: 2 };
    let place = ChromeCommand::SetPosition {
        hwnd: 3,
        insert_after: -1,
        x: 0,
        y: 0,
        cx: 0,
        cy: 0,
        flags: 3,
    };
    assert_eq!(style.hwnd(), 1);
    assert_eq!(alpha.hwnd(), 2);
    assert_eq!(place.hwnd(), 3);
    assert_eq!(style.failure(), ChromeError::StyleCallFailed);
    assert_eq!(alpha.failure(), ChromeError::AlphaCallFailed);
    assert_eq!(place.failure(), ChromeError::PositionCallFailed);
}

#[test]
fn chrome_errors_have_their_texts() {
    assert_eq!(ChromeError::InvalidHandle.message(), "Invalid window handle");
    assert_eq!(ChromeError::StyleCallFailed.message(), "Failed to set the extended window style");
    assert_eq!(
        ChromeError::AlphaCallFailed.message(),
        "Failed to set the layered window attributes"
    );
    assert_eq!(ChromeError::PositionCallFailed.message(), "Failed to set the window position");
}

#[test]
fn extract_icon_fails_when_no_icon_was_found() {
    assert_eq!(extract_icon(0, 0).unwrap_err(), IconExtractionError::NoIconFound);
    assert_eq!(extract_icon(0, 0x1234).unwrap_err(), IconExtractionError::NoIconFound);
    assert_eq!(extract_icon(0, -1).unwrap_err(), IconExtractionError::NoIconFound);
}

#[test]
fn extract_icon_fails_on_a_handle_that_names_no_icon() {
    assert_eq!(extract_icon(1, 0).unwrap_err(), IconExtractionError::InvalidHandle);
    assert_eq!(extract_icon(1, -1).unwrap_err(), IconExtractionError::InvalidHandle);
    assert_eq!(extract_icon(u32::MAX, 0).unwrap_err(), IconExtractionError::InvalidHandle);
}

#[test]
fn extract_icon_owns_the_icon_that_was_found() {
    let icon = extract_icon(1, 0x00C0_FFEE).unwrap();
    assert_eq!(icon.kind(), HandleKind::Icon);
    assert_eq!(icon.raw(), 0x00C0_FFEE);
    let icon = extract_icon(3, -2).unwrap();
    assert_eq!(icon.raw(), -2);
}

#[test]
fn load_icon_from_exe_passes_the_icon_on() {
    assert_eq!(load_icon_from_exe(1, 0x00C0_FFEE), Ok(0x00C0_FFEE));
    assert_eq!(load_icon_from_exe(2, 1), Ok(1));
}

#[test]
fn load_icon_from_exe_fails_as_the_extraction_does() {
    assert_eq!(load_icon_from_exe(0, 0x00C0_FFEE), Err(IconExtractionError::NoIconFound));
    assert_eq!(load_icon_from_exe(0, 0), Err(IconExtractionError::NoIconFound));
    assert_eq!(load_icon_from_exe(1, 0), Err(IconExtractionError::InvalidHandle));
    assert_eq!(load_icon_from_exe(1, -1), Err(IconExtractionError::InvalidHandle));
}

#[test]
fn icon_extraction_errors_have_their_texts() {
    assert_eq!(IconExtractionError::NoIconFound.message(), "Failed to extract icon");
    assert_eq!(IconExtractionError::InvalidHandle.message(), "Invalid icon handle");
}
