//! The window chrome controller.
//!
//! Each operation takes a reference to a window that the user-interface
//! toolkit owns and answers with the one platform call that brings the
//! chrome about, as a [`ChromeCommand`]. The caller performs the call; what a
//! window's chrome amounts to after a series of commands is accounted for in
//! [`crate::chrome`]. The operations are a capability of Windows: a window
//! of any other windowing system is refused with
//! [`ChromeError::InvalidHandle`].
//!
//! The icon of the tray comes from the running executable. The extraction
//! call is the caller's as well; [`extract_icon`] judges what it returned and
//! [`load_icon_from_exe`] passes the icon on to the tray.

use raw_window_handle::RawWindowHandle;
use vstd::prelude::*;

use crate::handle::{is_valid_raw, valid_raw, HandleKind, NativeHandle};

verus! {

/// Index of the extended window style among a window's long values.
pub const GWL_EXSTYLE: i32 = -20;

/// Extended style bit of a layered window, the one whose alpha can be set.
pub const WS_EX_LAYERED: u32 = 0x0008_0000;

/// Flag of the layered-window attributes: the alpha value is in use.
pub const LWA_ALPHA: u32 = 0x0000_0002;

/// Positioning flag: keep the current size.
pub const SWP_NOSIZE: u32 = 0x0000_0001;

/// Positioning flag: keep the current position.
pub const SWP_NOMOVE: u32 = 0x0000_0002;

/// Place in the z-order above all windows that are not topmost.
pub const HWND_TOPMOST: isize = -1;

/// `raw_window_handle::RawWindowHandle`, the toolkit's reference to one of
/// its windows. Nothing is claimed of what it holds.
#[verifier::external_type_specification]
#[verifier::external_body]
pub struct ExRawWindowHandle(RawWindowHandle);

/// A window of the toolkit, as far as the chrome controller reads it.
/// The controller never owns the window.
#[derive(Clone, Copy, Debug, PartialEq, Eq, Structural)]
pub enum WindowHandle {
    /// A Windows window, by its native handle value.
    Win32 { hwnd: isize },
    /// A window of a windowing system whose chrome this controller cannot reach.
    Other,
}

/// Why a chrome operation did not take effect.
#[derive(Clone, Copy, Debug, PartialEq, Eq, Structural)]
pub enum ChromeError {
    /// The window reference names no Windows window.
    InvalidHandle,
    /// The platform refused to change the extended style.
    StyleCallFailed,
    /// The platform refused to change the layered-window attributes.
    AlphaCallFailed,
    /// The platform refused to change the z-order.
    PositionCallFailed,
}

/// One call into the platform's window system, with all of its arguments.
#[derive(Clone, Copy, Debug, PartialEq, Eq, Structural)]
pub enum ChromeCommand {
    /// Store `ex_style` as the window's extended style (the long value at [`GWL_EXSTYLE`]).
    SetExStyle { hwnd: isize, ex_style: u32 },
    /// Set the layered-window attributes.
    SetLayeredAlpha { hwnd: isize, color_key: u32, alpha: u8, flags: u32 },
    /// Set position, size and place in the z-order.
    SetPosition { hwnd: isize, insert_after: isize, x: i32, y: i32, cx: i32, cy: i32, flags: u32 },
}

/// Why the running executable gave no icon.
#[derive(Clone, Copy, Debug, PartialEq, Eq, Structural)]
pub enum IconExtractionError {
    /// The executable holds no icon resource.
    NoIconFound,
    /// The platform reported an icon but the handle names none.
    InvalidHandle,
}

/// What a `raw_window_handle::RawWindowHandle` holds, as the chrome
/// controller reads it: the `hwnd` of its `Win32` variant, and `Other` for
/// every other variant.
pub uninterp spec fn window_handle_read(raw: RawWindowHandle) -> WindowHandle;

/// Reads a `raw_window_handle::RawWindowHandle`: the result is what the
/// value holds. Its `Win32` variant holds the window's `hwnd` as a
/// `NonZeroIsize`, which comes back as a number that is therefore not zero;
/// every other variant comes back as `Other`.
#[verifier::external_body]
fn read_raw_window_handle(raw: &RawWindowHandle) -> (handle: WindowHandle)
    ensures
        handle == window_handle_read(*raw),
        handle matches WindowHandle::Win32 { hwnd } ==> hwnd != 0,
{
    match raw {
        RawWindowHandle::Win32(win32) => WindowHandle::Win32 { hwnd: win32.hwnd.get() },
        _ => WindowHandle::Other,
    }
}

impl WindowHandle {
    /// The window is a Windows window and its handle is not null.
    pub open spec fn reachable(self) -> bool {
        self matches WindowHandle::Win32 { hwnd } && valid_raw(HandleKind::Window, hwnd)
    }

    /// Takes the toolkit's window reference: the result is the window that
    /// the reference holds. A Windows window is always reachable
    /// afterwards; any other is `Other`.
    pub fn from_raw(raw: &RawWindowHandle) -> (handle: WindowHandle)
        ensures
            handle == window_handle_read(*raw),
            handle.reachable() || handle == WindowHandle::Other,
    {
        read_raw_window_handle(raw)
    }

    /// Tells whether the chrome operations are on offer for this window at
    /// all. They are a capability of Windows windows only, and a caller that
    /// holds any other window goes without them.
    pub fn has_chrome(&self) -> (yes: bool)
        ensures
            yes == (*self != WindowHandle::Other),
            self.reachable() ==> yes,
    {
        match self {
            WindowHandle::Win32 { .. } => true,
            WindowHandle::Other => false,
        }
    }
}

/// The native handle of a window, where the controller can reach it.
pub open spec fn spec_to_hwnd(handle: WindowHandle) -> Result<isize, ChromeError> {
    match handle {
        WindowHandle::Win32 { hwnd } => if valid_raw(HandleKind::Window, hwnd) {
            Ok(hwnd)
        } else {
            Err(ChromeError::InvalidHandle)
        },
        WindowHandle::Other => Err(ChromeError::InvalidHandle),
    }
}

/// An extended style with the layered bit set and every other bit kept.
pub open spec fn layered(ex_style: u32) -> u32 {
    ex_style | WS_EX_LAYERED
}

/// The alpha attribute that stands for a level: its complement in `0..=255`.
pub open spec fn alpha_for(opacity: u8) -> u8 {
    (255 - opacity) as u8
}

/// The positioning flags of a pure z-order request.
pub open spec fn keep_place_flags() -> u32 {
    SWP_NOMOVE | SWP_NOSIZE
}

/// The command by which [`enable_alpha`] makes a window layered.
pub open spec fn enable_alpha_command(hwnd: isize, ex_style: u32) -> ChromeCommand {
    ChromeCommand::SetExStyle { hwnd, ex_style: layered(ex_style) }
}

/// The command by which [`set_opacity`] sets a window's level.
pub open spec fn set_opacity_command(hwnd: isize, opacity: u8) -> ChromeCommand {
    ChromeCommand::SetLayeredAlpha { hwnd, color_key: 0, alpha: alpha_for(opacity), flags: LWA_ALPHA }
}

/// The command by which [`always_on_top`] raises a window.
pub open spec fn always_on_top_command(hwnd: isize) -> ChromeCommand {
    ChromeCommand::SetPosition {
        hwnd,
        insert_after: HWND_TOPMOST,
        x: 0,
        y: 0,
        cx: 0,
        cy: 0,
        flags: keep_place_flags(),
    }
}

/// The native handle behind a window reference, or `InvalidHandle` where
/// the reference names no Windows window.
pub fn to_hwnd(handle: &WindowHandle) -> (r: Result<isize, ChromeError>)
    ensures
        r == spec_to_hwnd(*handle),
        r is Ok <==> handle.reachable(),
{
    match handle {
        WindowHandle::Win32 { hwnd } => {
            if is_valid_raw(HandleKind::Window, *hwnd) {
                Ok(*hwnd)
            } else {
                Err(ChromeError::InvalidHandle)
            }
        },
        WindowHandle::Other => Err(ChromeError::InvalidHandle),
    }
}

/// Enables per-window alpha compositing: given the extended style that the
/// window has now, asks for the same style with the layered bit set.
pub fn enable_alpha(handle: &WindowHandle, ex_style: u32) -> (r: Result<ChromeCommand, ChromeError>)
    ensures
        r == match spec_to_hwnd(*handle) {
            Ok(hwnd) => Ok(enable_alpha_command(hwnd, ex_style)),
            Err(e) => Err(e),
        },
{
    match to_hwnd(handle) {
        Ok(hwnd) => Ok(ChromeCommand::SetExStyle { hwnd, ex_style: ex_style | WS_EX_LAYERED }),
        Err(e) => Err(e),
    }
}

/// Sets the level of a window, from 0 to 255. The platform is handed the
/// complement, `255 - opacity`, as the alpha attribute, with no colour key:
/// level 0 leaves the window at alpha 255, which the platform shows fully
/// opaque, and level 255 leaves it at alpha 0, which the platform does not
/// show at all.
pub fn set_opacity(handle: &WindowHandle, opacity: u8) -> (r: Result<ChromeCommand, ChromeError>)
    ensures
        r == match spec_to_hwnd(*handle) {
            Ok(hwnd) => Ok(set_opacity_command(hwnd, opacity)),
            Err(e) => Err(e),
        },
{
    match to_hwnd(handle) {
        Ok(hwnd) => Ok(
            ChromeCommand::SetLayeredAlpha {
                hwnd,
                color_key: 0,
                alpha: u8::MAX - opacity,
                flags: LWA_ALPHA,
            },
        ),
        Err(e) => Err(e),
    }
}

/// Asks for the top of the z-order, leaving position and size as they are.
pub fn always_on_top(handle: &WindowHandle) -> (r: Result<ChromeCommand, ChromeError>)
    ensures
        r == match spec_to_hwnd(*handle) {
            Ok(hwnd) => Ok(always_on_top_command(hwnd)),
            Err(e) => Err(e),
        },
{
    match to_hwnd(handle) {
        Ok(hwnd) => Ok(
            ChromeCommand::SetPosition {
                hwnd,
                insert_after: HWND_TOPMOST,
                x: 0,
                y: 0,
                cx: 0,
                cy: 0,
                flags: SWP_NOMOVE | SWP_NOSIZE,
            },
        ),
        Err(e) => Err(e),
    }
}

impl ChromeCommand {
    /// The window that the command addresses.
    pub open spec fn spec_hwnd(&self) -> isize {
        match *self {
            ChromeCommand::SetExStyle { hwnd, .. } => hwnd,
            ChromeCommand::SetLayeredAlpha { hwnd, .. } => hwnd,
            ChromeCommand::SetPosition { hwnd, .. } => hwnd,
        }
    }

    /// The error that stands for the platform refusing this command.
    pub open spec fn spec_failure(&self) -> ChromeError {
        match *self {
            ChromeCommand::SetExStyle { .. } => ChromeError::StyleCallFailed,
            ChromeCommand::SetLayeredAlpha { .. } => ChromeError::AlphaCallFailed,
            ChromeCommand::SetPosition { .. } => ChromeError::PositionCallFailed,
        }
    }

    /// The window that the command addresses.
    #[verifier::when_used_as_spec(spec_hwnd)]
    pub fn hwnd(&self) -> (hwnd: isize)
        ensures
            hwnd == self.spec_hwnd(),
    {
        match self {
            ChromeCommand::SetExStyle { hwnd, .. } => *hwnd,
            ChromeCommand::SetLayeredAlpha { hwnd, .. } => *hwnd,
            ChromeCommand::SetPosition { hwnd, .. } => *hwnd,
        }
    }

    /// The error to report when the platform refuses this command.
    #[verifier::when_used_as_spec(spec_failure)]
    pub fn failure(&self) -> (e: ChromeError)
        ensures
            e == self.spec_failure(),
            e != ChromeError::InvalidHandle,
    {
        match self {
            ChromeCommand::SetExStyle { .. } => ChromeError::StyleCallFailed,
            ChromeCommand::SetLayeredAlpha { .. } => ChromeError::AlphaCallFailed,
            ChromeCommand::SetPosition { .. } => ChromeError::PositionCallFailed,
        }
    }
}

impl ChromeError {
    /// The text of the error.
    pub open spec fn spec_message(self) -> Seq<char> {
        match self {
            ChromeError::InvalidHandle => "Invalid window handle"@,
            ChromeError::StyleCallFailed => "Failed to set the extended window style"@,
            ChromeError::AlphaCallFailed => "Failed to set the layered window attributes"@,
            ChromeError::PositionCallFailed => "Failed to set the window position"@,
        }
    }

    /// The text of the error.
    pub fn message(&self) -> (text: String)
        ensures
            text@ == self.spec_message(),
    {
        match self {
            ChromeError::InvalidHandle => "Invalid window handle".to_owned(),
            ChromeError::StyleCallFailed => "Failed to set the extended window style".to_owned(),
            ChromeError::AlphaCallFailed => "Failed to set the layered window attributes".to_owned(),
            ChromeError::PositionCallFailed => "Failed to set the window position".to_owned(),
        }
    }
}

/// What an extraction call that reported `count` icons and left `raw`
/// behind amounts to.
pub open spec fn spec_extract_icon(count: u32, raw: isize) -> Result<isize, IconExtractionError> {
    if count == 0 {
        Err(IconExtractionError::NoIconFound)
    } else if !valid_raw(HandleKind::Icon, raw) {
        Err(IconExtractionError::InvalidHandle)
    } else {
        Ok(raw)
    }
}

/// Judges the platform's answer to a request for the first icon of an
/// executable: `count` is the number of icons it reported, `raw` the handle
/// it left behind. With no icon, or with a handle that names none, the
/// extraction failed; otherwise the icon is owned from here on.
pub fn extract_icon(count: u32, raw: isize) -> (r: Result<NativeHandle, IconExtractionError>)
    ensures
        r is Ok <==> count >= 1 && valid_raw(HandleKind::Icon, raw),
        match spec_extract_icon(count, raw) {
            Ok(raw) => r matches Ok(icon) && icon@ == (HandleKind::Icon, raw),
            Err(e) => r matches Err(err) && err == e,
        },
{
    if count == 0 {
        return Err(IconExtractionError::NoIconFound);
    }
    match NativeHandle::acquire(HandleKind::Icon, raw) {
        Ok(icon) => Ok(icon),
        Err(_) => Err(IconExtractionError::InvalidHandle),
    }
}

/// The icon of the running executable for the tray: the extracted icon is
/// owned for a moment and then released to the tray, whose own teardown
/// frees it. The result is the raw handle to build the tray's icon from.
pub fn load_icon_from_exe(count: u32, raw: isize) -> (r: Result<isize, IconExtractionError>)
    ensures
        r == spec_extract_icon(count, raw),
{
    match extract_icon(count, raw) {
        Ok(icon) => Ok(icon.release_to_external()),
        Err(e) => Err(e),
    }
}

impl IconExtractionError {
    /// The text of the error.
    pub open spec fn spec_message(self) -> Seq<char> {
        match self {
            IconExtractionError::NoIconFound => "Failed to extract icon"@,
            IconExtractionError::InvalidHandle => "Invalid icon handle"@,
        }
    }

    /// The text of the error.
    pub fn message(&self) -> (text: String)
        ensures
            text@ == self.spec_message(),
    {
        match self {
            IconExtractionError::NoIconFound => "Failed to extract icon".to_owned(),
            IconExtractionError::InvalidHandle => "Invalid icon handle".to_owned(),
        }
    }
}

} // verus!
