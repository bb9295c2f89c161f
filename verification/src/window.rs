//! Window presentation.
//!
//! Every window of the application is set up the same way when the toolkit
//! has created it, the first one and each one spawned later, and presents
//! the shared visibility flag every time it is rendered. A window keeps no
//! state of its own here.

use vstd::prelude::*;

use crate::chrome::{
    lemma_command_flags, lemma_enable_alpha_idempotent, lemma_layered_bit, WindowChrome,
};
use crate::event_loop::GlobalEntity;
use crate::platform::{
    alpha_for, always_on_top, always_on_top_command, enable_alpha, enable_alpha_command,
    set_opacity, set_opacity_command, spec_to_hwnd, ChromeCommand, ChromeError, WindowHandle,
    WS_EX_LAYERED,
};

verus! {

/// One window of the application.
#[derive(Clone, Copy, Debug, PartialEq, Eq, Structural)]
pub struct WindowEntity {}

/// The chrome setup of a new window with the extended style `ex_style`:
/// alpha compositing first, then the top of the z-order.
pub open spec fn setup_commands(hwnd: isize, ex_style: u32) -> Seq<ChromeCommand> {
    seq![enable_alpha_command(hwnd, ex_style), always_on_top_command(hwnd)]
}

/// Gives a window that the toolkit has just created its chrome: the
/// commands that enable alpha compositing and force it topmost, in the
/// order to carry them out. `ex_style` is the extended style that the new
/// window has.
pub fn open_window(handle: &WindowHandle, ex_style: u32) -> (r: Result<Vec<ChromeCommand>, ChromeError>)
    ensures
        match spec_to_hwnd(*handle) {
            Ok(hwnd) => r matches Ok(cmds) && cmds@ == setup_commands(hwnd, ex_style),
            Err(e) => r matches Err(err) && err == e,
        },
{
    let layered = enable_alpha(handle, ex_style)?;
    let topmost = always_on_top(handle)?;
    let mut cmds: Vec<ChromeCommand> = Vec::new();
    cmds.push(layered);
    cmds.push(topmost);
    Ok(cmds)
}

impl WindowEntity {
    /// Presents the shared flag on this window: the command that sets the
    /// window to the level the flag stands for, 255 with the flag set and 0
    /// with the flag clear, and so to alpha 0 while the flag is set and to
    /// alpha 255 while it is clear.
    pub fn render(&self, global: &GlobalEntity, handle: &WindowHandle) -> (r: Result<
        ChromeCommand,
        ChromeError,
    >)
        ensures
            r == match spec_to_hwnd(*handle) {
                Ok(hwnd) => Ok(set_opacity_command(hwnd, global.opacity())),
                Err(e) => Err(e),
            },
    {
        set_opacity(handle, global.opacity())
    }
}

/// A new window comes out of its setup layered and topmost, with its
/// place, its size, its alpha attribute and the other bits of its style as
/// the toolkit made them. The setup reads no flag and no other window, and
/// leaves every other window as it was.
pub proof fn lemma_new_window_chrome(window: WindowChrome, other: WindowChrome)
    requires
        other.hwnd != window.hwnd,
    ensures
        ({
            let cmds = setup_commands(window.hwnd, window.ex_style);
            let ready = window.after_all(cmds);
            &&& ready.is_layered()
            &&& ready.topmost
            &&& ready == (WindowChrome { ex_style: ready.ex_style, topmost: true, ..window })
            &&& ready.ex_style & !WS_EX_LAYERED == window.ex_style & !WS_EX_LAYERED
            &&& other.after_all(cmds) == other
        }),
{
    let cmds = setup_commands(window.hwnd, window.ex_style);
    assert(cmds.drop_last() == seq![enable_alpha_command(window.hwnd, window.ex_style)]);
    assert(cmds.drop_last().drop_last() == Seq::<ChromeCommand>::empty());
    reveal_with_fuel(WindowChrome::after_all, 3);
    lemma_layered_bit(window.ex_style);
    lemma_enable_alpha_idempotent(window);
    lemma_command_flags();
}

/// Rendering presents the flag: on a window that went through its setup,
/// the alpha attribute after a render is the complement of the level that
/// the flag stands for, and rendering again while the flag stands changes
/// nothing.
pub proof fn lemma_render_presents_flag(window: WindowChrome, global: GlobalEntity)
    requires
        window.is_layered(),
    ensures
        ({
            let cmd = set_opacity_command(window.hwnd, global.opacity());
            let shown = window.after(cmd);
            &&& shown == (WindowChrome { alpha: alpha_for(global.opacity()), ..window })
            &&& shown.alpha == if global.hide { 0u8 } else { 255u8 }
            &&& shown.after(cmd) == shown
        }),
{
    lemma_command_flags();
}

} // verus!
