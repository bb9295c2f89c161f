//! An account of a window's chrome.
//!
//! [`WindowChrome`] holds what the window system shows of one window as far
//! as the chrome controller touches it: the extended style, the alpha
//! attribute, whether the window is topmost, and its place. Following a
//! [`ChromeCommand`] through the account says what the command amounts to,
//! and so what it means for an operation of the controller to be idempotent
//! or to leave a window's place alone.

use vstd::prelude::*;

use crate::platform::{
    alpha_for, always_on_top_command, enable_alpha_command, layered, set_opacity_command,
    ChromeCommand, HWND_TOPMOST, LWA_ALPHA, SWP_NOMOVE, SWP_NOSIZE, WS_EX_LAYERED,
};

verus! {

/// Positioning flag: keep the current place in the z-order.
pub const SWP_NOZORDER: u32 = 0x0000_0004;

/// Place in the z-order above all windows that are not topmost, and below the topmost ones.
pub const HWND_NOTOPMOST: isize = -2;

/// Place at the bottom of the z-order.
pub const HWND_BOTTOM: isize = 1;

/// The alpha attribute of a window that was never given one: fully opaque.
pub const ALPHA_OPAQUE: u8 = 255;

/// The chrome of one window.
#[derive(Clone, Copy, Debug, PartialEq, Eq, Structural)]
pub struct WindowChrome {
    pub hwnd: isize,
    pub ex_style: u32,
    pub alpha: u8,
    pub topmost: bool,
    pub x: i32,
    pub y: i32,
    pub width: i32,
    pub height: i32,
}

/// A flag is set in a word of flags.
pub open spec fn has_flag(flags: u32, flag: u32) -> bool {
    flags & flag != 0
}

impl WindowChrome {
    /// The window composes with per-window alpha.
    pub open spec fn spec_is_layered(&self) -> bool {
        has_flag(self.ex_style, WS_EX_LAYERED)
    }

    /// The chrome once the window system has carried out `cmd`.
    ///
    /// A command for another window changes nothing. The alpha attribute is
    /// taken only from a layered window and only under [`LWA_ALPHA`]. A
    /// positioning command moves and resizes unless its flags say to keep
    /// place and size, and changes the topmost state unless they say to keep
    /// the z-order.
    pub open spec fn after(self, cmd: ChromeCommand) -> WindowChrome {
        if cmd.hwnd() != self.hwnd {
            self
        } else {
            match cmd {
                ChromeCommand::SetExStyle { ex_style, .. } => WindowChrome { ex_style, ..self },
                ChromeCommand::SetLayeredAlpha { alpha, flags, .. } => {
                    if self.is_layered() && has_flag(flags, LWA_ALPHA) {
                        WindowChrome { alpha, ..self }
                    } else {
                        self
                    }
                },
                ChromeCommand::SetPosition { insert_after, x, y, cx, cy, flags, .. } => WindowChrome {
                    topmost: if has_flag(flags, SWP_NOZORDER) {
                        self.topmost
                    } else if insert_after == HWND_TOPMOST {
                        true
                    } else if insert_after == HWND_NOTOPMOST || insert_after == HWND_BOTTOM {
                        false
                    } else {
                        self.topmost
                    },
                    x: if has_flag(flags, SWP_NOMOVE) { self.x } else { x },
                    y: if has_flag(flags, SWP_NOMOVE) { self.y } else { y },
                    width: if has_flag(flags, SWP_NOSIZE) { self.width } else { cx },
                    height: if has_flag(flags, SWP_NOSIZE) { self.height } else { cy },
                    ..self
                },
            }
        }
    }

    /// The chrome once the window system has carried out `cmds` in order.
    pub open spec fn after_all(self, cmds: Seq<ChromeCommand>) -> WindowChrome
        decreases cmds.len(),
    {
        if cmds.len() == 0 {
            self
        } else {
            self.after_all(cmds.drop_last()).after(cmds.last())
        }
    }

    /// The chrome of a window that the toolkit has just created with the
    /// given extended style and place: opaque and not topmost.
    pub fn new(hwnd: isize, ex_style: u32, x: i32, y: i32, width: i32, height: i32) -> (chrome: WindowChrome)
        ensures
            chrome == (WindowChrome {
                hwnd,
                ex_style,
                alpha: ALPHA_OPAQUE,
                topmost: false,
                x,
                y,
                width,
                height,
            }),
    {
        WindowChrome { hwnd, ex_style, alpha: ALPHA_OPAQUE, topmost: false, x, y, width, height }
    }

    /// Tells whether the window composes with per-window alpha.
    #[verifier::when_used_as_spec(spec_is_layered)]
    pub fn is_layered(&self) -> (yes: bool)
        ensures
            yes == self.spec_is_layered(),
    {
        self.ex_style & WS_EX_LAYERED != 0
    }

    /// Carries out `cmd` on the account.
    pub fn apply(&mut self, cmd: &ChromeCommand)
        ensures
            *final(self) == old(self).after(*cmd),
    {
        if cmd.hwnd() != self.hwnd {
            return ;
        }
        match cmd {
            ChromeCommand::SetExStyle { ex_style, .. } => {
                self.ex_style = *ex_style;
            },
            ChromeCommand::SetLayeredAlpha { alpha, flags, .. } => {
                if self.is_layered() && *flags & LWA_ALPHA != 0 {
                    self.alpha = *alpha;
                }
            },
            ChromeCommand::SetPosition { insert_after, x, y, cx, cy, flags, .. } => {
                if *flags & SWP_NOZORDER == 0 {
                    if *insert_after == HWND_TOPMOST {
                        self.topmost = true;
                    } else if *insert_after == HWND_NOTOPMOST || *insert_after == HWND_BOTTOM {
                        self.topmost = false;
                    }
                }
                if *flags & SWP_NOMOVE == 0 {
                    self.x = *x;
                    self.y = *y;
                }
                if *flags & SWP_NOSIZE == 0 {
                    self.width = *cx;
                    self.height = *cy;
                }
            },
        }
    }

    /// Carries out `cmds` on the account, in order.
    pub fn apply_all(&mut self, cmds: &Vec<ChromeCommand>)
        ensures
            *final(self) == old(self).after_all(cmds@),
    {
        let mut i: usize = 0;
        while i < cmds.len()
            invariant
                i <= cmds.len(),
                *self == old(self).after_all(cmds@.take(i as int)),
            decreases cmds.len() - i,
        {
            proof {
                assert(cmds@.take(i + 1).drop_last() == cmds@.take(i as int));
            }
            self.apply(&cmds[i]);
            i += 1;
        }
        proof {
            assert(cmds@.take(cmds@.len() as int) == cmds@);
        }
    }
}

/// The layered bit, once set, stays set by setting it again, and setting it
/// changes no other bit of a style.
pub proof fn lemma_layered_bit(ex_style: u32)
    ensures
        has_flag(layered(ex_style), WS_EX_LAYERED),
        layered(layered(ex_style)) == layered(ex_style),
        layered(ex_style) & !WS_EX_LAYERED == ex_style & !WS_EX_LAYERED,
        has_flag(ex_style, WS_EX_LAYERED) ==> layered(ex_style) == ex_style,
{
    assert((ex_style | 0x0008_0000u32) & 0x0008_0000u32 != 0) by (bit_vector);
    assert((ex_style | 0x0008_0000u32) | 0x0008_0000u32 == ex_style | 0x0008_0000u32) by (bit_vector);
    assert((ex_style | 0x0008_0000u32) & !0x0008_0000u32 == ex_style & !0x0008_0000u32)
        by (bit_vector);
    assert(ex_style & 0x0008_0000u32 != 0 ==> ex_style | 0x0008_0000u32 == ex_style)
        by (bit_vector);
}

/// The flags that the controller's commands carry: a pure z-order request
/// keeps place and size and does not keep the z-order, and a level
/// request puts its alpha value to use.
pub proof fn lemma_command_flags()
    ensures
        has_flag(SWP_NOMOVE | SWP_NOSIZE, SWP_NOMOVE),
        has_flag(SWP_NOMOVE | SWP_NOSIZE, SWP_NOSIZE),
        !has_flag(SWP_NOMOVE | SWP_NOSIZE, SWP_NOZORDER),
        has_flag(LWA_ALPHA, LWA_ALPHA),
{
    assert((2u32 | 1u32) & 2u32 != 0) by (bit_vector);
    assert((2u32 | 1u32) & 1u32 != 0) by (bit_vector);
    assert((2u32 | 1u32) & 4u32 == 0) by (bit_vector);
    assert(2u32 & 2u32 != 0) by (bit_vector);
}

/// Enabling alpha compositing is idempotent: it leaves the window layered
/// with every other style bit as it was, and enabling it again, from the
/// style that the window then has, changes nothing.
pub proof fn lemma_enable_alpha_idempotent(window: WindowChrome)
    ensures
        ({
            let once = window.after(enable_alpha_command(window.hwnd, window.ex_style));
            &&& once.is_layered()
            &&& once.ex_style & !WS_EX_LAYERED == window.ex_style & !WS_EX_LAYERED
            &&& once == (WindowChrome { ex_style: once.ex_style, ..window })
            &&& once.after(enable_alpha_command(once.hwnd, once.ex_style)) == once
        }),
{
    lemma_layered_bit(window.ex_style);
}

/// Setting a level is idempotent: a second call with the same
/// level leaves the chrome as the first call left it. On a layered window
/// the alpha attribute is then the complement of the level, and nothing
/// else has changed.
pub proof fn lemma_set_opacity_idempotent(window: WindowChrome, opacity: u8)
    ensures
        ({
            let cmd = set_opacity_command(window.hwnd, opacity);
            let once = window.after(cmd);
            &&& once.after(cmd) == once
            &&& window.is_layered() ==> once == (WindowChrome { alpha: alpha_for(opacity), ..window })
            &&& !window.is_layered() ==> once == window
        }),
{
    lemma_command_flags();
}

/// Forcing a window topmost is idempotent and neither moves nor resizes it:
/// after the call the window is topmost and everything else is as before,
/// and a second call changes nothing.
pub proof fn lemma_always_on_top_idempotent(window: WindowChrome)
    ensures
        ({
            let cmd = always_on_top_command(window.hwnd);
            let once = window.after(cmd);
            &&& once == (WindowChrome { topmost: true, ..window })
            &&& once.after(cmd) == once
        }),
{
    lemma_command_flags();
}

/// Windows are independent: a command addressed to one window leaves the
/// chrome of every other window as it was.
pub proof fn lemma_other_window_untouched(window: WindowChrome, cmd: ChromeCommand)
    requires
        cmd.hwnd() != window.hwnd,
    ensures
        window.after(cmd) == window,
{
}

} // verus!
