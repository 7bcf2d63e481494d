//! The keyboard guard's decision: which keystrokes a locked-down desktop
//! swallows.
//!
//! The intercept sits in the global input path, so the decision is a handful
//! of comparisons on the numbers that the platform hands to the callback.

use vstd::prelude::*;

verus! {

/// The callback code that marks a keystroke to act on.
pub const HC_ACTION: i32 = 0;

/// The flag bit that is set while an ALT key is down.
pub const LLKHF_ALTDOWN: u32 = 0x20;

/// Virtual-key code of TAB.
pub const VK_TAB: u16 = 0x09;

/// Virtual-key code of CTRL, for asking whether it is down.
pub const VK_CONTROL: u16 = 0x11;

/// Virtual-key code of ESC.
pub const VK_ESCAPE: u16 = 0x1B;

/// Virtual-key code of DEL.
pub const VK_DELETE: u16 = 0x2E;

/// Virtual-key code of the left Windows key.
pub const VK_LWIN: u16 = 0x5B;

/// Virtual-key code of the right Windows key.
pub const VK_RWIN: u16 = 0x5C;

/// Virtual-key code of F4.
pub const VK_F4: u16 = 0x73;

/// What the intercept does with a keystroke.
#[derive(Clone, Copy, Debug, PartialEq, Eq, Structural)]
pub enum HookVerdict {
    /// Hand the keystroke to the next hook in the chain.
    PassOn,
    /// Swallow the keystroke.
    Block,
}

/// The key combinations that lockdown reserves: either Windows key, ALT+TAB,
/// CTRL+ESC, ALT+F4 and CTRL+ALT+DEL.
pub open spec fn is_reserved(vk: u16, alt: bool, ctrl: bool) -> bool {
    ||| vk == VK_LWIN
    ||| vk == VK_RWIN
    ||| alt && vk == VK_TAB
    ||| ctrl && vk == VK_ESCAPE
    ||| alt && vk == VK_F4
    ||| ctrl && alt && vk == VK_DELETE
}

/// The virtual-key code of a keystroke: the low 16 bits of the reported code.
pub open spec fn key_code(vk_code: u32) -> u16 {
    (vk_code & 0xffff) as u16
}

/// Whether the keystroke's flags report an ALT key as down.
pub open spec fn alt_down(flags: u32) -> bool {
    flags & LLKHF_ALTDOWN != 0
}

/// Whether an asynchronous key state reports the key as down: its most
/// significant bit is set.
pub open spec fn key_down(state: i16) -> bool {
    state < 0
}

/// Whether the intercept looks at a keystroke at all: only an action code,
/// and only while lockdown is enforced. Everything else is passed on
/// untouched, before any further state is read.
pub fn hook_engaged(n_code: i32, enabled: bool) -> (engaged: bool)
    ensures
        engaged == (n_code == HC_ACTION && enabled),
{
    n_code == HC_ACTION && enabled
}

/// Whether an engaged intercept swallows a keystroke, given the reported key
/// code, the keystroke's flags and the asynchronous state of CTRL.
pub fn blocks_key(vk_code: u32, flags: u32, ctrl_state: i16) -> (block: bool)
    ensures
        block == is_reserved(key_code(vk_code), alt_down(flags), key_down(ctrl_state)),
{
    let vk: u16 = (vk_code & 0xffff) as u16;
    let alt_pressed = flags & LLKHF_ALTDOWN != 0;
    let ctrl_pressed = ctrl_state < 0;
    let mut block = false;
    if vk == VK_LWIN || vk == VK_RWIN {
        block = true;
    }
    if alt_pressed && vk == VK_TAB {
        block = true;
    }
    if ctrl_pressed && vk == VK_ESCAPE {
        block = true;
    }
    if alt_pressed && vk == VK_F4 {
        block = true;
    }
    if ctrl_pressed && alt_pressed && vk == VK_DELETE {
        block = true;
    }
    block
}

/// The whole decision of the intercept for one keystroke: swallowed exactly
/// when the intercept is engaged and the combination is reserved.
pub fn low_level_keyboard_proc(
    n_code: i32,
    enabled: bool,
    vk_code: u32,
    flags: u32,
    ctrl_state: i16,
) -> (verdict: HookVerdict)
    ensures
        verdict is Block <==> n_code == HC_ACTION && enabled && is_reserved(
            key_code(vk_code),
            alt_down(flags),
            key_down(ctrl_state),
        ),
{
    if !hook_engaged(n_code, enabled) {
        return HookVerdict::PassOn;
    }
    if blocks_key(vk_code, flags, ctrl_state) {
        HookVerdict::Block
    } else {
        HookVerdict::PassOn
    }
}

} // verus!
