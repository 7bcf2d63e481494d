//! The lockdown enforcer: the enforcement flag that input interception
//! consults, and the per-user policy value that switches the task manager
//! off while the desktop is locked down.

use vstd::prelude::*;
use crate::machine::EnforcerView;

verus! {

/// One write to the per-user policy store.
#[derive(Clone, Copy, Debug, PartialEq, Eq, Structural)]
pub struct PolicyWrite {
    /// The 32-bit value to store: 1 disables the task manager, 0 enables it.
    pub disable_task_mgr: u32,
}

/// The policy value for a task manager that is to be enabled or disabled.
pub open spec fn task_mgr_policy(enable: bool) -> PolicyWrite {
    PolicyWrite { disable_task_mgr: if enable { 0u32 } else { 1u32 } }
}

/// The policy write that enables (`true`) or disables (`false`) the task
/// manager. The caller stores it under the key and value that
/// [`PolicyWrite::key_path`] and [`PolicyWrite::value_name`] give.
pub fn enable_task_mgr(enable: bool) -> (write: PolicyWrite)
    ensures
        write == task_mgr_policy(enable),
{
    PolicyWrite { disable_task_mgr: if enable { 0 } else { 1 } }
}

impl PolicyWrite {
    /// Whether this write leaves the task manager usable.
    pub open spec fn enables_task_mgr(self) -> bool {
        self.disable_task_mgr == 0
    }

    /// The settings key, below the current user's root, that holds the value.
    pub fn key_path(&self) -> (path: &'static str)
        ensures
            path@ == "Software\\Microsoft\\Windows\\CurrentVersion\\Policies\\System"@,
    {
        "Software\\Microsoft\\Windows\\CurrentVersion\\Policies\\System"
    }

    /// The name of the value below [`PolicyWrite::key_path`].
    pub fn value_name(&self) -> (name: &'static str)
        ensures
            name@ == "DisableTaskMgr"@,
    {
        "DisableTaskMgr"
    }

    /// The value as the four bytes that the store keeps, least significant
    /// byte first.
    pub fn bytes(&self) -> (data: [u8; 4])
        ensures
            data@.len() == 4,
            data@[0] as int + 0x100 * (data@[1] as int) + 0x1_0000 * (data@[2] as int)
                + 0x100_0000 * (data@[3] as int) == self.disable_task_mgr as int,
    {
        let v: u32 = self.disable_task_mgr;
        let b0: u8 = (v & 0xff) as u8;
        let b1: u8 = ((v >> 8) & 0xff) as u8;
        let b2: u8 = ((v >> 16) & 0xff) as u8;
        let b3: u8 = ((v >> 24) & 0xff) as u8;
        assert(((v & 0xff) as u8) as u32 + 0x100 * ((((v >> 8) & 0xff) as u8) as u32) + 0x1_0000 * (
        (((v >> 16) & 0xff) as u8) as u32) + 0x100_0000 * ((((v >> 24) & 0xff) as u8) as u32) == v)
            by (bit_vector);
        [b0, b1, b2, b3]
    }
}

/// The lockdown enforcer of one process.
///
/// It owns the enforcement flag and remembers whether the keyboard guard has
/// been started. Nothing but [`set_kiosk_mode`] changes the flag.
#[derive(Debug)]
pub struct Enforcer {
    enabled: bool,
    guard_started: bool,
}

impl View for Enforcer {
    type V = EnforcerView;

    closed spec fn view(&self) -> EnforcerView {
        EnforcerView { enabled: self.enabled, guard_started: self.guard_started }
    }
}

impl Enforcer {
    /// The enforcer of a fresh process: enforcement off, no guard started.
    pub fn new() -> (enforcer: Enforcer)
        ensures
            enforcer@ == (EnforcerView { enabled: false, guard_started: false }),
    {
        Enforcer { enabled: false, guard_started: false }
    }

    /// Whether lockdown is being enforced.
    pub fn is_enabled(&self) -> (enabled: bool)
        ensures
            enabled == self@.enabled,
    {
        self.enabled
    }

    /// Whether the keyboard guard has been asked for.
    pub fn is_guard_started(&self) -> (started: bool)
        ensures
            started == self@.guard_started,
    {
        self.guard_started
    }
}

/// Switches lockdown on or off.
///
/// The flag is stored, and the returned policy write disables the task
/// manager exactly when lockdown is on. The write is owed on every call,
/// whether or not the keyboard guard was ever started, and whether or not the
/// flag changed.
pub fn set_kiosk_mode(enforcer: &mut Enforcer, enabled: bool) -> (write: PolicyWrite)
    ensures
        final(enforcer)@ == old(enforcer)@.with_mode(enabled),
        write == task_mgr_policy(!enabled),
{
    enforcer.enabled = enabled;
    enable_task_mgr(!enabled)
}

/// Asks for the keyboard guard. Returns `true` on the first call, when the
/// caller must install the intercept and pump its messages, and `false` on
/// every later one: the intercept is installed once per process.
pub fn start_keyboard_guard(enforcer: &mut Enforcer) -> (install: bool)
    ensures
        install == !old(enforcer)@.guard_started,
        final(enforcer)@ == (EnforcerView { guard_started: true, ..old(enforcer)@ }),
{
    let install = !enforcer.guard_started;
    enforcer.guard_started = true;
    install
}

/// Setting a mode twice in a row leaves the enforcer as setting it once does,
/// and both calls ask for the same policy write.
pub proof fn setting_a_mode_twice_is_setting_it_once(enforcer: EnforcerView, enabled: bool)
    ensures
        enforcer.with_mode(enabled).with_mode(enabled) == enforcer.with_mode(enabled),
        enforcer.with_mode(enabled).enabled == enabled,
{
}

/// Of two calls in a row, the later one decides: interleaved calls converge
/// to the mode that was applied last.
pub proof fn the_last_mode_wins(enforcer: EnforcerView, first: bool, last: bool)
    ensures
        enforcer.with_mode(first).with_mode(last) == enforcer.with_mode(last),
{
}

} // verus!
