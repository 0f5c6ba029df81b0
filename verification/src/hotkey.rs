use vstd::prelude::*;

verus! {

/// Errors of the hotkey subsystem. A resolution miss — an unrecognized
/// key or modifier combination — is a silent no-op by design, never an
/// error; only failing to obtain a keymap at startup is one.
#[derive(Clone, Copy, Debug, PartialEq, Eq, Structural)]
pub enum Error {
    /// The driver could not load the keymap the key bindings need.
    KeymapUnavailable,
}

/// The logical action a resolved key press stands for.
#[derive(Clone, Copy, Debug, PartialEq, Eq, Structural)]
pub enum KeyAction {
    /// Stop the window manager.
    Terminate,
    /// Launch the configured terminal program.
    LaunchTerminal,
    /// Anything unrecognized: a silent no-op.
    Ignore,
}

/// What a key press resolves to: with every configured modifier bit held,
/// the terminate symbol stops the window manager and the launch symbol
/// starts the terminal; every other combination is ignored. When the two
/// configured symbols coincide, terminating wins.
pub open spec fn key_action(
    sym: u32,
    state: u16,
    mod_mask: u16,
    terminate_sym: u32,
    launch_sym: u32,
) -> KeyAction {
    if state & mod_mask == mod_mask {
        if sym == terminate_sym {
            KeyAction::Terminate
        } else if sym == launch_sym {
            KeyAction::LaunchTerminal
        } else {
            KeyAction::Ignore
        }
    } else {
        KeyAction::Ignore
    }
}

/// Maps a key symbol, as resolved from the key code by the driver's
/// keymap, plus the modifier state of the press, to the action it stands
/// for under the configured modifier mask and key bindings.
pub fn resolve_key(sym: u32, state: u16, mod_mask: u16, terminate_sym: u32, launch_sym: u32) -> (r: KeyAction)
    ensures
        r == key_action(sym, state, mod_mask, terminate_sym, launch_sym),
{
    if state & mod_mask == mod_mask {
        if sym == terminate_sym {
            KeyAction::Terminate
        } else if sym == launch_sym {
            KeyAction::LaunchTerminal
        } else {
            KeyAction::Ignore
        }
    } else {
        KeyAction::Ignore
    }
}

} // verus!
