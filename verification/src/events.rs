use vstd::prelude::*;

verus! {

/// A window identifier issued by the display server. The library never
/// inspects its structure; identifiers are only compared for equality.
pub type Window = u32;

/// One protocol event, reduced to the plain values the controller decides
/// on. The unverified driver translates each display-server event into this
/// form before dispatching it.
///
/// For a map request the driver also supplies a freshly allocated window
/// identifier for the frame and the client's current geometry, since only
/// the driver can ask the display server for either.
#[derive(Clone, Copy, Debug, PartialEq, Eq, Structural)]
pub enum WmEvent {
    /// A window came into existence. Informational only.
    CreateNotify { window: Window },
    /// A window ceased to exist. Informational only.
    DestroyNotify { window: Window },
    /// A client asked to change its own geometry before being managed.
    /// Policy: ignored, so that the layout engine stays the sole authority
    /// over geometry.
    ConfigureRequest { window: Window },
    /// A client asked to become visible. `frame` is a fresh identifier for
    /// the frame to wrap it in; `x`, `y`, `width`, `height` are the client's
    /// current geometry.
    MapRequest { window: Window, frame: Window, x: i16, y: i16, width: u16, height: u16 },
    /// A window was unmapped; if it is managed, management ends.
    UnmapNotify { window: Window },
    /// A key was pressed on the root window.
    KeyPress { code: u8, state: u16 },
    /// Any other event kind: ignored, forward-compatible default.
    Other,
}

/// One display request the driver must issue on the controller's behalf.
/// `handle_event` returns these in the exact order they are to be sent.
#[derive(Clone, Copy, Debug, PartialEq, Eq, Structural)]
pub enum Action {
    /// Create the frame window as a child of the root at the given geometry,
    /// with the given border width, subscribed to substructure events.
    CreateFrame { frame: Window, x: i16, y: i16, width: u16, height: u16, border_width: u16 },
    /// Add the window to the server's save-set, so that it survives a crash
    /// of the window manager.
    AddToSaveSet { window: Window },
    /// Remove the window from the server's save-set.
    RemoveFromSaveSet { window: Window },
    /// Reparent the client window into its frame, at offset (0, 0).
    ReparentToFrame { window: Window, frame: Window },
    /// Reparent the client window back under the root, at offset (0, 0).
    ReparentToRoot { window: Window },
    /// Map (show) the window.
    MapWindow { window: Window },
    /// Unmap (hide) the window.
    UnmapWindow { window: Window },
    /// Destroy the window.
    DestroyWindow { window: Window },
    /// Resize a client window to fill the interior of its frame.
    ConfigureClient { window: Window, width: u32, height: u32 },
    /// Move and resize a frame window to its slot in the layout.
    ConfigureFrame { window: Window, x: i32, y: i32, width: u32, height: u32 },
    /// Hand the key press to the hotkey subsystem for resolution.
    ForwardKey { code: u8, state: u16 },
}

} // verus!
