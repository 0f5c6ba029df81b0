use vstd::prelude::*;
use vstd::arithmetic::div_mod::{lemma_fundamental_div_mod, lemma_mod_division_less_than_divisor};
use vstd::arithmetic::mul::lemma_mul_inequality;

use crate::events::{Action, Window, WmEvent};
use crate::geom::{rect_is, Rect};
use crate::layout::{layout_rect, Layout};
use crate::registry::{
    client_index, contains_frame, find_win_by_id, has_client, has_frame, remove_win_by_id,
    stack_wf, Win,
};

verus! {

/// Why window-manager setup failed.
#[derive(Clone, Copy, Debug, PartialEq, Eq, Structural)]
pub enum WmError {
    /// Another client already holds substructure redirect on the root
    /// window, so this process cannot become the window manager.
    RedirectRefused,
}

/// The window-manager controller: the registry of managed windows, the
/// layout mode, the cooperative running flag, and the screen constants read
/// once at startup.
///
/// The controller is purely reactive: the driver hands it one event at a
/// time through `handle_event` and issues the returned display requests.
pub struct WM {
    /// Managed-window records in order of mapping; index 0 is the master.
    pub win_stack: Vec<Win>,
    /// The active layout algorithm.
    pub layout: Layout,
    /// Cooperative running flag, read by the driver between events.
    pub running: bool,
    /// Screen width in pixels.
    pub screen_width: u16,
    /// Screen height in pixels.
    pub screen_height: u16,
    /// Height of the status bar reserved at the top of the screen.
    pub bar_height: u16,
    /// Border width given to every frame window.
    pub border_width: u16,
}

impl WM {
    /// The controller invariant: the bar fits on the screen, no client is
    /// managed twice, and no frame is shared between two records.
    pub open spec fn wf(self) -> bool {
        &&& self.bar_height <= self.screen_height
        &&& stack_wf(self.win_stack@)
    }

    /// Everything but the window stack is the same in `self` and `other`.
    pub open spec fn same_config(self, other: WM) -> bool {
        &&& self.layout == other.layout
        &&& self.running == other.running
        &&& self.screen_width == other.screen_width
        &&& self.screen_height == other.screen_height
        &&& self.bar_height == other.bar_height
        &&& self.border_width == other.border_width
    }
}

/// The configure requests that push every record of `s` into its slot under
/// the given layout: for each record, first the client is resized to the
/// slot's extent, then the frame is moved and resized to the slot itself.
pub open spec fn arrange_actions(s: Seq<Win>, layout: Layout, screen_w: u16, screen_h: u16, bar_h: u16) -> Seq<Action> {
    Seq::new(
        (2 * s.len()) as nat,
        |j: int|
            {
                let r = layout_rect(layout, screen_w, screen_h, bar_h, s.len() as int, j / 2);
                if j % 2 == 0 {
                    Action::ConfigureClient {
                        window: s[j / 2].client,
                        width: r.2 as u32,
                        height: r.3 as u32,
                    }
                } else {
                    Action::ConfigureFrame {
                        window: s[j / 2].frame,
                        x: r.0 as i32,
                        y: r.1 as i32,
                        width: r.2 as u32,
                        height: r.3 as u32,
                    }
                }
            },
    )
}

/// The display requests of the map workflow for client `c` wrapped by frame
/// `f`: create the frame at the client's current geometry, add the client
/// to the save-set, reparent it into the frame, map both, then re-arrange
/// the whole (already extended) stack `s`.
pub open spec fn map_actions(
    c: Window,
    f: Window,
    x: i16,
    y: i16,
    width: u16,
    height: u16,
    border_width: u16,
    s: Seq<Win>,
    layout: Layout,
    screen_w: u16,
    screen_h: u16,
    bar_h: u16,
) -> Seq<Action> {
    seq![
        Action::CreateFrame { frame: f, x, y, width, height, border_width },
        Action::AddToSaveSet { window: c },
        Action::ReparentToFrame { window: c, frame: f },
        Action::MapWindow { window: c },
        Action::MapWindow { window: f },
    ] + arrange_actions(s, layout, screen_w, screen_h, bar_h)
}

/// The display requests of the unmap workflow for client `c` wrapped by
/// frame `f`: hide the frame, give the client back to the root, drop it
/// from the save-set, destroy the frame, then re-arrange the remaining
/// stack `s`.
pub open spec fn unmap_actions(
    c: Window,
    f: Window,
    s: Seq<Win>,
    layout: Layout,
    screen_w: u16,
    screen_h: u16,
    bar_h: u16,
) -> Seq<Action> {
    seq![
        Action::UnmapWindow { window: f },
        Action::ReparentToRoot { window: c },
        Action::RemoveFromSaveSet { window: c },
        Action::DestroyWindow { window: f },
    ] + arrange_actions(s, layout, screen_w, screen_h, bar_h)
}

/// Law: with no managed window, arranging the screen is a no-op — no
/// geometry (in particular no division by a zero window count) is computed
/// and no display request is issued.
pub proof fn lemma_arrange_empty(layout: Layout, screen_w: u16, screen_h: u16, bar_h: u16)
    ensures
        arrange_actions(Seq::<Win>::empty(), layout, screen_w, screen_h, bar_h)
            == Seq::<Action>::empty(),
{
    assert(arrange_actions(Seq::<Win>::empty(), layout, screen_w, screen_h, bar_h)
        =~= Seq::<Action>::empty());
}

/// With `q == total / n`, every slot index `i < n` starts at `i * q`, which
/// stays within `total`.
proof fn lemma_slot_bound(total: int, n: int, i: int)
    requires
        0 <= total,
        1 <= n,
        0 <= i < n,
    ensures
        0 <= i * (total / n),
        i * (total / n) <= total,
{
    let q = total / n;
    lemma_fundamental_div_mod(total, n);
    lemma_mod_division_less_than_divisor(total, n);
    assert(q >= 0) by (nonlinear_arith)
        requires
            total == n * q + total % n,
            0 <= total % n < n,
            0 <= total,
            1 <= n,
    ;
    lemma_mul_inequality(0, i, q);
    lemma_mul_inequality(i, n - 1, q);
    assert((n - 1) * q <= total) by (nonlinear_arith)
        requires
            total == n * q + total % n,
            0 <= total % n,
            0 <= q,
            1 <= n,
    ;
}

impl WM {
    /// Builds a controller with an empty registry, the tile layout, and the
    /// running flag set, over a screen whose bar fits on it.
    pub fn new(screen_width: u16, screen_height: u16, bar_height: u16, border_width: u16) -> (r: WM)
        requires
            bar_height <= screen_height,
        ensures
            r.wf(),
            r.win_stack@ == Seq::<Win>::empty(),
            r.layout == Layout::Tile,
            r.running,
            r.screen_width == screen_width,
            r.screen_height == screen_height,
            r.bar_height == bar_height,
            r.border_width == border_width,
    {
        let wm = WM {
            win_stack: Vec::new(),
            layout: Layout::Tile,
            running: true,
            screen_width,
            screen_height,
            bar_height,
            border_width,
        };
        proof {
            assert(wm.win_stack@ =~= Seq::<Win>::empty());
        }
        wm
    }

    /// Confirms or refuses window-manager setup. The driver requests
    /// exclusive substructure redirect on the root window and reports in
    /// `granted` whether the display server allowed it; when it did not,
    /// another window manager is running and setup must fail.
    pub fn become_wm(&self, granted: bool) -> (r: Result<(), WmError>)
        ensures
            granted <==> r is Ok,
            !granted ==> r == Err::<(), WmError>(WmError::RedirectRefused),
    {
        if granted {
            Ok(())
        } else {
            Err(WmError::RedirectRefused)
        }
    }

    /// The status-bar rectangle the driver should fill when rendering: the
    /// reserved strip across the top of the screen.
    pub fn render(&self) -> (r: Rect)
        ensures
            rect_is(r, (0, 0, self.screen_width as int, self.bar_height as int)),
    {
        Rect { x: 0, y: 0, width: self.screen_width as u32, height: self.bar_height as u32 }
    }

    /// Whether the event loop should keep running.
    pub fn is_running(&self) -> (r: bool)
        ensures
            r == self.running,
    {
        self.running
    }

    /// Clears the running flag; the driver exits its loop at the next check.
    pub fn terminate(&mut self)
        ensures
            !final(self).running,
            final(self).win_stack@ == old(self).win_stack@,
            final(self).layout == old(self).layout,
            final(self).screen_width == old(self).screen_width,
            final(self).screen_height == old(self).screen_height,
            final(self).bar_height == old(self).bar_height,
            final(self).border_width == old(self).border_width,
    {
        self.running = false;
    }

    /// Emits the two configure requests that put one record into its slot:
    /// the client fills the interior, the frame takes the slot itself.
    fn arrange_window(win: &Win, x: i32, y: i32, width: u32, height: u32, out: &mut Vec<Action>)
        ensures
            final(out)@ == old(out)@ + seq![
                Action::ConfigureClient { window: win.client, width, height },
                Action::ConfigureFrame { window: win.frame, x, y, width, height },
            ],
    {
        out.push(Action::ConfigureClient { window: win.client, width, height });
        out.push(Action::ConfigureFrame { window: win.frame, x, y, width, height });
        proof {
            assert(out@ =~= old(out)@ + seq![
                Action::ConfigureClient { window: win.client, width, height },
                Action::ConfigureFrame { window: win.frame, x, y, width, height },
            ]);
        }
    }

    /// Column layout: each of the `n` managed windows gets an equal column
    /// of width `floor(screen_width / n)` under the bar. With no managed
    /// window this is a no-op, never a division by zero.
    #[verifier::loop_isolation(false)]
    fn layout_column(&self) -> (r: Vec<Action>)
        requires
            self.bar_height <= self.screen_height,
        ensures
            r@ == arrange_actions(self.win_stack@, Layout::Column, self.screen_width, self.screen_height, self.bar_height),
    {
        let ghost spec_out = arrange_actions(
            self.win_stack@,
            Layout::Column,
            self.screen_width,
            self.screen_height,
            self.bar_height,
        );
        let mut out: Vec<Action> = Vec::new();
        let n = self.win_stack.len();
        if n == 0 {
            proof {
                assert(out@ =~= spec_out);
            }
            return out;
        }
        let cw: usize = self.screen_width as usize / n;
        let uh: u32 = (self.screen_height - self.bar_height) as u32;
        let mut i: usize = 0;
        while i < n
            invariant
                i <= n,
                out@.len() == 2 * i,
                forall|j: int| 0 <= j < 2 * i ==> out@[j] == spec_out[j],
            decreases n - i,
        {
            proof {
                lemma_slot_bound(self.screen_width as int, n as int, i as int);
            }
            let x: i32 = (i * cw) as i32;
            let win = &self.win_stack[i];
            Self::arrange_window(win, x, self.bar_height as i32, cw as u32, uh, &mut out);
            i += 1;
        }
        proof {
            assert(out@ =~= spec_out);
        }
        out
    }

    /// Tile layout: one window fills the usable area; otherwise the master
    /// takes the left half at full usable height and the slaves split the
    /// right half into equal slices. With no managed window this is a no-op.
    #[verifier::loop_isolation(false)]
    fn layout_tile(&self) -> (r: Vec<Action>)
        requires
            self.bar_height <= self.screen_height,
        ensures
            r@ == arrange_actions(self.win_stack@, Layout::Tile, self.screen_width, self.screen_height, self.bar_height),
    {
        let ghost spec_out = arrange_actions(
            self.win_stack@,
            Layout::Tile,
            self.screen_width,
            self.screen_height,
            self.bar_height,
        );
        let mut out: Vec<Action> = Vec::new();
        let n = self.win_stack.len();
        if n == 0 {
            proof {
                assert(out@ =~= spec_out);
            }
            return out;
        }

        let tw: usize = if n > 1 {
            self.screen_width as usize / 2
        } else {
            self.screen_width as usize
        };
        let uh: u32 = (self.screen_height - self.bar_height) as u32;

        let master = &self.win_stack[0];
        Self::arrange_window(master, 0, self.bar_height as i32, tw as u32, uh, &mut out);

        if n == 1 {
            proof {
                assert(out@ =~= spec_out);
            }
            return out;
        }

        let sh: usize = uh as usize / (n - 1);
        let mut i: usize = 1;
        while i < n
            invariant
                1 <= i <= n,
                out@.len() == 2 * i,
                forall|j: int| 0 <= j < 2 * i ==> out@[j] == spec_out[j],
            decreases n - i,
        {
            proof {
                lemma_slot_bound(uh as int, n as int - 1, i as int - 1);
                assert((i as int - 1) * (sh as int) <= uh as int);
                assert((sh as int) * (i as int - 1) <= uh as int) by (nonlinear_arith)
                    requires
                        (i as int - 1) * (sh as int) <= uh as int,
                ;
            }
            let y: i32 = (self.bar_height as usize + sh * (i - 1)) as i32;
            let win = &self.win_stack[i];
            Self::arrange_window(win, tw as i32, y, tw as u32, sh as u32, &mut out);
            i += 1;
        }
        proof {
            assert(out@ =~= spec_out);
        }
        out
    }

    /// The map workflow: frames the client, registers it, and re-arranges
    /// the screen. The request is ignored — no registry change, no display
    /// requests — when the client is already managed or the supplied frame
    /// identifier is already in use, so that the registry invariant
    /// survives any event sequence.
    fn handle_map_window(
        &mut self,
        client: Window,
        frame: Window,
        x: i16,
        y: i16,
        width: u16,
        height: u16,
    ) -> (actions: Vec<Action>)
        requires
            old(self).wf(),
        ensures
            final(self).wf(),
            old(self).same_config(*final(self)),
            if !has_client(old(self).win_stack@, client) && !has_frame(old(self).win_stack@, frame) {
                &&& final(self).win_stack@ == old(self).win_stack@.push(Win { client, frame })
                &&& actions@ == map_actions(
                    client,
                    frame,
                    x,
                    y,
                    width,
                    height,
                    old(self).border_width,
                    final(self).win_stack@,
                    old(self).layout,
                    old(self).screen_width,
                    old(self).screen_height,
                    old(self).bar_height,
                )
            } else {
                &&& final(self).win_stack@ == old(self).win_stack@
                &&& actions@ == Seq::<Action>::empty()
            },
    {
        let known = find_win_by_id(&self.win_stack, client);
        if known.is_some() || contains_frame(&self.win_stack, frame) {
            let none: Vec<Action> = Vec::new();
            proof {
                assert(none@ =~= Seq::<Action>::empty());
            }
            return none;
        }

        let mut actions: Vec<Action> = Vec::new();
        actions.push(Action::CreateFrame {
            frame,
            x,
            y,
            width,
            height,
            border_width: self.border_width,
        });
        actions.push(Action::AddToSaveSet { window: client });
        actions.push(Action::ReparentToFrame { window: client, frame });
        actions.push(Action::MapWindow { window: client });
        actions.push(Action::MapWindow { window: frame });

        self.win_stack.push(Win { client, frame });
        proof {
            let s0 = old(self).win_stack@;
            let s1 = self.win_stack@;
            assert(s1 =~= s0.push(Win { client, frame }));
            assert forall|i: int, j: int| 0 <= i < j < s1.len() implies s1[i].client
                != s1[j].client by {
                if j < s0.len() {
                    assert(s0[i].client != s0[j].client);
                } else {
                    assert(s1[j].client == client);
                    if s1[i].client == client {
                        assert(0 <= i < s0.len() && s0[i].client == client);
                        assert(has_client(s0, client));
                    }
                }
            }
            assert forall|i: int, j: int| 0 <= i < j < s1.len() implies s1[i].frame
                != s1[j].frame by {
                if j < s0.len() {
                    assert(s0[i].frame != s0[j].frame);
                } else {
                    assert(s1[j].frame == frame);
                    if s1[i].frame == frame {
                        assert(0 <= i < s0.len() && s0[i].frame == frame);
                        assert(has_frame(s0, frame));
                    }
                }
            }
        }

        let mut arranged = self.arrange_windows();
        actions.append(&mut arranged);
        proof {
            assert(actions@ =~= map_actions(
                client,
                frame,
                x,
                y,
                width,
                height,
                old(self).border_width,
                self.win_stack@,
                old(self).layout,
                old(self).screen_width,
                old(self).screen_height,
                old(self).bar_height,
            ));
        }
        actions
    }

    /// The unmap workflow: unframes the client, forgets it, and re-arranges
    /// the screen. A notification for an unmanaged client is a benign race
    /// and a strict no-op: registry and layout stay untouched and no
    /// display request is issued.
    fn handle_unmap_window(&mut self, client: Window) -> (actions: Vec<Action>)
        requires
            old(self).wf(),
        ensures
            final(self).wf(),
            old(self).same_config(*final(self)),
            if has_client(old(self).win_stack@, client) {
                let i = client_index(old(self).win_stack@, client);
                &&& final(self).win_stack@ == old(self).win_stack@.remove(i)
                &&& actions@ == unmap_actions(
                    client,
                    old(self).win_stack@[i].frame,
                    final(self).win_stack@,
                    old(self).layout,
                    old(self).screen_width,
                    old(self).screen_height,
                    old(self).bar_height,
                )
            } else {
                &&& final(self).win_stack@ == old(self).win_stack@
                &&& actions@ == Seq::<Action>::empty()
            },
    {
        let found = find_win_by_id(&self.win_stack, client);
        match found {
            None => {
                let none: Vec<Action> = Vec::new();
                proof {
                    assert(none@ =~= Seq::<Action>::empty());
                }
                none
            }
            Some(idx) => {
                let ghost s0 = self.win_stack@;
                let frame = self.win_stack[idx].frame;
                proof {
                    let k = client_index(s0, client);
                    assert(0 <= k < s0.len() && s0[k].client == client);
                    assert(k == idx);
                }

                let mut actions: Vec<Action> = Vec::new();
                actions.push(Action::UnmapWindow { window: frame });
                actions.push(Action::ReparentToRoot { window: client });
                actions.push(Action::RemoveFromSaveSet { window: client });
                actions.push(Action::DestroyWindow { window: frame });

                remove_win_by_id(&mut self.win_stack, client);
                proof {
                    let s1 = self.win_stack@;
                    assert(s1 == s0.remove(idx as int));
                    assert forall|i: int, j: int| 0 <= i < j < s1.len() implies s1[i].client
                        != s1[j].client by {
                        let i0 = if i < idx { i } else { i + 1 };
                        let j0 = if j < idx { j } else { j + 1 };
                        assert(s1[i] == s0[i0] && s1[j] == s0[j0]);
                        assert(s0[i0].client != s0[j0].client);
                    }
                    assert forall|i: int, j: int| 0 <= i < j < s1.len() implies s1[i].frame
                        != s1[j].frame by {
                        let i0 = if i < idx { i } else { i + 1 };
                        let j0 = if j < idx { j } else { j + 1 };
                        assert(s1[i] == s0[i0] && s1[j] == s0[j0]);
                        assert(s0[i0].frame != s0[j0].frame);
                    }
                }

                let mut arranged = self.arrange_windows();
                actions.append(&mut arranged);
                proof {
                    assert(actions@ =~= unmap_actions(
                        client,
                        s0[idx as int].frame,
                        self.win_stack@,
                        old(self).layout,
                        old(self).screen_width,
                        old(self).screen_height,
                        old(self).bar_height,
                    ));
                }
                actions
            }
        }
    }

    /// The reactive switch at the heart of the controller: classifies one
    /// event and returns the display requests it calls for, in order.
    ///
    /// Map requests and unmap notifications run the workflows above; key
    /// presses are forwarded untouched to the hotkey subsystem; creation
    /// and destruction notifications, configure requests (blocked, so the
    /// layout engine stays the sole authority over managed geometry) and
    /// every unknown event kind are ignored.
    pub fn handle_event(&mut self, event: &WmEvent) -> (actions: Vec<Action>)
        requires
            old(self).wf(),
        ensures
            final(self).wf(),
            old(self).same_config(*final(self)),
            match *event {
                WmEvent::MapRequest { window, frame, x, y, width, height } => {
                    if !has_client(old(self).win_stack@, window) && !has_frame(
                        old(self).win_stack@,
                        frame,
                    ) {
                        &&& final(self).win_stack@ == old(self).win_stack@.push(
                            Win { client: window, frame },
                        )
                        &&& actions@ == map_actions(
                            window,
                            frame,
                            x,
                            y,
                            width,
                            height,
                            old(self).border_width,
                            final(self).win_stack@,
                            old(self).layout,
                            old(self).screen_width,
                            old(self).screen_height,
                            old(self).bar_height,
                        )
                    } else {
                        &&& final(self).win_stack@ == old(self).win_stack@
                        &&& actions@ == Seq::<Action>::empty()
                    }
                },
                WmEvent::UnmapNotify { window } => {
                    if has_client(old(self).win_stack@, window) {
                        let i = client_index(old(self).win_stack@, window);
                        &&& final(self).win_stack@ == old(self).win_stack@.remove(i)
                        &&& actions@ == unmap_actions(
                            window,
                            old(self).win_stack@[i].frame,
                            final(self).win_stack@,
                            old(self).layout,
                            old(self).screen_width,
                            old(self).screen_height,
                            old(self).bar_height,
                        )
                    } else {
                        &&& final(self).win_stack@ == old(self).win_stack@
                        &&& actions@ == Seq::<Action>::empty()
                    }
                },
                WmEvent::KeyPress { code, state } => {
                    &&& final(self).win_stack@ == old(self).win_stack@
                    &&& actions@ == seq![Action::ForwardKey { code, state }]
                },
                _ => {
                    &&& final(self).win_stack@ == old(self).win_stack@
                    &&& actions@ == Seq::<Action>::empty()
                },
            },
    {
        match *event {
            WmEvent::MapRequest { window, frame, x, y, width, height } => {
                self.handle_map_window(window, frame, x, y, width, height)
            }
            WmEvent::UnmapNotify { window } => self.handle_unmap_window(window),
            WmEvent::KeyPress { code, state } => {
                let mut actions: Vec<Action> = Vec::new();
                actions.push(Action::ForwardKey { code, state });
                proof {
                    assert(actions@ =~= seq![Action::ForwardKey { code, state }]);
                }
                actions
            }
            _ => {
                let none: Vec<Action> = Vec::new();
                proof {
                    assert(none@ =~= Seq::<Action>::empty());
                }
                none
            }
        }
    }

    /// Recomputes the whole layout: the configure requests that place every
    /// managed window into its slot under the active layout mode.
    pub fn arrange_windows(&self) -> (r: Vec<Action>)
        requires
            self.bar_height <= self.screen_height,
        ensures
            r@ == arrange_actions(self.win_stack@, self.layout, self.screen_width, self.screen_height, self.bar_height),
    {
        match self.layout {
            Layout::Column => self.layout_column(),
            Layout::Tile => self.layout_tile(),
        }
    }
}

} // verus!
