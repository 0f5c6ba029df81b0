use vstd::prelude::*;
use crate::events::Window;

verus! {

/// One managed-window record: the client window and the frame that wraps it.
#[derive(Clone, Copy, Debug, PartialEq, Eq, Structural)]
pub struct Win {
    /// The application-owned window being managed.
    pub client: Window,
    /// The window-manager-owned frame that contains the client.
    pub frame: Window,
}

/// No two records share a client identifier.
pub open spec fn clients_distinct(s: Seq<Win>) -> bool {
    forall|i: int, j: int| 0 <= i < j < s.len() ==> s[i].client != s[j].client
}

/// No two records share a frame identifier.
pub open spec fn frames_distinct(s: Seq<Win>) -> bool {
    forall|i: int, j: int| 0 <= i < j < s.len() ==> s[i].frame != s[j].frame
}

/// The registry invariant: every client and every frame appears at most once.
pub open spec fn stack_wf(s: Seq<Win>) -> bool {
    clients_distinct(s) && frames_distinct(s)
}

/// Some record in `s` manages the client `c`.
pub open spec fn has_client(s: Seq<Win>, c: Window) -> bool {
    exists|i: int| 0 <= i < s.len() && s[i].client == c
}

/// Some record in `s` owns the frame `f`.
pub open spec fn has_frame(s: Seq<Win>, f: Window) -> bool {
    exists|i: int| 0 <= i < s.len() && s[i].frame == f
}

/// The position of the record managing client `c`; unique when the clients
/// of `s` are distinct and `has_client(s, c)` holds.
pub open spec fn client_index(s: Seq<Win>, c: Window) -> int {
    choose|i: int| 0 <= i < s.len() && s[i].client == c
}

/// Locates the record managing client `win`, returning its position in the
/// stack, or `None` when the client is not managed.
pub fn find_win_by_id(stack: &Vec<Win>, win: Window) -> (r: Option<usize>)
    ensures
        match r {
            Some(i) => i < stack@.len() && stack@[i as int].client == win,
            None => !has_client(stack@, win),
        },
{
    let n = stack.len();
    let mut i: usize = 0;
    while i < n
        invariant
            i <= n,
            n == stack@.len(),
            forall|j: int| 0 <= j < i ==> stack@[j].client != win,
        decreases n - i,
    {
        if stack[i].client == win {
            return Some(i);
        }
        i += 1;
    }
    None
}

/// Whether any record owns the frame `win`.
pub fn contains_frame(stack: &Vec<Win>, win: Window) -> (r: bool)
    ensures
        r == has_frame(stack@, win),
{
    let n = stack.len();
    let mut i: usize = 0;
    while i < n
        invariant
            i <= n,
            n == stack@.len(),
            forall|j: int| 0 <= j < i ==> stack@[j].frame != win,
        decreases n - i,
    {
        if stack[i].frame == win {
            return true;
        }
        i += 1;
    }
    false
}

/// Removes the record managing client `win`. The caller guarantees that the
/// client is present; with distinct clients the removed position is exactly
/// `client_index(stack, win)`.
pub fn remove_win_by_id(stack: &mut Vec<Win>, win: Window)
    requires
        clients_distinct(old(stack)@),
        has_client(old(stack)@, win),
    ensures
        final(stack)@ == old(stack)@.remove(client_index(old(stack)@, win)),
{
    let ghost s0 = stack@;
    let pos = find_win_by_id(stack, win);
    match pos {
        Some(i) => {
            proof {
                let k = client_index(s0, win);
                assert(0 <= k < s0.len() && s0[k].client == win);
                assert(k == i);
            }
            stack.remove(i);
        }
        None => {
            proof {
                assert(false);
            }
        }
    }
}

} // verus!
