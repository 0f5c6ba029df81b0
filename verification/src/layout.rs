use vstd::prelude::*;

verus! {

/// Which algorithm arranges the managed windows on screen.
#[derive(Clone, Copy, Debug, PartialEq, Eq, Structural)]
pub enum Layout {
    /// Equal-width columns side by side under the bar.
    Column,
    /// One master window on the left half, the rest stacked on the right.
    Tile,
}

/// Height of the screen area available to windows: everything below the bar.
pub open spec fn usable_height(screen_h: u16, bar_h: u16) -> int {
    screen_h - bar_h
}

/// Geometry of window `i` out of `n` in column layout: `n` equal columns of
/// width `floor(screen_w / n)`, each spanning the full usable height.
/// Meaningful for `1 <= n` and `0 <= i < n`.
pub open spec fn column_rect(screen_w: u16, screen_h: u16, bar_h: u16, n: int, i: int) -> (int, int, int, int) {
    let w = screen_w as int / n;
    (i * w, bar_h as int, w, usable_height(screen_h, bar_h))
}

/// Geometry of window `i` out of `n` in tile layout. A single window fills
/// the whole usable area; otherwise the master (index 0) takes the left half
/// at full usable height and the `n - 1` slaves split the right half into
/// equal slices of height `floor(usable_height / (n - 1))`.
/// Meaningful for `1 <= n` and `0 <= i < n`.
pub open spec fn tile_rect(screen_w: u16, screen_h: u16, bar_h: u16, n: int, i: int) -> (int, int, int, int) {
    let uh = usable_height(screen_h, bar_h);
    if n <= 1 {
        (0, bar_h as int, screen_w as int, uh)
    } else {
        let w = screen_w as int / 2;
        if i == 0 {
            (0, bar_h as int, w, uh)
        } else {
            let sh = uh / (n - 1);
            (w, bar_h as int + sh * (i - 1), w, sh)
        }
    }
}

/// Geometry of window `i` out of `n` under the given layout mode.
pub open spec fn layout_rect(layout: Layout, screen_w: u16, screen_h: u16, bar_h: u16, n: int, i: int) -> (int, int, int, int) {
    match layout {
        Layout::Column => column_rect(screen_w, screen_h, bar_h, n, i),
        Layout::Tile => tile_rect(screen_w, screen_h, bar_h, n, i),
    }
}

/// Law: column layout assigns every one of the `n` windows the same width,
/// `floor(screen_w / n)`. (With no window at all, no geometry — and in
/// particular no division — is computed; see `arrange_actions`.)
pub proof fn lemma_column_equal_widths(screen_w: u16, screen_h: u16, bar_h: u16, n: int, i: int)
    requires
        1 <= n,
        0 <= i < n,
    ensures
        column_rect(screen_w, screen_h, bar_h, n, i).2 == screen_w as int / n,
        column_rect(screen_w, screen_h, bar_h, n, i).0 == i * (screen_w as int / n),
        column_rect(screen_w, screen_h, bar_h, n, i).1 == bar_h as int,
        column_rect(screen_w, screen_h, bar_h, n, i).3 == usable_height(screen_h, bar_h),
{
}

/// Law: tile layout with a single window gives it the whole usable area,
/// `(0, bar_h, screen_w, screen_h - bar_h)`.
pub proof fn lemma_tile_single(screen_w: u16, screen_h: u16, bar_h: u16)
    ensures
        tile_rect(screen_w, screen_h, bar_h, 1, 0) == (
            0int,
            bar_h as int,
            screen_w as int,
            screen_h - bar_h,
        ),
{
}

/// Law: tile layout with two windows puts the master on the left half and
/// the single slave on the right half, both at full usable height.
pub proof fn lemma_tile_pair(screen_w: u16, screen_h: u16, bar_h: u16)
    ensures
        tile_rect(screen_w, screen_h, bar_h, 2, 0) == (
            0int,
            bar_h as int,
            screen_w as int / 2,
            screen_h - bar_h,
        ),
        tile_rect(screen_w, screen_h, bar_h, 2, 1) == (
            screen_w as int / 2,
            bar_h as int,
            screen_w as int / 2,
            screen_h - bar_h,
        ),
{
}

/// Law: tile layout with three windows puts the master on the left half at
/// full usable height and the two slaves on the right half, each of half
/// the usable height, at `bar_h` and `bar_h + slave_height` respectively.
pub proof fn lemma_tile_triple(screen_w: u16, screen_h: u16, bar_h: u16)
    ensures
        tile_rect(screen_w, screen_h, bar_h, 3, 0) == (
            0int,
            bar_h as int,
            screen_w as int / 2,
            screen_h - bar_h,
        ),
        tile_rect(screen_w, screen_h, bar_h, 3, 1) == (
            screen_w as int / 2,
            bar_h as int,
            screen_w as int / 2,
            (screen_h - bar_h) as int / 2,
        ),
        tile_rect(screen_w, screen_h, bar_h, 3, 2) == (
            screen_w as int / 2,
            bar_h as int + (screen_h - bar_h) as int / 2,
            screen_w as int / 2,
            (screen_h - bar_h) as int / 2,
        ),
{
}

} // verus!
