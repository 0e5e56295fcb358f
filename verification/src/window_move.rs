//! Planning of the window moves that bring every top-level window onto one
//! display.  The caller gathers what the system says of each window; the
//! plan says which windows move and where.

use vstd::prelude::*;

verus! {

/// `WS_CHILD`: the window is a child window.
pub const WS_CHILD: u32 = 0x4000_0000;

/// A rectangle in desktop coordinates.
#[derive(Clone, Copy, Debug, PartialEq, Eq)]
pub struct Rect {
    pub left: i32,
    pub top: i32,
    pub right: i32,
    pub bottom: i32,
}

/// What the system says of one top-level window.
#[derive(Clone, Copy, Debug, PartialEq, Eq)]
pub struct WindowSnapshot {
    pub visible: bool,
    /// The window is the desktop window or the shell window.
    pub is_desktop_or_shell: bool,
    pub style: u32,
    pub minimized: bool,
    /// The restored position of a minimized window, the window rectangle of
    /// any other; `None` when it could not be read.
    pub rect: Option<Rect>,
}

/// A planned move of the window at position `index` of the snapshot list.
#[derive(Clone, Copy, Debug, PartialEq, Eq)]
pub enum WindowMove {
    /// Move and resize a window that is shown.
    Normal { index: usize, x: i32, y: i32, width: i32, height: i32 },
    /// Change where a minimized window is restored to, keeping it minimized.
    Minimized { index: usize, restored: Rect },
}

/// The rectangle of a display at `(x, y)` of `width` by `height` pixels.
pub open spec fn spec_target_rect(x: i32, y: i32, width: u32, height: u32) -> Rect {
    Rect {
        left: x,
        top: y,
        right: (x + (width as i32)) as i32,
        bottom: (y + (height as i32)) as i32,
    }
}

/// The right and bottom edges of the display rectangle fit in `i32`.
pub open spec fn target_rect_fits(x: i32, y: i32, width: u32, height: u32) -> bool {
    &&& i32::MIN <= x + (width as i32) <= i32::MAX
    &&& i32::MIN <= y + (height as i32) <= i32::MAX
}

/// Whether the rectangle of a display at `(x, y)` of `width` by `height`
/// pixels has edges within `i32`.
pub fn target_rect_in_range(x: i32, y: i32, width: u32, height: u32) -> (b: bool)
    ensures
        b == target_rect_fits(x, y, width, height),
{
    let w = #[verifier::truncate]
    (width as i32);
    let h = #[verifier::truncate]
    (height as i32);
    let r = (x as i64) + (w as i64);
    let b = (y as i64) + (h as i64);
    r >= i32::MIN as i64 && r <= i32::MAX as i64 && b >= i32::MIN as i64 && b <= i32::MAX as i64
}

/// The rectangle of a display at `(x, y)` of `width` by `height` pixels.
pub fn target_rect(x: i32, y: i32, width: u32, height: u32) -> (r: Rect)
    requires
        target_rect_fits(x, y, width, height),
    ensures
        r == spec_target_rect(x, y, width, height),
        r.left == x,
        r.top == y,
        r.right - r.left == width as i32,
        r.bottom - r.top == height as i32,
{
    let w = #[verifier::truncate]
    (width as i32);
    let h = #[verifier::truncate]
    (height as i32);
    Rect { left: x, top: y, right: x + w, bottom: y + h }
}

/// The display rectangle has its corner at the display's position and the
/// display's size: its width is the display's width and its height is the
/// display's height (each read as `i32`, as the display settings give them).
pub proof fn lemma_target_rect_size(x: i32, y: i32, width: u32, height: u32)
    requires
        target_rect_fits(x, y, width, height),
    ensures
        spec_target_rect(x, y, width, height).left == x,
        spec_target_rect(x, y, width, height).top == y,
        spec_target_rect(x, y, width, height).right - spec_target_rect(x, y, width, height).left
            == width as i32,
        spec_target_rect(x, y, width, height).bottom - spec_target_rect(x, y, width, height).top
            == height as i32,
{
}

/// Width and height of `r` fit in `i32`.
pub open spec fn dims_fit(r: Rect) -> bool {
    &&& i32::MIN <= r.right - r.left <= i32::MAX
    &&& i32::MIN <= r.bottom - r.top <= i32::MAX
}

/// Whether a window is one that gets moved at all: a visible top-level
/// window other than the desktop and the shell window (child windows are not
/// top-level).
pub open spec fn is_move_candidate(w: WindowSnapshot) -> bool {
    &&& w.visible
    &&& !w.is_desktop_or_shell
    &&& w.style & WS_CHILD == 0
}

/// The smaller of `a` and `b`.
pub open spec fn spec_min(a: int, b: int) -> int {
    if a <= b {
        a
    } else {
        b
    }
}

/// Half of `a`, rounded toward zero, as integer division does.
pub open spec fn half(a: int) -> int {
    if a >= 0 {
        a / 2
    } else {
        -((-a) / 2)
    }
}

/// Whether the center of `r` lies on the display `t`.
pub open spec fn center_on(t: Rect, r: Rect) -> bool {
    let cx = r.left + half(r.right - r.left);
    let cy = r.top + half(r.bottom - r.top);
    t.left <= cx < t.right && t.top <= cy < t.bottom
}

/// Where a window with rectangle `r` goes on the display `t`, as `(x, y,
/// width, height)`: nowhere when its center already lies on the display;
/// otherwise it keeps its size, cut to the display's, and is centered on the
/// display.
pub open spec fn window_placement(t: Rect, r: Rect) -> Option<(int, int, int, int)> {
    let tw = t.right - t.left;
    let th = t.bottom - t.top;
    let ww = r.right - r.left;
    let wh = r.bottom - r.top;
    if center_on(t, r) {
        None
    } else {
        let nw = spec_min(ww, tw);
        let nh = spec_min(wh, th);
        Some((t.left + (tw - nw) / 2, t.top + (th - nh) / 2, nw, nh))
    }
}

/// An integer that an `i32` holds.
pub open spec fn in_i32(v: int) -> bool {
    i32::MIN <= v <= i32::MAX
}

/// The arithmetic of placing a window with rectangle `r` on the display `t`
/// stays within `i32`: the window's width and height, the free space beside
/// the placed window, its new position, and, for a minimized window, the
/// right and bottom edges of its new restored rectangle.
pub open spec fn placement_fits(t: Rect, r: Rect, minimized: bool) -> bool {
    &&& dims_fit(r)
    &&& match window_placement(t, r) {
        Some((x, y, w, h)) => {
            &&& in_i32((t.right - t.left) - w)
            &&& in_i32((t.bottom - t.top) - h)
            &&& in_i32(x)
            &&& in_i32(y)
            &&& minimized ==> in_i32(x + w) && in_i32(y + h)
        },
        None => true,
    }
}

/// The planned move, if any, of window `w` at position `index`.
pub open spec fn move_for(t: Rect, w: WindowSnapshot, index: int) -> Option<WindowMove> {
    if !is_move_candidate(w) {
        None
    } else {
        match w.rect {
            None => None,
            Some(r) => match window_placement(t, r) {
                None => None,
                Some((x, y, nw, nh)) => if w.minimized {
                    Some(
                        WindowMove::Minimized {
                            index: index as usize,
                            restored: Rect {
                                left: x as i32,
                                top: y as i32,
                                right: (x + nw) as i32,
                                bottom: (y + nh) as i32,
                            },
                        },
                    )
                } else {
                    Some(
                        WindowMove::Normal {
                            index: index as usize,
                            x: x as i32,
                            y: y as i32,
                            width: nw as i32,
                            height: nh as i32,
                        },
                    )
                },
            },
        }
    }
}

/// The planned moves of the windows, in window order.
pub open spec fn planned_moves(t: Rect, windows: Seq<WindowSnapshot>) -> Seq<WindowMove>
    decreases windows.len(),
{
    if windows.len() == 0 {
        Seq::empty()
    } else {
        let prev = planned_moves(t, windows.drop_last());
        match move_for(t, windows.last(), windows.len() - 1) {
            Some(m) => prev.push(m),
            None => prev,
        }
    }
}

/// The planning arithmetic stays within `i32`: the display's width and
/// height fit, and so does the placement of every candidate window whose
/// rectangle was read.
pub open spec fn plan_fits(t: Rect, windows: Seq<WindowSnapshot>) -> bool {
    &&& dims_fit(t)
    &&& forall|i: int|
        0 <= i < windows.len() ==> (is_move_candidate(#[trigger] windows[i]) && windows[i].rect
            is Some ==> placement_fits(t, windows[i].rect->0, windows[i].minimized))
}

fn i64_in_i32(v: i64) -> (b: bool)
    ensures
        b == in_i32(v as int),
{
    v >= i32::MIN as i64 && v <= i32::MAX as i64
}

fn placement_in_range(t: &Rect, r: &Rect, minimized: bool) -> (b: bool)
    requires
        dims_fit(*t),
    ensures
        b == placement_fits(*t, *r, minimized),
{
    let ww = (r.right as i64) - (r.left as i64);
    let wh = (r.bottom as i64) - (r.top as i64);
    if !i64_in_i32(ww) || !i64_in_i32(wh) {
        return false;
    }
    let cx = (r.left as i64) + ww / 2;
    let cy = (r.top as i64) + wh / 2;
    if cx >= t.left as i64 && cx < t.right as i64 && cy >= t.top as i64 && cy < t.bottom as i64 {
        return true;
    }
    let tw = (t.right as i64) - (t.left as i64);
    let th = (t.bottom as i64) - (t.top as i64);
    let nw = if ww <= tw {
        ww
    } else {
        tw
    };
    let nh = if wh <= th {
        wh
    } else {
        th
    };
    let x = (t.left as i64) + (tw - nw) / 2;
    let y = (t.top as i64) + (th - nh) / 2;
    let fits = i64_in_i32(tw - nw) && i64_in_i32(th - nh) && i64_in_i32(x) && i64_in_i32(y);
    if minimized {
        fits && i64_in_i32(x + nw) && i64_in_i32(y + nh)
    } else {
        fits
    }
}

/// Whether planning the moves of `windows` onto `target` stays within `i32`.
pub fn window_plan_in_range(target: &Rect, windows: &Vec<WindowSnapshot>) -> (b: bool)
    ensures
        b == plan_fits(*target, windows@),
{
    if !rect_dims_in_range(target) {
        return false;
    }
    let mut i: usize = 0;
    while i < windows.len()
        invariant
            i <= windows@.len(),
            dims_fit(*target),
            forall|k: int|
                0 <= k < i ==> (is_move_candidate(#[trigger] windows@[k]) && windows@[k].rect
                    is Some ==> placement_fits(*target, windows@[k].rect->0, windows@[k].minimized)),
        decreases windows@.len() - i,
    {
        if is_candidate(&windows[i]) {
            match windows[i].rect {
                Some(r) => {
                    if !placement_in_range(target, &r, windows[i].minimized) {
                        return false;
                    }
                },
                None => {},
            }
        }
        i = i + 1;
    }
    true
}

fn rect_dims_in_range(r: &Rect) -> (b: bool)
    ensures
        b == dims_fit(*r),
{
    let w = (r.right as i64) - (r.left as i64);
    let h = (r.bottom as i64) - (r.top as i64);
    w >= i32::MIN as i64 && w <= i32::MAX as i64 && h >= i32::MIN as i64 && h <= i32::MAX as i64
}

fn is_candidate(w: &WindowSnapshot) -> (b: bool)
    ensures
        b == is_move_candidate(*w),
{
    w.visible && !w.is_desktop_or_shell && w.style & WS_CHILD == 0
}

fn plan_one(t: &Rect, w: &WindowSnapshot, index: usize) -> (m: Option<WindowMove>)
    requires
        dims_fit(*t),
        is_move_candidate(*w) && w.rect is Some ==> placement_fits(*t, w.rect->0, w.minimized),
    ensures
        m == move_for(*t, *w, index as int),
{
    if !is_candidate(w) {
        return None;
    }
    let r = match w.rect {
        Some(r) => r,
        None => {
            return None;
        },
    };
    let target_w = t.right - t.left;
    let target_h = t.bottom - t.top;
    let win_w = r.right - r.left;
    let win_h = r.bottom - r.top;
    let win_cx = r.left + win_w / 2;
    let win_cy = r.top + win_h / 2;
    if win_cx >= t.left && win_cx < t.right && win_cy >= t.top && win_cy < t.bottom {
        return None;
    }
    let new_w = if win_w <= target_w {
        win_w
    } else {
        target_w
    };
    let new_h = if win_h <= target_h {
        win_h
    } else {
        target_h
    };
    let new_x = t.left + (target_w - new_w) / 2;
    let new_y = t.top + (target_h - new_h) / 2;
    if w.minimized {
        Some(
            WindowMove::Minimized {
                index,
                restored: Rect {
                    left: new_x,
                    top: new_y,
                    right: new_x + new_w,
                    bottom: new_y + new_h,
                },
            },
        )
    } else {
        Some(WindowMove::Normal { index, x: new_x, y: new_y, width: new_w, height: new_h })
    }
}

/// Plans the moves that bring the candidate windows onto the display
/// `target`, in window order: see `window_placement` for where each goes.
pub fn plan_window_moves(target: &Rect, windows: &Vec<WindowSnapshot>) -> (moves: Vec<WindowMove>)
    requires
        plan_fits(*target, windows@),
    ensures
        moves@ == planned_moves(*target, windows@),
{
    let mut moves: Vec<WindowMove> = Vec::new();
    let mut i: usize = 0;
    while i < windows.len()
        invariant
            i <= windows@.len(),
            plan_fits(*target, windows@),
            moves@ == planned_moves(*target, windows@.take(i as int)),
        decreases windows@.len() - i,
    {
        let m = plan_one(target, &windows[i], i);
        proof {
            let next = windows@.take(i + 1);
            assert(next.drop_last() =~= windows@.take(i as int));
            assert(next.last() == windows@[i as int]);
        }
        match m {
            Some(mv) => moves.push(mv),
            None => {},
        }
        i = i + 1;
    }
    assert(windows@.take(windows@.len() as int) =~= windows@);
    moves
}

/// A moved window lies on the display: it keeps its own size, cut to the
/// display's, fits between the display's edges, and is centered on the
/// display, the space left of (above) it being at most one pixel less than
/// the space right of (below) it (for a window and a display of nonnegative
/// size).
pub proof fn lemma_placement_within_target(t: Rect, r: Rect)
    requires
        window_placement(t, r) is Some,
        t.left <= t.right,
        t.top <= t.bottom,
        r.left <= r.right,
        r.top <= r.bottom,
    ensures
        ({
            let (x, y, w, h) = window_placement(t, r)->0;
            &&& w == spec_min(r.right - r.left, t.right - t.left)
            &&& h == spec_min(r.bottom - r.top, t.bottom - t.top)
            &&& t.left <= x && x + w <= t.right
            &&& t.top <= y && y + h <= t.bottom
            &&& x - t.left <= t.right - (x + w) <= x - t.left + 1
            &&& y - t.top <= t.bottom - (y + h) <= y - t.top + 1
        }),
{
}

/// Moving is idempotent on a display at least one pixel wide and high: a
/// window of nonnegative size, at the rectangle it was moved to, has its
/// center on the display, so it is not moved again.
pub proof fn lemma_placement_idempotent(t: Rect, r: Rect)
    requires
        window_placement(t, r) is Some,
        t.right - t.left >= 1,
        t.bottom - t.top >= 1,
        r.left <= r.right,
        r.top <= r.bottom,
    ensures
        ({
            let (x, y, w, h) = window_placement(t, r)->0;
            &&& in_i32(x) && in_i32(y) && in_i32(x + w) && in_i32(y + h)
            &&& center_on(
                t,
                Rect {
                    left: x as i32,
                    top: y as i32,
                    right: (x + w) as i32,
                    bottom: (y + h) as i32,
                },
            )
        }),
{
    let (x, y, w, h) = window_placement(t, r)->0;
    let moved = Rect { left: x as i32, top: y as i32, right: (x + w) as i32, bottom: (y + h) as i32 };
    assert(moved.right - moved.left == w);
    assert(moved.bottom - moved.top == h);
}

/// Every visible top-level window other than the desktop and shell windows
/// whose rectangle was read and whose center is off the display gets a move
/// onto the display: a move-and-resize when it is shown, a new restored
/// rectangle when it is minimized.
pub proof fn lemma_off_target_windows_move(t: Rect, w: WindowSnapshot, index: int)
    requires
        w.visible,
        !w.is_desktop_or_shell,
        w.style & WS_CHILD == 0,
        w.rect is Some,
        !center_on(t, w.rect->0),
    ensures
        move_for(t, w, index) is Some,
        w.minimized ==> move_for(t, w, index)->0 is Minimized,
        !w.minimized ==> move_for(t, w, index)->0 is Normal,
{
}

/// Windows that are hidden, the desktop or shell window, child windows,
/// windows whose rectangle could not be read, and windows whose center
/// already lies on the display get no move.
pub proof fn lemma_windows_left_in_place(t: Rect, w: WindowSnapshot, index: int)
    ensures
        !w.visible ==> move_for(t, w, index) is None,
        w.is_desktop_or_shell ==> move_for(t, w, index) is None,
        w.style & WS_CHILD != 0 ==> move_for(t, w, index) is None,
        w.rect is None ==> move_for(t, w, index) is None,
        (w.rect matches Some(r) && center_on(t, r)) ==> move_for(t, w, index) is None,
{
}

/// The move of a window carries its placement on the display: a shown
/// window is moved to the placement's position and resized to its size, and
/// a minimized window gets the placement as its restored rectangle; either
/// move is for the window's own position in the list.
pub proof fn lemma_move_fields(t: Rect, w: WindowSnapshot, index: int)
    requires
        is_move_candidate(w),
        w.rect is Some,
        window_placement(t, w.rect->0) is Some,
        dims_fit(t),
        placement_fits(t, w.rect->0, w.minimized),
        0 <= index <= usize::MAX,
    ensures
        ({
            let (x, y, nw, nh) = window_placement(t, w.rect->0)->0;
            match move_for(t, w, index) {
                Some(WindowMove::Normal { index: i, x: mx, y: my, width, height }) => {
                    &&& !w.minimized
                    &&& i == index
                    &&& mx == x && my == y && width == nw && height == nh
                },
                Some(WindowMove::Minimized { index: i, restored }) => {
                    &&& w.minimized
                    &&& i == index
                    &&& restored.left == x && restored.top == y
                    &&& restored.right - restored.left == nw
                    &&& restored.bottom - restored.top == nh
                },
                None => false,
            }
        }),
{
    let r = w.rect->0;
    let (x, y, nw, nh) = window_placement(t, r)->0;
    assert(in_i32(nw) && in_i32(nh));
}

/// The position, in the snapshot list, of the window that a move is for.
pub open spec fn move_index(m: WindowMove) -> int {
    match m {
        WindowMove::Normal { index, .. } => index as int,
        WindowMove::Minimized { index, .. } => index as int,
    }
}

/// The plan is exactly the moves of the windows that get one, in window
/// order: every planned move is the move of its window, each window is moved
/// at most once, and every window that has a move appears in the plan.
pub proof fn lemma_planned_moves_are_the_window_moves(t: Rect, windows: Seq<WindowSnapshot>)
    requires
        windows.len() <= usize::MAX,
    ensures
        planned_moves(t, windows).len() <= windows.len(),
        forall|k: int|
            0 <= k < planned_moves(t, windows).len() ==> {
                let m = #[trigger] planned_moves(t, windows)[k];
                &&& 0 <= move_index(m) < windows.len()
                &&& move_for(t, windows[move_index(m)], move_index(m)) == Some(m)
            },
        forall|a: int, b: int|
            0 <= a < b < planned_moves(t, windows).len() ==> move_index(
                #[trigger] planned_moves(t, windows)[a],
            ) < move_index(#[trigger] planned_moves(t, windows)[b]),
        forall|i: int|
            0 <= i < windows.len() && (#[trigger] move_for(t, windows[i], i)) is Some ==> exists|
                k: int,
            |
                0 <= k < planned_moves(t, windows).len() && move_index(
                    #[trigger] planned_moves(t, windows)[k],
                ) == i,
    decreases windows.len(),
{
    if windows.len() > 0 {
        let init = windows.drop_last();
        let last = windows.len() - 1;
        lemma_planned_moves_are_the_window_moves(t, init);
        let prev = planned_moves(t, init);
        let moves = planned_moves(t, windows);
        assert forall|i: int| 0 <= i < init.len() implies #[trigger] init[i] == windows[i] by {}
        match move_for(t, windows[last], last) {
            Some(m) => {
                assert(moves == prev.push(m));
                assert(move_index(m) == last);
                assert forall|i: int|
                    0 <= i < windows.len() && (#[trigger] move_for(t, windows[i], i)) is Some implies exists|
                        k: int,
                    | 0 <= k < moves.len() && move_index(#[trigger] moves[k]) == i by {
                    if i == last {
                        assert(moves[prev.len() as int] == m);
                    } else {
                        assert(init[i] == windows[i]);
                        assert(move_for(t, init[i], i) is Some);
                        let k = choose|k: int|
                            0 <= k < prev.len() && move_index(#[trigger] prev[k]) == i;
                        assert(moves[k] == prev[k]);
                    }
                }
            },
            None => {
                assert(moves == prev);
                assert forall|i: int|
                    0 <= i < windows.len() && (#[trigger] move_for(t, windows[i], i)) is Some implies exists|
                        k: int,
                    | 0 <= k < moves.len() && move_index(#[trigger] moves[k]) == i by {
                    assert(i != last);
                    assert(init[i] == windows[i]);
                    assert(move_for(t, init[i], i) is Some);
                }
            },
        }
    }
}

} // verus!
