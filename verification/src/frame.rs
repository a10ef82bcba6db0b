//! Per-frame decisions of the window loop: colours, redraw scheduling,
//! layer ordering and the decoration of frameless windows.

use vstd::prelude::*;
use crate::render::{RenderOp, RenderOpView, ops_view};

verus! {

/// An RGBA colour.
#[derive(Clone, Copy, Debug, PartialEq, Eq, Structural)]
pub struct Color {
    pub r: u8,
    pub g: u8,
    pub b: u8,
    pub a: u8,
}

/// The colour as `0xRRGGBBAA`.
pub open spec fn rgba_value(c: Color) -> u32 {
    (c.r * 16777216 + c.g * 65536 + c.b * 256 + c.a) as u32
}

/// The colour written `0xRRGGBBAA`.
pub open spec fn color_of(x: u32) -> Color {
    Color {
        r: (x / 16777216) as u8,
        g: ((x / 65536) % 256) as u8,
        b: ((x / 256) % 256) as u8,
        a: (x % 256) as u8,
    }
}

/// Packs a colour as `0xRRGGBBAA`.
pub fn pack_rgba(c: Color) -> (x: u32)
    ensures
        x == rgba_value(c),
{
    (c.r as u32) * 16777216 + (c.g as u32) * 65536 + (c.b as u32) * 256 + (c.a as u32)
}

/// Unpacks a colour written `0xRRGGBBAA`.
pub fn unpack_rgba(x: u32) -> (c: Color)
    ensures
        c == color_of(x),
{
    Color {
        r: (x / 16777216) as u8,
        g: ((x / 65536) % 256) as u8,
        b: ((x / 256) % 256) as u8,
        a: (x % 256) as u8,
    }
}

/// Packing then unpacking a colour gives the colour back, and unpacking
/// then packing a number gives the number back.
pub proof fn lemma_rgba_roundtrip(c: Color, x: u32)
    ensures
        color_of(rgba_value(c)) == c,
        rgba_value(color_of(x)) == x,
{
    let (r, g, b, a) = (c.r, c.g, c.b, c.a);
    assert(((r * 16777216 + g * 65536 + b * 256 + a) as u32 / 16777216) as u8 == r
        && ((((r * 16777216 + g * 65536 + b * 256 + a) as u32 / 65536) % 256) as u8) == g
        && ((((r * 16777216 + g * 65536 + b * 256 + a) as u32 / 256) % 256) as u8) == b
        && (((r * 16777216 + g * 65536 + b * 256 + a) as u32 % 256) as u8) == a) by (bit_vector);
    assert((((x / 16777216) as u8) * 16777216 + (((x / 65536) % 256) as u8) * 65536
        + (((x / 256) % 256) as u8) * 256 + ((x % 256) as u8)) as u32 == x) by (bit_vector);
}

/// The earliest of a scheduled redraw time and one `after_ms` from `now`
/// (times in milliseconds).
pub open spec fn scheduled(next: Option<u64>, now: u64, after_ms: u32) -> Option<u64> {
    if after_ms == 0 {
        next
    } else {
        let new_time = (now + after_ms) as u64;
        match next {
            Some(existing) => if existing < new_time {
                Some(existing)
            } else {
                Some(new_time)
            },
            None => Some(new_time),
        }
    }
}

/// Schedules a redraw `redraw_after_ms` from `now` (0 = none), keeping the
/// earliest scheduled time.
pub fn schedule_redraw(next: Option<u64>, now: u64, redraw_after_ms: u32) -> (r: Option<u64>)
    requires
        now + redraw_after_ms <= u64::MAX,
    ensures
        r == scheduled(next, now, redraw_after_ms),
{
    if redraw_after_ms > 0 {
        let new_time = now + redraw_after_ms as u64;
        match next {
            Some(existing) => if existing < new_time {
                Some(existing)
            } else {
                Some(new_time)
            },
            None => Some(new_time),
        }
    } else {
        next
    }
}

/// Scheduling never postpones a redraw that was already scheduled, and the
/// scheduled time is never later than the newly asked one.
pub proof fn lemma_schedule_keeps_earliest(next: Option<u64>, now: u64, after_ms: u32)
    requires
        now + after_ms <= u64::MAX,
    ensures
        next matches Some(e) ==> (scheduled(next, now, after_ms) matches Some(s) && s <= e),
        after_ms > 0 ==> (scheduled(next, now, after_ms) matches Some(s) && s <= now + after_ms),
        after_ms == 0 ==> scheduled(next, now, after_ms) == next,
        after_ms > 0 ==> (scheduled(next, now, after_ms) matches Some(s) && (s == now + after_ms
            || next == Some(s))),
{
}

/// After a frame the loop redraws at once (and keeps polling) when the
/// application asked for it, dropping any scheduled redraw; otherwise it
/// redraws a scheduled redraw that is due, sleeps until one that is not
/// (keeping it), and waits for the next event when none is scheduled. A
/// redraw that remains scheduled is always still ahead.
pub proof fn lemma_after_frame_decisions(request_redraw: bool, next: Option<u64>, now: u64)
    ensures
        request_redraw ==> after_frame_plan(request_redraw, next, now) == (
            LoopAction::RedrawAndPoll,
            None::<u64>,
        ),
        !request_redraw && next is None ==> after_frame_plan(request_redraw, next, now) == (
            LoopAction::Wait,
            None::<u64>,
        ),
        !request_redraw && next is Some && next->0 <= now ==> after_frame_plan(
            request_redraw,
            next,
            now,
        ) == (LoopAction::Redraw, None::<u64>),
        !request_redraw && next is Some && next->0 > now ==> after_frame_plan(
            request_redraw,
            next,
            now,
        ) == (LoopAction::WaitUntil(next->0), next),
        after_frame_plan(request_redraw, next, now).1 matches Some(w) ==> w > now && next == Some(w),
{
}

/// What the window loop does after a frame.
#[derive(Clone, Copy, Debug, PartialEq, Eq, Structural)]
pub enum LoopAction {
    /// Redraw at once and keep polling (animation).
    RedrawAndPoll,
    /// Redraw at once.
    Redraw,
    /// Sleep until the given time.
    WaitUntil(u64),
    /// Sleep until the next event.
    Wait,
}

/// The loop action after a frame, and the scheduled redraw that remains.
pub open spec fn after_frame_plan(request_redraw: bool, next: Option<u64>, now: u64) -> (
    LoopAction,
    Option<u64>,
) {
    if request_redraw {
        (LoopAction::RedrawAndPoll, None)
    } else {
        match next {
            Some(wake) => if wake <= now {
                (LoopAction::Redraw, None)
            } else {
                (LoopAction::WaitUntil(wake), Some(wake))
            },
            None => (LoopAction::Wait, None),
        }
    }
}

/// Decides how the loop continues after a frame: an immediate redraw when
/// the application asked for one (dropping any scheduled one), otherwise the
/// scheduled redraw, now if it is due.
pub fn after_frame(request_redraw: bool, next: Option<u64>, now: u64) -> (r: (LoopAction, Option<u64>))
    ensures
        r == after_frame_plan(request_redraw, next, now),
{
    if request_redraw {
        (LoopAction::RedrawAndPoll, None)
    } else {
        match next {
            Some(wake) => if wake <= now {
                (LoopAction::Redraw, None)
            } else {
                (LoopAction::WaitUntil(wake), Some(wake))
            },
            None => (LoopAction::Wait, None),
        }
    }
}

/// When the loop wakes up: whether a scheduled redraw is due (when woken by
/// its timer), and the scheduled redraw that remains.
pub fn on_wake(woken_by_timer: bool, next: Option<u64>, now: u64) -> (r: (bool, Option<u64>))
    ensures
        r == (match next {
            Some(wake) if woken_by_timer && wake <= now => (true, None::<u64>),
            _ => (false, next),
        }),
{
    if woken_by_timer {
        if let Some(wake) = next {
            if wake <= now {
                return (true, None);
            }
        }
    }
    (false, next)
}

/// Layer `a` is drawn before layer `b`: lower z-order first, and in list
/// order among equal z-orders.
pub open spec fn layer_before(z: Seq<i32>, a: int, b: int) -> bool {
    z[a] < z[b] || (z[a] == z[b] && a < b)
}

/// `order` lists every layer once, back to front.
pub open spec fn is_layer_order(z: Seq<i32>, order: Seq<usize>) -> bool {
    &&& order.len() == z.len()
    &&& forall|i: int| 0 <= i < order.len() ==> order[i] < z.len()
    &&& forall|i: int, j: int|
        0 <= i < j < order.len() ==> layer_before(z, order[i] as int, order[j] as int)
}

/// The drawing order of layers with the given z-orders: the layers' indices
/// sorted by z-order, keeping list order among equal z-orders.
pub fn layer_order(z_orders: &Vec<i32>) -> (order: Vec<usize>)
    ensures
        is_layer_order(z_orders@, order@),
{
    let n = z_orders.len();
    let mut order: Vec<usize> = Vec::new();
    let mut i: usize = 0;
    while i < n
        invariant
            n == z_orders@.len(),
            i <= n,
            order@.len() == i,
            forall|k: int| 0 <= k < order@.len() ==> order@[k] < i,
            forall|a: int, b: int|
                0 <= a < b < order@.len() ==> layer_before(
                    z_orders@,
                    order@[a] as int,
                    order@[b] as int,
                ),
        decreases n - i,
    {
        let zi = z_orders[i];
        let mut p: usize = 0;
        while p < order.len() && z_orders[order[p]] <= zi
            invariant
                n == z_orders@.len(),
                i < n,
                zi == z_orders@[i as int],
                p <= order@.len(),
                order@.len() == i,
                forall|k: int| 0 <= k < order@.len() ==> order@[k] < i,
                forall|k: int| 0 <= k < p ==> z_orders@[order@[k] as int] <= zi,
            decreases order@.len() - p,
        {
            p = p + 1;
        }
        let ghost before = order@;
        proof {
            assert forall|k: int| p <= k < before.len() implies zi < z_orders@[before[k] as int] by {
                assert(zi < z_orders@[before[p as int] as int]);
                if k > p {
                    assert(layer_before(z_orders@, before[p as int] as int, before[k] as int));
                }
            }
        }
        order.insert(p, i);
        proof {
            assert forall|a: int, b: int|
                0 <= a < b < order@.len() implies layer_before(
                z_orders@,
                order@[a] as int,
                order@[b] as int,
            ) by {
                if b < p {
                    assert(order@[a] == before[a] && order@[b] == before[b]);
                } else if b == p {
                    assert(order@[a] == before[a]);
                } else if a == p {
                    assert(order@[b] == before[b - 1]);
                } else if a < p {
                    assert(order@[a] == before[a] && order@[b] == before[b - 1]);
                    assert(z_orders@[before[a] as int] <= zi);
                } else {
                    assert(order@[a] == before[a - 1] && order@[b] == before[b - 1]);
                }
            }
        }
        i = i + 1;
    }
    order
}

/// Is this command a clear.
pub open spec fn is_clear(op: RenderOpView) -> bool {
    op is Clear
}

/// The first clear from position `i` on.
pub open spec fn first_clear_from(ops: Seq<RenderOpView>, i: int) -> Option<int>
    decreases ops.len() - i,
{
    if i < 0 || i >= ops.len() {
        None
    } else if is_clear(ops[i]) {
        Some(i)
    } else {
        first_clear_from(ops, i + 1)
    }
}

/// The first position from `i` on that holds no clear (0 when there is
/// none).
pub open spec fn first_non_clear_from(ops: Seq<RenderOpView>, i: int) -> int
    decreases ops.len() - i,
{
    if i < 0 || i >= ops.len() {
        0
    } else if !is_clear(ops[i]) {
        i
    } else {
        first_non_clear_from(ops, i + 1)
    }
}

/// The background rectangle drawn inside the window's rounded clip.
pub open spec fn background_rect(color: u32, width_bits: u32, height_bits: u32) -> RenderOpView {
    RenderOpView::DrawRect {
        x_bits: 0,
        y_bits: 0,
        width_bits,
        height_bits,
        color,
        corner_radii: (0, 0, 0, 0),
        rotation_bits: 0,
        border: None,
        gradient: None,
    }
}

/// The rounded clip of the whole window.
pub open spec fn window_clip(width_bits: u32, height_bits: u32, radius_bits: u32) -> RenderOpView {
    RenderOpView::PushRoundedClip {
        x_bits: 0,
        y_bits: 0,
        width_bits,
        height_bits,
        corner_radii: (radius_bits, radius_bits, radius_bits, radius_bits),
    }
}

/// The commands of a frame of a frameless window: the first clear is made
/// transparent, its colour is drawn as a rectangle inside a rounded clip of
/// the window opened after the leading clears, the window controls are drawn
/// inside the clip, and the clip is closed before the window border. Frames
/// of decorated windows, and empty frames, are left as they are.
pub open spec fn framed(
    ops: Seq<RenderOpView>,
    decorations: bool,
    width_bits: u32,
    height_bits: u32,
    radius_bits: u32,
    controls: Seq<RenderOpView>,
    border: RenderOpView,
) -> Seq<RenderOpView> {
    if decorations || ops.len() == 0 {
        ops
    } else {
        let c = first_clear_from(ops, 0);
        let ops1 = match c {
            Some(i) => ops.update(i, RenderOpView::Clear { r: 0, g: 0, b: 0, a: 0 }),
            None => ops,
        };
        let p = first_non_clear_from(ops1, 0);
        let bg = match c {
            Some(i) => match ops[i] {
                RenderOpView::Clear { r, g, b, a } => seq![
                    background_rect(
                        rgba_value(Color { r, g, b, a }),
                        width_bits,
                        height_bits,
                    ),
                ],
                _ => Seq::empty(),
            },
            None => Seq::empty(),
        };
        ops1.subrange(0, p) + seq![window_clip(width_bits, height_bits, radius_bits)] + bg
            + ops1.subrange(p, ops1.len() as int) + controls + seq![RenderOpView::PopClip, border]
    }
}

proof fn lemma_first_clear_found(ops: Seq<RenderOpView>, k: int)
    requires
        0 <= k,
    ensures
        first_clear_from(ops, k) matches Some(i) ==> k <= i < ops.len() && is_clear(ops[i]),
    decreases ops.len() - k,
{
    if k < ops.len() && !is_clear(ops[k]) {
        lemma_first_clear_found(ops, k + 1);
    }
}

proof fn lemma_first_non_clear_in_range(ops: Seq<RenderOpView>, k: int)
    requires
        0 <= k,
    ensures
        0 <= first_non_clear_from(ops, k) <= ops.len(),
    decreases ops.len() - k,
{
    if k < ops.len() && is_clear(ops[k]) {
        lemma_first_non_clear_in_range(ops, k + 1);
    }
}

/// Decorating a frameless window's frame adds exactly the rounded clip of
/// the window, the background rectangle (when the frame has a clear), the
/// window controls, the closing of the clip and the border, in that order
/// at the end: the controls come right before the clip is closed and the
/// border is drawn last, outside the clip. The background rectangle,
/// right after the clip, has the colour of the first clear, and that clear
/// itself is drawn transparent. Decorated windows and empty frames are
/// left as they are.
pub proof fn lemma_frame_decoration_shape(
    ops: Seq<RenderOpView>,
    decorations: bool,
    width_bits: u32,
    height_bits: u32,
    radius_bits: u32,
    controls: Seq<RenderOpView>,
    border: RenderOpView,
)
    ensures
        ({
            let r = framed(ops, decorations, width_bits, height_bits, radius_bits, controls, border);
            let c = first_clear_from(ops, 0);
            let n = r.len() as int;
            &&& (decorations || ops.len() == 0) ==> r == ops
            &&& (!decorations && ops.len() > 0) ==> {
                &&& n == ops.len() + controls.len() + 3 + if c is Some {
                    1int
                } else {
                    0int
                }
                &&& r[n - 1] == border
                &&& r[n - 2] == RenderOpView::PopClip
                &&& r.subrange(n - 2 - controls.len(), n - 2) == controls
                &&& c matches Some(i) ==> {
                    let ops1 = ops.update(i, RenderOpView::Clear { r: 0, g: 0, b: 0, a: 0 });
                    let p = first_non_clear_from(ops1, 0);
                    &&& r[p] == window_clip(width_bits, height_bits, radius_bits)
                    &&& ops[i] matches RenderOpView::Clear { r: cr, g: cg, b: cb, a: ca } && r[p
                        + 1] == background_rect(
                        rgba_value(Color { r: cr, g: cg, b: cb, a: ca }),
                        width_bits,
                        height_bits,
                    )
                    &&& r[if i < p {
                        i
                    } else {
                        i + 2
                    }] == (RenderOpView::Clear { r: 0, g: 0, b: 0, a: 0 })
                }
            }
        }),
{
    if !decorations && ops.len() > 0 {
        let r = framed(ops, decorations, width_bits, height_bits, radius_bits, controls, border);
        let c = first_clear_from(ops, 0);
        lemma_first_clear_found(ops, 0);
        let ops1 = match c {
            Some(i) => ops.update(i, RenderOpView::Clear { r: 0, g: 0, b: 0, a: 0 }),
            None => ops,
        };
        lemma_first_non_clear_in_range(ops1, 0);
        let p = first_non_clear_from(ops1, 0);
        let n = r.len() as int;
        assert(r.subrange(n - 2 - controls.len(), n - 2) =~= controls);
        if let Some(i) = c {
            if i < p {
                assert(r[i] == ops1.subrange(0, p)[i]);
            } else {
                assert(r[i + 2] == ops1.subrange(p, ops1.len() as int)[i - p]);
            }
        }
    }
}

fn is_clear_op(op: &RenderOp) -> (b: bool)
    ensures
        b == is_clear(op@),
{
    match op {
        RenderOp::Clear { .. } => true,
        _ => false,
    }
}

/// Decorates the frame of a frameless window: see [`framed`]. The window
/// size and the corner radius are `f32` bits; `controls` are the window
/// control commands and `border` the window border command.
pub fn frame_window_commands(
    cmds: Vec<RenderOp>,
    decorations: bool,
    width_bits: u32,
    height_bits: u32,
    radius_bits: u32,
    controls: Vec<RenderOp>,
    border: RenderOp,
) -> (r: Vec<RenderOp>)
    ensures
        ops_view(r@) == framed(
            ops_view(cmds@),
            decorations,
            width_bits,
            height_bits,
            radius_bits,
            ops_view(controls@),
            border@,
        ),
{
    if decorations || cmds.len() == 0 {
        return cmds;
    }
    let ghost ops = ops_view(cmds@);
    let mut cmds = cmds;
    let n = cmds.len();
    // Find the first clear.
    let mut c: usize = 0;
    while c < n && !is_clear_op(&cmds[c])
        invariant
            n == cmds@.len(),
            ops == ops_view(cmds@),
            c <= n,
            first_clear_from(ops, 0) == first_clear_from(ops, c as int),
        decreases n - c,
    {
        c = c + 1;
    }
    let mut bg: Option<u32> = None;
    if c < n {
        let color = match &cmds[c] {
            RenderOp::Clear { r, g, b, a } => pack_rgba(Color { r: *r, g: *g, b: *b, a: *a }),
            _ => 0,
        };
        bg = Some(color);
        cmds.set(c, RenderOp::Clear { r: 0, g: 0, b: 0, a: 0 });
        assert(ops_view(cmds@) =~= ops.update(c as int, RenderOpView::Clear { r: 0, g: 0, b: 0, a: 0 }));
    }
    let ghost ops1 = ops_view(cmds@);
    // Find the first command that is not a clear.
    let mut p: usize = 0;
    while p < n && is_clear_op(&cmds[p])
        invariant
            n == cmds@.len(),
            ops1 == ops_view(cmds@),
            p <= n,
            first_non_clear_from(ops1, 0) == first_non_clear_from(ops1, p as int),
        decreases n - p,
    {
        p = p + 1;
    }
    if p == n {
        p = 0;
    }
    let clip = RenderOp::PushRoundedClip {
        x_bits: 0,
        y_bits: 0,
        width_bits,
        height_bits,
        corner_radii: (radius_bits, radius_bits, radius_bits, radius_bits),
    };
    cmds.insert(p, clip);
    if let Some(color) = bg {
        let rect = RenderOp::DrawRect {
            x_bits: 0,
            y_bits: 0,
            width_bits,
            height_bits,
            color,
            corner_radii: (0, 0, 0, 0),
            rotation_bits: 0,
            border: None,
            gradient: None,
        };
        cmds.insert(p + 1, rect);
    }
    let mut controls = controls;
    let ghost cv = ops_view(controls@);
    let ghost before_append = cmds@;
    cmds.append(&mut controls);
    cmds.push(RenderOp::PopClip);
    cmds.push(border);
    proof {
        let bgs = match first_clear_from(ops, 0) {
            Some(i) => match ops[i] {
                RenderOpView::Clear { r, g, b, a } => seq![
                    background_rect(rgba_value(Color { r, g, b, a }), width_bits, height_bits),
                ],
                _ => Seq::empty(),
            },
            None => Seq::empty(),
        };
        assert(ops_view(cmds@) =~= ops1.subrange(0, p as int) + seq![
            window_clip(width_bits, height_bits, radius_bits),
        ] + bgs + ops1.subrange(p as int, ops1.len() as int) + cv + seq![
            RenderOpView::PopClip,
            border@,
        ]);
    }
    cmds
}

/// Whether the border of a frameless window is drawn dark: the
/// application's mode 1 is dark, 2 follows the system, anything else is
/// light.
pub fn border_is_dark(dark_mode: u8, system_dark: bool) -> (r: bool)
    ensures
        r == (dark_mode == 1 || (dark_mode == 2 && system_dark)),
{
    dark_mode == 1 || (dark_mode == 2 && system_dark)
}


/// A layer: its z-order and its commands.
pub open spec fn layers_view(layers: Seq<(i32, Vec<RenderOp>)>) -> Seq<(i32, Seq<RenderOpView>)> {
    layers.map_values(|l: (i32, Vec<RenderOp>)| (l.0, ops_view(l.1@)))
}

/// The z-orders of the layers.
pub open spec fn layer_zs(layers: Seq<(i32, Seq<RenderOpView>)>) -> Seq<i32> {
    layers.map_values(|l: (i32, Seq<RenderOpView>)| l.0)
}

/// The layers' commands joined, taking the layers in `order`.
pub open spec fn joined(layers: Seq<(i32, Seq<RenderOpView>)>, order: Seq<usize>) -> Seq<RenderOpView>
    decreases order.len(),
{
    if order.len() == 0 {
        Seq::empty()
    } else {
        joined(layers, order.drop_last()) + layers[order.last() as int].1
    }
}

/// `cmds` are the layers' commands, back to front: layer by layer in the
/// drawing order (lower z-order first, list order among equals).
pub open spec fn composed(layers: Seq<(i32, Seq<RenderOpView>)>, cmds: Seq<RenderOpView>) -> bool {
    exists|order: Seq<usize>|
        is_layer_order(layer_zs(layers), order) && cmds == #[trigger] joined(layers, order)
}

/// There is one drawing order of a list of layers.
pub proof fn lemma_layer_order_unique(z: Seq<i32>, a: Seq<usize>, b: Seq<usize>)
    requires
        is_layer_order(z, a),
        is_layer_order(z, b),
    ensures
        a == b,
{
    // Each index's place is the number of layers drawn before it.
    assert forall|i: int| 0 <= i < a.len() implies a[i] == b[i] by {
        lemma_place_is_rank(z, a, i);
        lemma_rank_matches(z, a, b, i);
    }
    assert(a =~= b);
}

/// `x` is among the first `k` entries of `a`.
pub open spec fn listed_before(a: Seq<usize>, k: int, x: int) -> bool {
    exists|i: int| 0 <= i < k && a[i] == x
}

/// The layers drawn before layer `x`.
pub open spec fn drawn_before(z: Seq<i32>, x: int) -> Set<int> {
    Set::new(|y: int| 0 <= y < z.len() && layer_before(z, y, x))
}

proof fn lemma_order_distinct(z: Seq<i32>, a: Seq<usize>)
    requires
        is_layer_order(z, a),
    ensures
        forall|i: int, j: int| 0 <= i < a.len() && 0 <= j < a.len() && i != j ==> a[i] != a[j],
{
    assert forall|i: int, j: int| 0 <= i < a.len() && 0 <= j < a.len() && i != j implies a[i] != a[j] by {
        if i < j {
            assert(layer_before(z, a[i] as int, a[j] as int));
        } else {
            assert(layer_before(z, a[j] as int, a[i] as int));
        }
    }
}

proof fn lemma_order_is_onto(z: Seq<i32>, a: Seq<usize>)
    requires
        is_layer_order(z, a),
    ensures
        forall|x: int| 0 <= x < z.len() ==> #[trigger] listed_before(a, a.len() as int, x),
{
    lemma_order_distinct(z, a);
    lemma_distinct_fill(a, z.len());
}

proof fn lemma_distinct_fill(a: Seq<usize>, n: nat)
    requires
        a.len() == n,
        forall|i: int| 0 <= i < a.len() ==> a[i] < n,
        forall|i: int, j: int| 0 <= i < a.len() && 0 <= j < a.len() && i != j ==> a[i] != a[j],
    ensures
        forall|x: int| 0 <= x < n ==> #[trigger] listed_before(a, a.len() as int, x),
{
    let r = Set::new(|x: int| 0 <= x < n);
    let img = Set::new(|x: int| listed_before(a, a.len() as int, x));
    vstd::set_lib::lemma_int_range(0, n as int);
    assert(r =~= vstd::set_lib::set_int_range(0, n as int));
    // The image has n elements and lies inside the range of n elements.
    lemma_image_len(a, a.len());
    assert(img.subset_of(r));
    vstd::set_lib::lemma_subset_equality(img, r);
    assert forall|x: int| 0 <= x < n implies listed_before(a, a.len() as int, x) by {
        assert(r.contains(x));
    }
}

proof fn lemma_image_len(a: Seq<usize>, k: nat)
    requires
        k <= a.len(),
        forall|i: int, j: int| 0 <= i < a.len() && 0 <= j < a.len() && i != j ==> a[i] != a[j],
    ensures
        Set::new(|x: int| listed_before(a, k as int, x)).finite(),
        Set::new(|x: int| listed_before(a, k as int, x)).len() == k,
    decreases k,
{
    let img = Set::new(|x: int| listed_before(a, k as int, x));
    if k == 0 {
        assert(img =~= Set::empty());
    } else {
        let prev = Set::new(|x: int| listed_before(a, k - 1, x));
        lemma_image_len(a, (k - 1) as nat);
        assert(img =~= prev.insert(a[k - 1] as int));
        assert(!prev.contains(a[k - 1] as int));
    }
}

proof fn lemma_place_is_rank(z: Seq<i32>, a: Seq<usize>, i: int)
    requires
        is_layer_order(z, a),
        0 <= i < a.len(),
    ensures
        drawn_before(z, a[i] as int) =~= Set::new(|y: int| listed_before(a, i, y)),
{
    lemma_order_is_onto(z, a);
    let x = a[i] as int;
    assert forall|y: int| drawn_before(z, x).contains(y) implies listed_before(a, i, y) by {
        assert(listed_before(a, a.len() as int, y));
        let j = choose|j: int| 0 <= j < a.len() && a[j] == y;
        if j > i {
            assert(layer_before(z, a[i] as int, a[j] as int));
        }
        assert(j < i);
    }
    assert forall|y: int| listed_before(a, i, y) implies drawn_before(z, x).contains(y) by {
        let j = choose|j: int| 0 <= j < i && a[j] == y;
        assert(layer_before(z, a[j] as int, a[i] as int));
    }
}

proof fn lemma_rank_matches(z: Seq<i32>, a: Seq<usize>, b: Seq<usize>, i: int)
    requires
        is_layer_order(z, a),
        is_layer_order(z, b),
        0 <= i < a.len(),
    ensures
        a[i] == b[i],
{
    lemma_order_is_onto(z, b);
    lemma_order_distinct(z, a);
    lemma_order_distinct(z, b);
    let x = a[i] as int;
    assert(listed_before(b, b.len() as int, x));
    let k = choose|k: int| 0 <= k < b.len() && b[k] == x;
    lemma_place_is_rank(z, a, i);
    lemma_place_is_rank(z, b, k);
    lemma_image_len(a, i as nat);
    lemma_image_len(b, k as nat);
    assert(Set::new(|y: int| listed_before(a, i, y)) == Set::new(|y: int| listed_before(b, k, y)));
    assert(i == k);
}

/// Joins the layers' commands in drawing order: each layer's commands in
/// turn, lower z-order first and list order among equal z-orders.
pub fn compose_layers(layers: Vec<(i32, Vec<RenderOp>)>) -> (cmds: Vec<RenderOp>)
    ensures
        composed(layers_view(layers@), ops_view(cmds@)),
{
    let ghost lv = layers_view(layers@);
    let n = layers.len();
    let mut zs: Vec<i32> = Vec::new();
    let mut i: usize = 0;
    while i < n
        invariant
            n == layers@.len(),
            i <= n,
            zs@ =~= layer_zs(lv).subrange(0, i as int),
            lv == layers_view(layers@),
        decreases n - i,
    {
        zs.push(layers[i].0);
        i = i + 1;
    }
    assert(zs@ =~= layer_zs(lv));
    let order = layer_order(&zs);
    let mut rest = layers;
    let mut cmds: Vec<RenderOp> = Vec::new();
    let mut k: usize = 0;
    while k < n
        invariant
            n == lv.len(),
            k <= n,
            is_layer_order(layer_zs(lv), order@),
            rest@.len() == n,
            forall|j: int| 0 <= j < n ==> (#[trigger] rest@[j]).0 == lv[j].0,
            forall|j: int|
                0 <= j < n && !(listed_before(order@, k as int, j)) ==> ops_view(
                    (#[trigger] rest@[j]).1@,
                ) == lv[j].1,
            ops_view(cmds@) == joined(lv, order@.subrange(0, k as int)),
        decreases n - k,
    {
        let idx = order[k];
        proof {
            assert forall|m: int| 0 <= m < k implies order@[m] != idx by {
                assert(layer_before(layer_zs(lv), order@[m] as int, order@[k as int] as int));
            }
        }
        let (z, mut ops) = rest.remove(idx);
        rest.insert(idx, (z, Vec::new()));
        let ghost before = cmds@;
        assert(ops_view(ops@) == lv[idx as int].1);
        cmds.append(&mut ops);
        proof {
            assert(ops_view(cmds@) =~= ops_view(before) + lv[idx as int].1);
            assert(order@.subrange(0, k + 1).drop_last() =~= order@.subrange(0, k as int));
            assert forall|j: int|
                0 <= j < n && !(listed_before(order@, k + 1, j)) implies ops_view(
                (#[trigger] rest@[j]).1@,
            ) == lv[j].1 by {
                assert(j != idx);
                assert(!(listed_before(order@, k as int, j))) by {
                    if listed_before(order@, k as int, j) {
                        let m = choose|m: int| 0 <= m < k && order@[m] == j;
                        assert(0 <= m < k + 1 && order@[m] == j);
                    }
                }
            }
        }
        k = k + 1;
    }
    assert(order@.subrange(0, n as int) =~= order@);
    assert(composed(lv, ops_view(cmds@)));
    cmds
}


/// The commands a frame response gives for drawing, from its layers when
/// it has them (none when they could not be read, the immediate commands
/// being ignored then), otherwise from its immediate commands (none when
/// absent or unreadable).
pub open spec fn source_commands(
    layers: Option<Option<Vec<(i32, Vec<RenderOp>)>>>,
    immediate: Option<Option<Vec<RenderOp>>>,
    cmds: Seq<RenderOpView>,
) -> bool {
    match layers {
        Some(Some(ls)) => composed(layers_view(ls@), cmds),
        Some(None) => cmds.len() == 0,
        None => match immediate {
            Some(Some(c)) => cmds == ops_view(c@),
            _ => cmds.len() == 0,
        },
    }
}

/// The commands of a frame response (see [`source_commands`]). `layers`
/// and `immediate` are `None` when the response has none, `Some(None)`
/// when they could not be read.
pub fn frame_commands(
    layers: Option<Option<Vec<(i32, Vec<RenderOp>)>>>,
    immediate: Option<Option<Vec<RenderOp>>>,
) -> (cmds: Vec<RenderOp>)
    ensures
        source_commands(layers, immediate, ops_view(cmds@)),
{
    match layers {
        Some(Some(ls)) => compose_layers(ls),
        Some(None) => Vec::new(),
        None => match immediate {
            Some(Some(c)) => c,
            _ => Vec::new(),
        },
    }
}

/// What to do with a frame: the commands to draw, whether to draw at all
/// (only when there are commands), and whether to ask for another frame.
pub struct FramePlan {
    pub commands: Vec<RenderOp>,
    pub render: bool,
    pub request_redraw: bool,
}

/// Plans a frame from the application's response: its commands (see
/// [`frame_commands`]) decorated for a frameless window (see [`framed`]);
/// they are drawn when there are any, and another frame is asked for
/// exactly when the response asks for one.
pub fn plan_frame(
    layers: Option<Option<Vec<(i32, Vec<RenderOp>)>>>,
    immediate: Option<Option<Vec<RenderOp>>>,
    decorations: bool,
    width_bits: u32,
    height_bits: u32,
    radius_bits: u32,
    controls: Vec<RenderOp>,
    border: RenderOp,
    request_redraw: bool,
) -> (p: FramePlan)
    ensures
        exists|base: Seq<RenderOpView>|
            #![trigger source_commands(layers, immediate, base)]
            source_commands(layers, immediate, base) && ops_view(p.commands@) == framed(
                base,
                decorations,
                width_bits,
                height_bits,
                radius_bits,
                ops_view(controls@),
                border@,
            ),
        p.render == (p.commands@.len() > 0),
        p.request_redraw == request_redraw,
{
    let ghost cv = ops_view(controls@);
    let ghost bv = border@;
    let base = frame_commands(layers, immediate);
    let ghost bs = ops_view(base@);
    let commands = frame_window_commands(
        base,
        decorations,
        width_bits,
        height_bits,
        radius_bits,
        controls,
        border,
    );
    assert(source_commands(layers, immediate, bs));
    let render = commands.len() > 0;
    FramePlan { commands, render, request_redraw }
}

} // verus!
