use vstd::prelude::*;

use crate::hit_test::{fits_in_frame_arithmetic, hit_test, hit_zone_spec, HitZone, Rect};

verus! {

/// A 16-bit word (`0 <= w < 2^16`) read as a two's-complement signed value.
pub open spec fn signed_word(w: int) -> int {
    if w < 0x8000 { w } else { w - 0x10000 }
}

/// Bits 0..16 of `l`, as an unsigned word.
pub open spec fn low_word(l: int) -> int {
    l % 0x10000
}

/// Bits 16..32 of `l`, as an unsigned word.
pub open spec fn high_word(l: int) -> int {
    (l / 0x10000) % 0x10000
}

/// The horizontal screen coordinate carried by a message parameter.
pub open spec fn point_x(l: int) -> int {
    signed_word(low_word(l))
}

/// The vertical screen coordinate carried by a message parameter.
pub open spec fn point_y(l: int) -> int {
    signed_word(high_word(l))
}

/// Reads the 16-bit word `t` as a signed value.
fn signed_word_of(t: isize) -> (r: i32)
    requires
        0 <= t < 0x10000,
    ensures
        r == signed_word(t as int),
{
    assert(0 <= t < 0x10000 ==> (t as i16 as i32) as int == signed_word(t as int)) by (bit_vector);
    t as i16 as i32
}

/// Splits a message parameter into the screen point it carries: the low word
/// is the horizontal coordinate and the next word the vertical one, each a
/// signed 16-bit value.
pub fn point_from_lparam(lparam: isize) -> (p: (i32, i32))
    ensures
        p.0 == point_x(lparam as int),
        p.1 == point_y(lparam as int),
{
    let lo = lparam & 0xFFFF;
    let rest = lparam >> 16;
    let hi = rest & 0xFFFF;
    assert(0 <= lo < 0x10000 && lo + 0x10000 * rest == lparam) by (bit_vector)
        requires lo == lparam & 0xFFFF, rest == lparam >> 16;
    assert(0 <= hi < 0x10000 && hi + 0x10000 * (rest >> 16) == rest) by (bit_vector)
        requires hi == rest & 0xFFFF;
    assert(low_word(lparam as int) == lo as int);
    assert(lparam as int / 0x10000 == rest as int);
    assert(high_word(lparam as int) == hi as int);
    (signed_word_of(lo), signed_word_of(hi))
}

/// The window messages that the custom frame treats on its own.
#[derive(Clone, Copy, Debug, PartialEq, Eq)]
pub enum MessageKind {
    /// The system asks for the size of the client area.
    NcCalcSize,
    /// The system asks which part of the window lies under the cursor.
    NcHitTest,
    /// Any other message.
    Other,
}

/// What the frame procedure does first with a message.
#[derive(Clone, Copy, Debug, PartialEq, Eq)]
pub enum FrameAction {
    /// Answer 0: the whole window is client area, so no standard frame is drawn.
    ReturnZero,
    /// Read the window rectangle, then classify the cursor position.
    QueryWindowRect,
    /// Hand the message to the default procedure.
    CallDefault,
}

/// How a hit-test message is answered once the window rectangle was asked for.
#[derive(Clone, Copy, Debug, PartialEq, Eq)]
pub enum HitAnswer {
    /// Answer with this zone.
    Zone(HitZone),
    /// Hand the message to the default procedure.
    CallDefault,
}

/// The first step of the frame procedure for a message of kind `kind` whose
/// first parameter is `wparam`.
pub open spec fn frame_action_spec(kind: MessageKind, wparam: usize) -> FrameAction {
    match kind {
        MessageKind::NcCalcSize => if wparam != 0 {
            FrameAction::ReturnZero
        } else {
            FrameAction::CallDefault
        },
        MessageKind::NcHitTest => FrameAction::QueryWindowRect,
        MessageKind::Other => FrameAction::CallDefault,
    }
}

/// Decides the first step of the frame procedure: a client-size request that
/// carries its rectangles (`wparam != 0`) is answered with 0, a hit test needs
/// the window rectangle, and every other message goes to the default procedure.
pub fn frame_action(kind: MessageKind, wparam: usize) -> (a: FrameAction)
    ensures
        a == frame_action_spec(kind, wparam),
{
    match kind {
        MessageKind::NcCalcSize => if wparam != 0 {
            FrameAction::ReturnZero
        } else {
            FrameAction::CallDefault
        },
        MessageKind::NcHitTest => FrameAction::QueryWindowRect,
        MessageKind::Other => FrameAction::CallDefault,
    }
}

/// The classification of the point carried by `lparam` can be computed within
/// `i32` against `rect`.
pub open spec fn hit_test_fits(lparam: int, rect: Rect) -> bool {
    fits_in_frame_arithmetic(point_x(lparam), point_y(lparam), rect)
}

/// The answer to a hit-test message with parameter `lparam`, given what
/// reading the window rectangle gave (`None` when it failed).
pub open spec fn hit_answer_spec(lparam: int, rect: Option<Rect>) -> HitAnswer {
    match rect {
        Some(r) => HitAnswer::Zone(hit_zone_spec(point_x(lparam), point_y(lparam), r)),
        None => HitAnswer::CallDefault,
    }
}

/// Answers a hit-test message: when the window rectangle could not be read the
/// message goes to the default procedure, otherwise the cursor position that
/// `lparam` carries is classified against the rectangle.
pub fn answer_hit_test(lparam: isize, rect: Option<Rect>) -> (a: HitAnswer)
    requires
        rect matches Some(r) ==> hit_test_fits(lparam as int, r),
    ensures
        a == hit_answer_spec(lparam as int, rect),
{
    match rect {
        Some(r) => {
            let (x, y) = point_from_lparam(lparam);
            HitAnswer::Zone(hit_test(x, y, &r))
        },
        None => HitAnswer::CallDefault,
    }
}

/// The message parameter that carries the screen point `(x, y)`: `x` in the
/// low word and `y` in the next one, each as a 16-bit word.
pub open spec fn pack_point(x: int, y: int) -> int {
    x % 0x10000 + 0x10000 * (y % 0x10000)
}

/// Every point with 16-bit signed coordinates comes back unchanged out of the
/// parameter that carries it.
pub proof fn lemma_point_round_trip(x: int, y: int)
    requires
        -0x8000 <= x < 0x8000,
        -0x8000 <= y < 0x8000,
    ensures
        point_x(pack_point(x, y)) == x,
        point_y(pack_point(x, y)) == y,
{
    let l = pack_point(x, y);
    let xl = x % 0x10000;
    let yl = y % 0x10000;
    assert(0 <= xl < 0x10000);
    assert(0 <= yl < 0x10000);
    assert(l % 0x10000 == xl);
    assert(l / 0x10000 == yl);
    assert(yl % 0x10000 == yl);
}

/// Only the low 32 bits of a message parameter decide the point it carries,
/// so a parameter whose upper bits are a sign extension reads the same.
pub proof fn lemma_point_ignores_upper_bits(l: int, k: int)
    ensures
        point_x(l + k * 0x1_0000_0000) == point_x(l),
        point_y(l + k * 0x1_0000_0000) == point_y(l),
{
    let m = l + k * 0x1_0000_0000;
    let q = l / 0x10000;
    let r = l % 0x10000;
    let q2 = q + k * 0x10000;
    assert(m == q2 * 0x10000 + r) by (nonlinear_arith)
        requires
            m == l + k * 0x1_0000_0000,
            l == q * 0x10000 + r,
            q2 == q + k * 0x10000,
    ;
    vstd::arithmetic::div_mod::lemma_fundamental_div_mod_converse(m, 0x10000, q2, r);
    vstd::arithmetic::div_mod::lemma_mod_multiples_vanish(k, q, 0x10000);
    assert(0x10000 * k + q == q2);
}

/// A hit-test message whose parameter carries `(x, y)` by the convention of
/// `pack_point` is answered with the zone of `(x, y)` once the window
/// rectangle is known, and handed on when it is not.
pub proof fn lemma_hit_answer_for_packed_point(x: int, y: int, rect: Option<Rect>)
    requires
        -0x8000 <= x < 0x8000,
        -0x8000 <= y < 0x8000,
    ensures
        hit_answer_spec(pack_point(x, y), rect) == (match rect {
            Some(r) => HitAnswer::Zone(hit_zone_spec(x, y, r)),
            None => HitAnswer::CallDefault,
        }),
{
    lemma_point_round_trip(x, y);
}

/// Only a client-size request that carries its rectangles is answered with 0;
/// every hit test, whatever its first parameter, needs the window rectangle;
/// every other message, whatever its first parameter, goes to the default
/// procedure.
pub proof fn lemma_frame_action_by_kind(kind: MessageKind, wparam: usize)
    ensures
        (frame_action_spec(kind, wparam) == FrameAction::ReturnZero) <==> (kind
            == MessageKind::NcCalcSize && wparam != 0),
        (frame_action_spec(kind, wparam) == FrameAction::QueryWindowRect) <==> (kind
            == MessageKind::NcHitTest),
        kind == MessageKind::Other ==> frame_action_spec(kind, wparam) == FrameAction::CallDefault,
        (frame_action_spec(kind, wparam) == FrameAction::CallDefault) <==> (kind == MessageKind::Other
            || (kind == MessageKind::NcCalcSize && wparam == 0)),
{
}

/// The first step depends on the first parameter only for client-size
/// requests: for any other kind, two messages with different first parameters
/// are handled alike.
pub proof fn lemma_frame_action_ignores_wparam(kind: MessageKind, w1: usize, w2: usize)
    requires
        kind != MessageKind::NcCalcSize,
    ensures
        frame_action_spec(kind, w1) == frame_action_spec(kind, w2),
{
}

} // verus!
