//! The layout of the portable configuration dialog, and the UTF-16 text
//! that its native window calls take.

use vstd::prelude::*;

use crate::text::chars_of;

verus! {

pub const PAD_X: i32 = 32;
pub const LABEL_X: i32 = PAD_X;
pub const LABEL_WIDTH: i32 = 132;
pub const LABEL_FIELD_GAP: i32 = 14;
pub const FIELD_X: i32 = LABEL_X + LABEL_WIDTH + LABEL_FIELD_GAP;
pub const FIELD_WIDTH: i32 = 452;
pub const BROWSE_WIDTH: i32 = 68;
pub const BROWSE_GAP: i32 = 8;
pub const FIELD_WIDTH_WITH_BROWSE: i32 = FIELD_WIDTH - BROWSE_WIDTH - BROWSE_GAP;
pub const FIELD_HEIGHT: i32 = 28;
pub const FIELD_BORDER_PAD: i32 = 3;
pub const ROW_PITCH: i32 = 46;
pub const ROW_COUNT: i32 = 5;
pub const HEADER_HEIGHT: i32 = 74;
pub const FORM_TOP_GAP: i32 = 26;
pub const FORM_TOP: i32 = HEADER_HEIGHT + FORM_TOP_GAP;
pub const FORM_HEIGHT: i32 = ROW_COUNT * ROW_PITCH;
pub const FOOTER_SEP_GAP: i32 = 16;
pub const FOOTER_BUTTON_GAP: i32 = 20;
pub const BUTTON_HEIGHT: i32 = 36;
pub const BOTTOM_PAD: i32 = 24;
/// The right edge shared by every field card, the browse button, the
/// footer separator and the primary button.
pub const CARD_RIGHT: i32 = FIELD_X + FIELD_WIDTH + FIELD_BORDER_PAD;
pub const CLIENT_WIDTH: i32 = CARD_RIGHT + PAD_X;
pub const FOOTER_SEP_Y: i32 = FORM_TOP + FORM_HEIGHT + FOOTER_SEP_GAP;
pub const FOOTER_BUTTON_Y: i32 = FOOTER_SEP_Y + 1 + FOOTER_BUTTON_GAP;
pub const CLIENT_HEIGHT: i32 = FOOTER_BUTTON_Y + BUTTON_HEIGHT + BOTTOM_PAD;

pub const ID_EDIT_BASE_URL: i32 = 101;
pub const ID_EDIT_API_KEY: i32 = 102;
pub const ID_EDIT_MODEL: i32 = 103;
pub const ID_EDIT_PROVIDER: i32 = 104;
pub const ID_EDIT_APP_DIR: i32 = 105;

/// The steps of a button's hover fade.
pub const HOVER_FRAMES: i32 = 6;

/// The widths of the footer buttons and the gap between them.
pub const SAVE_BUTTON_WIDTH: i32 = 168;
pub const CANCEL_BUTTON_WIDTH: i32 = 96;
pub const FOOTER_BUTTON_SPACING: i32 = 10;

/// The row of the Codex App path, the only one with a browse button.
pub const IDX_APP_DIR: usize = 4;

/// The (x, y, width, height) of field row `i`: rows are `ROW_PITCH` apart
/// from `FORM_TOP`, and the app-path row leaves room for its browse button.
pub open spec fn field_rect(i: int) -> (i32, i32, i32, i32) {
    (
        FIELD_X,
        (FORM_TOP + i * ROW_PITCH) as i32,
        if i == IDX_APP_DIR {
            FIELD_WIDTH_WITH_BROWSE
        } else {
            FIELD_WIDTH
        },
        FIELD_HEIGHT,
    )
}

/// The rectangles of the five field rows, in client-area pixels, shared
/// between control layout and border painting.
pub fn field_rects() -> (r: [(i32, i32, i32, i32); 5])
    ensures
        forall|i: int| 0 <= i < 5 ==> #[trigger] r@[i] == field_rect(i),
{
    let mut rects = [(0i32, 0i32, 0i32, 0i32); 5];
    let mut y = FORM_TOP;
    let mut i: usize = 0;
    while i < 5
        invariant
            i <= 5,
            rects@.len() == 5,
            y == FORM_TOP + i * ROW_PITCH,
            forall|j: int| 0 <= j < i ==> #[trigger] rects@[j] == field_rect(j),
        decreases 5 - i,
    {
        let w = if i == IDX_APP_DIR {
            FIELD_WIDTH_WITH_BROWSE
        } else {
            FIELD_WIDTH
        };
        rects[i] = (FIELD_X, y, w, FIELD_HEIGHT);
        y = y + ROW_PITCH;
        i = i + 1;
    }
    rects
}

/// The client area has positive width and height.
pub proof fn lemma_client_dimensions_positive()
    ensures
        CLIENT_WIDTH > 0,
        CLIENT_HEIGHT > 0,
{
}

/// Every field row lies inside the client area.
pub proof fn lemma_field_rects_within_client(i: int)
    requires
        0 <= i < 5,
    ensures
        field_rect(i).0 >= 0,
        field_rect(i).1 >= 0,
        field_rect(i).0 + field_rect(i).2 <= CLIENT_WIDTH,
        field_rect(i).1 + field_rect(i).3 <= CLIENT_HEIGHT,
{
}

/// The height of a single-line edit control for a font whose lines are
/// `line_height` pixels: one line and two pixels, kept between 18 pixels
/// and the field card's height less 6.
pub fn edit_height(line_height: i32) -> (r: i32)
    ensures
        r == (if line_height + 2 < 18 {
            18
        } else if line_height + 2 > FIELD_HEIGHT - 6 {
            (FIELD_HEIGHT - 6) as int
        } else {
            line_height + 2
        }),
{
    if line_height < 16 {
        18
    } else if line_height > FIELD_HEIGHT - 8 {
        FIELD_HEIGHT - 6
    } else {
        line_height + 2
    }
}

/// `x` halved, rounded toward zero, as integer division does.
pub open spec fn half_toward_zero(x: int) -> int {
    if x >= 0 {
        x / 2
    } else {
        -((-x) / 2)
    }
}

/// The top of an edit control of height `edit_h` centred in the field card
/// whose top is `row_y`. An edit control no taller than the card lies
/// inside it.
pub fn edit_top(row_y: i32, edit_h: i32) -> (r: i32)
    requires
        FIELD_HEIGHT - edit_h <= i32::MAX,
        i32::MIN <= row_y + half_toward_zero(FIELD_HEIGHT - edit_h) <= i32::MAX,
    ensures
        r == row_y + half_toward_zero(FIELD_HEIGHT - edit_h),
        edit_h <= FIELD_HEIGHT ==> row_y <= r && r + edit_h <= row_y + FIELD_HEIGHT,
{
    row_y + (FIELD_HEIGHT - edit_h) / 2
}

/// The (x, y, width, height) of the browse button: right of the shortened
/// app-path card, up to `CARD_RIGHT`, as tall as the card with its border.
pub open spec fn browse_button_rect_spec() -> (i32, i32, i32, i32) {
    let x = FIELD_X + FIELD_WIDTH_WITH_BROWSE + FIELD_BORDER_PAD + BROWSE_GAP;
    (
        x as i32,
        (field_rect(IDX_APP_DIR as int).1 - FIELD_BORDER_PAD) as i32,
        (CARD_RIGHT - x) as i32,
        (FIELD_HEIGHT + FIELD_BORDER_PAD * 2) as i32,
    )
}

pub fn browse_button_rect() -> (r: (i32, i32, i32, i32))
    ensures
        r == browse_button_rect_spec(),
        r.0 + r.2 == CARD_RIGHT,
        r.0 > FIELD_X + FIELD_WIDTH_WITH_BROWSE + FIELD_BORDER_PAD,
{
    let rects = field_rects();
    let (_x, y, w, _h) = rects[IDX_APP_DIR];
    let x = FIELD_X + w + FIELD_BORDER_PAD + BROWSE_GAP;
    (x, y - FIELD_BORDER_PAD, CARD_RIGHT - x, FIELD_HEIGHT + FIELD_BORDER_PAD * 2)
}

/// The rectangles of the cancel and save buttons: side by side on the
/// footer row, the save button ending at `CARD_RIGHT`.
pub fn footer_button_rects() -> (r: ((i32, i32, i32, i32), (i32, i32, i32, i32)))
    ensures
        r.1 == ((CARD_RIGHT - SAVE_BUTTON_WIDTH) as i32, FOOTER_BUTTON_Y, SAVE_BUTTON_WIDTH, BUTTON_HEIGHT),
        r.0 == (
            (CARD_RIGHT - SAVE_BUTTON_WIDTH - FOOTER_BUTTON_SPACING - CANCEL_BUTTON_WIDTH) as i32,
            FOOTER_BUTTON_Y,
            CANCEL_BUTTON_WIDTH,
            BUTTON_HEIGHT,
        ),
        r.0.0 + r.0.2 + FOOTER_BUTTON_SPACING == r.1.0,
        r.0.0 >= PAD_X,
        r.1.1 + r.1.3 + BOTTOM_PAD == CLIENT_HEIGHT,
{
    let save_x = CARD_RIGHT - SAVE_BUTTON_WIDTH;
    let cancel_x = save_x - FOOTER_BUTTON_SPACING - CANCEL_BUTTON_WIDTH;
    (
        (cancel_x, FOOTER_BUTTON_Y, CANCEL_BUTTON_WIDTH, BUTTON_HEIGHT),
        (save_x, FOOTER_BUTTON_Y, SAVE_BUTTON_WIDTH, BUTTON_HEIGHT),
    )
}

/// One step of a button's hover fade: one frame toward fully hovered while
/// the pointer is over it, one frame toward idle otherwise.
pub fn hover_anim_step(anim: i32, hovered: bool) -> (r: i32)
    requires
        0 <= anim <= HOVER_FRAMES,
    ensures
        0 <= r <= HOVER_FRAMES,
        hovered ==> r == (if anim < HOVER_FRAMES {
            anim + 1
        } else {
            anim as int
        }),
        !hovered ==> r == (if anim > 0 {
            anim - 1
        } else {
            anim as int
        }),
{
    let target = if hovered {
        HOVER_FRAMES
    } else {
        0
    };
    if anim < target {
        anim + 1
    } else if anim > target {
        anim - 1
    } else {
        anim
    }
}

/// Whether the hover timer must keep running for a button.
pub fn hover_still_active(hovered: bool, anim: i32) -> (r: bool)
    ensures
        r == (hovered || anim != 0),
{
    hovered || anim != 0
}

/// A footer button's hover state: whether the button exists, whether the
/// pointer is over it, and its fade frame.
#[derive(Debug, Clone, Copy, PartialEq, Eq, Structural)]
pub struct HoverSlot {
    pub present: bool,
    pub hovered: bool,
    pub anim: i32,
}

/// One frame of a fade toward `HOVER_FRAMES` while hovered, toward zero
/// otherwise.
pub open spec fn hover_step_spec(anim: int, hovered: bool) -> int {
    if hovered {
        if anim < HOVER_FRAMES {
            anim + 1
        } else {
            anim
        }
    } else {
        if anim > 0 {
            anim - 1
        } else {
            anim
        }
    }
}

/// A slot after one tick of the hover timer with the pointer over it or
/// not; a missing button is left alone.
pub open spec fn hover_tick_slot(s: HoverSlot, over: bool) -> HoverSlot {
    if s.present {
        HoverSlot { present: true, hovered: over, anim: hover_step_spec(s.anim as int, over) as i32 }
    } else {
        s
    }
}

/// Whether a slot keeps the hover timer running.
pub open spec fn hover_slot_active(s: HoverSlot) -> bool {
    s.present && (s.hovered || s.anim != 0)
}

/// One tick of the hover timer: each present button takes whether the
/// pointer is over it (`over`) and fades one frame; the answer is whether
/// the timer keeps running, which is while some present button is hovered
/// or not yet faded out.
pub fn tick_hover(slots: &mut Vec<HoverSlot>, over: &[bool]) -> (keep_timer: bool)
    requires
        old(slots)@.len() == over@.len(),
        forall|j: int| 0 <= j < old(slots)@.len() ==> 0 <= #[trigger] old(slots)@[j].anim <= HOVER_FRAMES,
    ensures
        final(slots)@.len() == old(slots)@.len(),
        forall|j: int|
            0 <= j < final(slots)@.len() ==> #[trigger] final(slots)@[j] == hover_tick_slot(
                old(slots)@[j],
                over@[j],
            ),
        forall|j: int| 0 <= j < final(slots)@.len() ==> 0 <= #[trigger] final(slots)@[j].anim <= HOVER_FRAMES,
        keep_timer == exists|j: int|
            0 <= j < final(slots)@.len() && hover_slot_active(#[trigger] final(slots)@[j]),
{
    let ghost before = slots@;
    let mut still_active = false;
    let mut i: usize = 0;
    while i < slots.len()
        invariant
            i <= slots@.len(),
            slots@.len() == before.len(),
            before.len() == over@.len(),
            forall|j: int| 0 <= j < before.len() ==> 0 <= #[trigger] before[j].anim <= HOVER_FRAMES,
            forall|j: int| 0 <= j < i ==> #[trigger] slots@[j] == hover_tick_slot(before[j], over@[j]),
            forall|j: int| i <= j < slots@.len() ==> #[trigger] slots@[j] == before[j],
            still_active == exists|j: int| 0 <= j < i && hover_slot_active(#[trigger] slots@[j]),
        decreases slots@.len() - i,
    {
        let ghost pre = slots@;
        let ghost was_active = still_active;
        let s = slots[i];
        if s.present {
            let anim = hover_anim_step(s.anim, over[i]);
            let t = HoverSlot { present: true, hovered: over[i], anim };
            slots.set(i, t);
        }
        proof {
            assert(slots@[i as int] == hover_tick_slot(before[i as int], over@[i as int]));
            assert forall|j: int| 0 <= j < slots@.len() && j != i implies slots@[j] == pre[j] by {}
        }
        if hover_still_active(slots[i].hovered, slots[i].anim) && slots[i].present {
            still_active = true;
        }
        proof {
            if was_active {
                let w = choose|j: int| 0 <= j < i && hover_slot_active(#[trigger] pre[j]);
                assert(slots@[w] == pre[w]);
                assert(hover_slot_active(slots@[w]));
            }
            if hover_slot_active(slots@[i as int]) {
                assert(exists|j: int| 0 <= j < i + 1 && hover_slot_active(#[trigger] slots@[j]));
            }
            if !still_active {
                assert forall|j: int| 0 <= j < i + 1 implies !hover_slot_active(
                    #[trigger] slots@[j],
                ) by {
                    if j < i {
                        assert(slots@[j] == pre[j]);
                    }
                }
            }
        }
        i = i + 1;
    }
    still_active
}

/// The field row of the edit control with the id `id`.
pub fn edit_index_for_id(id: i32) -> (r: Option<usize>)
    ensures
        match r {
            Some(i) => i < 5 && id == ID_EDIT_BASE_URL + i,
            None => !(ID_EDIT_BASE_URL <= id <= ID_EDIT_APP_DIR),
        },
{
    let ids: [i32; 5] = [
        ID_EDIT_BASE_URL,
        ID_EDIT_API_KEY,
        ID_EDIT_MODEL,
        ID_EDIT_PROVIDER,
        ID_EDIT_APP_DIR,
    ];
    let mut i: usize = 0;
    while i < 5
        invariant
            i <= 5,
            ids@ == seq![101i32, 102, 103, 104, 105],
            forall|j: int| 0 <= j < i ==> ids@[j] != id,
        decreases 5 - i,
    {
        if ids[i] == id {
            return Some(i);
        }
        i = i + 1;
    }
    None
}

/// The UTF-16 code units of one character.
pub open spec fn utf16_units(c: char) -> Seq<u16> {
    let n = c as u32;
    if n < 0x10000 {
        seq![n as u16]
    } else {
        seq![(0xD800 + (n - 0x10000) / 0x400) as u16, (0xDC00 + (n - 0x10000) % 0x400) as u16]
    }
}

/// The UTF-16 encoding of a string.
pub open spec fn utf16(s: Seq<char>) -> Seq<u16>
    decreases s.len(),
{
    if s.len() == 0 {
        Seq::empty()
    } else {
        utf16(s.drop_last()) + utf16_units(s.last())
    }
}

/// `value` in UTF-16 without a terminator, for calls that take an explicit
/// length.
pub fn wide_text(value: &str) -> (r: Vec<u16>)
    ensures
        r@ == utf16(value@),
{
    let s = chars_of(value);
    let mut r: Vec<u16> = Vec::new();
    let mut i: usize = 0;
    assert(s@.take(0) =~= Seq::<char>::empty());
    while i < s.len()
        invariant
            i <= s.len(),
            r@ == utf16(s@.take(i as int)),
        decreases s.len() - i,
    {
        let c = s[i];
        let n = c as u32;
        proof {
            vstd::utf8::char_is_scalar(c);
        }
        assert(s@.take(i + 1).drop_last() =~= s@.take(i as int));
        assert(s@.take(i + 1).last() == c);
        let ghost before = r@;
        if n < 0x10000 {
            r.push(n as u16);
        } else {
            let m = n - 0x10000;
            r.push((0xD800 + m / 0x400) as u16);
            r.push((0xDC00 + m % 0x400) as u16);
        }
        assert(r@ =~= before + utf16_units(c));
        i = i + 1;
    }
    assert(s@.take(i as int) =~= s@);
    r
}

/// `value` in UTF-16 with a terminating zero, for C-string calls.
pub fn wide_null(value: &str) -> (r: Vec<u16>)
    ensures
        r@ == utf16(value@).push(0),
{
    let mut r = wide_text(value);
    r.push(0);
    r
}

} // verus!
