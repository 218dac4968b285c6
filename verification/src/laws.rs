//! What holds of the text agent across calls.
use vstd::prelude::*;

use crate::agent::{
    blur_step, focus_step, move_to_step, set_focus_step, sync_commands, AgentView, CommandView, ImeView,
};
use crate::agent::ime_same;
use crate::utf16::{
    char_utf16_width, is_char_index_for, law_cursor_round_trip, lemma_prefix_growth, u32_modulus,
    utf16_len, utf16_offset,
};

verus! {

/// After `set_focus(on)`, `has_focus()` is `on`; the composition state is
/// cleared by a blur and kept by a focus, and the last IME output is kept.
pub proof fn law_set_focus_sets_focus(a: AgentView, on: bool, context_text: Seq<char>)
    ensures
        set_focus_step(a, on, context_text).0.active == on,
        set_focus_step(a, on, context_text).0.prev_ime == a.prev_ime,
        on ==> set_focus_step(a, on, context_text).0.composing == a.composing,
        !on && a.active ==> !set_focus_step(a, on, context_text).0.composing,
{
}

/// Focusing twice is focusing once: the second call changes nothing and asks
/// the browser for nothing.
pub proof fn law_focus_idempotent(a: AgentView, c1: Seq<char>, c2: Seq<char>)
    ensures
        focus_step(focus_step(a, c1).0, c2) == (focus_step(a, c1).0, Seq::<CommandView>::empty()),
{
}

/// Blurring twice is blurring once.
pub proof fn law_blur_idempotent(a: AgentView, c1: Seq<char>, c2: Seq<char>)
    ensures
        blur_step(blur_step(a, c1).0, c2) == (blur_step(a, c1).0, Seq::<CommandView>::empty()),
{
}

/// Focusing then blurring returns an inactive agent to where it was, except
/// that any composition is over.
pub proof fn law_blur_undoes_focus(a: AgentView, c1: Seq<char>, c2: Seq<char>)
    requires
        !a.active,
    ensures
        blur_step(focus_step(a, c1).0, c2).0 == (AgentView { composing: false, ..a }),
{
}

/// When focus is regained, the EditContext is attached, its whole buffer is
/// refilled from the last IME output, and the canvas is focused, in that order.
pub proof fn law_focus_refills_from_last_ime(a: AgentView, context_text: Seq<char>, ime: ImeView)
    requires
        !a.active,
        a.prev_ime == Some(ime),
    ensures
        focus_step(a, context_text).1 == seq![CommandView::Attach] + sync_commands(
            context_text,
            ime,
        ) + seq![CommandView::FocusCanvas],
{
}

/// The same IME output in two frames in a row is acted on once: the second
/// frame changes nothing and asks the browser for nothing. (An output whose
/// rectangles hold a NaN is unequal to itself and is acted on every frame.)
pub proof fn law_move_to_acts_once(
    a: AgentView,
    ime: Option<ImeView>,
    c1: Seq<char>,
    c2: Seq<char>,
)
    requires
        ime matches Some(i) ==> i.rect.has_no_nan() && i.cursor_rect.has_no_nan(),
    ensures
        move_to_step(move_to_step(a, ime, c1).0, ime, c2) == (
            move_to_step(a, ime, c1).0,
            Seq::<CommandView>::empty(),
        ),
{
}

/// While a composition is in progress the EditContext's buffer and selection
/// are left to the IME: a new IME output only updates the bounds.
pub proof fn law_composition_owns_buffer(a: AgentView, ime: Option<ImeView>, c: Seq<char>)
    requires
        a.composing,
    ensures
        forall|k: int|
            0 <= k < move_to_step(a, ime, c).1.len() ==> (#[trigger] move_to_step(a, ime, c).1[k]) is UpdateBounds,
{
}

/// A sync replaces the whole buffer: its range runs from the start to the
/// UTF-16 length of the current buffer text (when that fits in a `u32`).
pub proof fn law_sync_replaces_whole_buffer(context_text: Seq<char>, ime: ImeView)
    requires
        utf16_len(context_text) < u32_modulus(),
    ensures
        sync_commands(context_text, ime)[0] == (CommandView::UpdateText {
            range_start: 0,
            range_end: utf16_len(context_text) as int,
            text: ime.text,
        }),
{
    vstd::arithmetic::div_mod::lemma_small_mod(utf16_len(context_text), u32_modulus() as nat);
}

/// The cursor survives the trip through the browser: when the EditContext
/// reports back the selection start that a sync set, over the text that the
/// sync wrote, the UI's cursor comes back as the primary cursor (clamped to
/// the text), as long as its UTF-16 offset fits in a `u32`.
pub proof fn law_cursor_survives_sync(context_text: Seq<char>, ime: ImeView, cursor: int)
    requires
        utf16_offset(ime.text, ime.cursor_primary as int) < u32_modulus(),
        sync_commands(context_text, ime)[1] matches CommandView::UpdateSelection { start, end }
            && is_char_index_for(ime.text, start, cursor),
    ensures
        cursor == (if ime.cursor_primary <= ime.text.len() {
            ime.cursor_primary as int
        } else {
            ime.text.len() as int
        }),
{
    let sent = (utf16_offset(ime.text, ime.cursor_primary as int) as int) % u32_modulus();
    law_cursor_round_trip(ime.text, ime.cursor_primary as int, sent, cursor);
}

/// Every character outside the Basic Multilingual Plane takes two UTF-16 code
/// units (a surrogate pair); every other character takes one.
pub proof fn law_utf16_width_by_plane(c: char)
    ensures
        (c as u32) >= 0x10000 ==> char_utf16_width(c) == 2,
        (c as u32) < 0x10000 ==> char_utf16_width(c) == 1,
{
}

/// Two IME outputs are equal only when their texts and both cursors are equal
/// and their rectangles compare equal; and outputs that agree in all of these
/// are equal.
pub proof fn law_ime_equality_is_fieldwise(x: ImeView, y: ImeView)
    ensures
        ime_same(x, y) ==> x.text == y.text && x.cursor_primary == y.cursor_primary
            && x.cursor_secondary == y.cursor_secondary && x.rect.same_as_spec(y.rect)
            && x.cursor_rect.same_as_spec(y.cursor_rect),
        (x.text == y.text && x.cursor_primary == y.cursor_primary && x.cursor_secondary
            == y.cursor_secondary && x.rect.same_as_spec(y.rect) && x.cursor_rect.same_as_spec(
            y.cursor_rect)) ==> ime_same(x, y),
{
}

/// A new IME output that differs from the last one in its text or in either
/// cursor, outside a composition, replaces the whole buffer (from 0 to the
/// UTF-16 length of its current text) by the new text, selects from the
/// primary to the secondary cursor (as UTF-16 offsets), then updates the
/// bounds; the output is remembered.
pub proof fn law_move_to_sends_changed_output(
    a: AgentView,
    prev: ImeView,
    ime: ImeView,
    context_text: Seq<char>,
)
    requires
        a.prev_ime == Some(prev),
        !a.composing,
        prev.text != ime.text || prev.cursor_primary != ime.cursor_primary || prev.cursor_secondary
            != ime.cursor_secondary,
    ensures
        move_to_step(a, Some(ime), context_text).0 == (AgentView { prev_ime: Some(ime), ..a }),
        move_to_step(a, Some(ime), context_text).1 == seq![
            CommandView::UpdateText {
                range_start: 0,
                range_end: (utf16_len(context_text) as int) % u32_modulus(),
                text: ime.text,
            },
            CommandView::UpdateSelection {
                start: (utf16_offset(ime.text, ime.cursor_primary as int) as int) % u32_modulus(),
                end: (utf16_offset(ime.text, ime.cursor_secondary as int) as int) % u32_modulus(),
            },
            CommandView::UpdateBounds { rect: ime.rect, cursor_rect: ime.cursor_rect },
        ],
{
}

/// The first IME output after none, outside a composition, is sent the same
/// way.
pub proof fn law_move_to_sends_first_output(a: AgentView, ime: ImeView, context_text: Seq<char>)
    requires
        a.prev_ime is None,
        !a.composing,
    ensures
        move_to_step(a, Some(ime), context_text).1 == seq![
            CommandView::UpdateText {
                range_start: 0,
                range_end: (utf16_len(context_text) as int) % u32_modulus(),
                text: ime.text,
            },
            CommandView::UpdateSelection {
                start: (utf16_offset(ime.text, ime.cursor_primary as int) as int) % u32_modulus(),
                end: (utf16_offset(ime.text, ime.cursor_secondary as int) as int) % u32_modulus(),
            },
            CommandView::UpdateBounds { rect: ime.rect, cursor_rect: ime.cursor_rect },
        ],
{
}

/// Regaining focus with a remembered IME output attaches the EditContext,
/// replaces its whole buffer (0 to the UTF-16 length of its current text) by
/// the remembered text, selects from the primary to the secondary cursor, and
/// focuses the canvas.
pub proof fn law_focus_refill_commands(a: AgentView, ime: ImeView, context_text: Seq<char>)
    requires
        !a.active,
        a.prev_ime == Some(ime),
    ensures
        focus_step(a, context_text).1 == seq![
            CommandView::Attach,
            CommandView::UpdateText {
                range_start: 0,
                range_end: (utf16_len(context_text) as int) % u32_modulus(),
                text: ime.text,
            },
            CommandView::UpdateSelection {
                start: (utf16_offset(ime.text, ime.cursor_primary as int) as int) % u32_modulus(),
                end: (utf16_offset(ime.text, ime.cursor_secondary as int) as int) % u32_modulus(),
            },
            CommandView::FocusCanvas,
        ],
{
}

/// The selection a sync sends ends where the secondary cursor is: reported
/// back over the synced text, that end gives the secondary cursor again
/// (clamped to the text), as long as its UTF-16 offset fits in a `u32`.
pub proof fn law_selection_end_is_secondary_cursor(
    context_text: Seq<char>,
    ime: ImeView,
    cursor: int,
)
    requires
        utf16_offset(ime.text, ime.cursor_secondary as int) < u32_modulus(),
        sync_commands(context_text, ime)[1] matches CommandView::UpdateSelection { start, end }
            && is_char_index_for(ime.text, end, cursor),
    ensures
        cursor == (if ime.cursor_secondary <= ime.text.len() {
            ime.cursor_secondary as int
        } else {
            ime.text.len() as int
        }),
{
    let sent = (utf16_offset(ime.text, ime.cursor_secondary as int) as int) % u32_modulus();
    law_cursor_round_trip(ime.text, ime.cursor_secondary as int, sent, cursor);
}

/// Blurring an active agent whose buffer holds text empties the whole buffer,
/// collapses the selection at 0, and detaches; with an empty buffer it only
/// detaches.
pub proof fn law_blur_empties_buffer(a: AgentView, context_text: Seq<char>)
    requires
        a.active,
        utf16_len(context_text) < u32_modulus(),
    ensures
        context_text.len() > 0 ==> blur_step(a, context_text).1 == seq![
            CommandView::UpdateText {
                range_start: 0,
                range_end: utf16_len(context_text) as int,
                text: Seq::<char>::empty(),
            },
            CommandView::UpdateSelection { start: 0, end: 0 },
            CommandView::Detach,
        ],
        context_text.len() == 0 ==> blur_step(a, context_text).1 == seq![CommandView::Detach],
        !blur_step(a, context_text).0.active,
        !blur_step(a, context_text).0.composing,
{
    vstd::arithmetic::div_mod::lemma_small_mod(utf16_len(context_text), u32_modulus() as nat);
    lemma_prefix_growth(context_text, 0, context_text.len() as int);
}

/// `set_focus(true)` does what `focus` does and `set_focus(false)` what `blur`
/// does, on the same buffer text.
pub proof fn law_set_focus_is_focus_or_blur(a: AgentView, context_text: Seq<char>)
    ensures
        set_focus_step(a, true, context_text) == focus_step(a, context_text),
        set_focus_step(a, false, context_text) == blur_step(a, context_text),
{
}

/// `set_focus(true)` with a remembered IME output replaces the whole current
/// buffer: the refill's range ends at the UTF-16 length of the buffer text.
pub proof fn law_set_focus_refill_replaces_buffer(a: AgentView, ime: ImeView, context_text: Seq<char>)
    requires
        !a.active,
        a.prev_ime == Some(ime),
    ensures
        set_focus_step(a, true, context_text).1[1] == (CommandView::UpdateText {
            range_start: 0,
            range_end: (utf16_len(context_text) as int) % u32_modulus(),
            text: ime.text,
        }),
{
}

/// During a composition a changed IME output only moves the bounds, and is
/// remembered.
pub proof fn law_move_to_during_composition(
    a: AgentView,
    ime: ImeView,
    context_text: Seq<char>,
)
    requires
        a.composing,
        !ime_same_opt_prev(a, ime),
    ensures
        move_to_step(a, Some(ime), context_text) == (
            AgentView { prev_ime: Some(ime), ..a },
            seq![CommandView::UpdateBounds { rect: ime.rect, cursor_rect: ime.cursor_rect }],
        ),
{
}

/// There is a last IME output and it equals `ime`.
pub open spec fn ime_same_opt_prev(a: AgentView, ime: ImeView) -> bool {
    a.prev_ime matches Some(p) && ime_same(p, ime)
}

/// When the text field goes away (no IME output after one), nothing is sent
/// and the output is forgotten.
pub proof fn law_move_to_none_forgets(a: AgentView, prev: ImeView, context_text: Seq<char>)
    requires
        a.prev_ime == Some(prev),
    ensures
        move_to_step(a, None, context_text) == (
            AgentView { prev_ime: None, ..a },
            Seq::<CommandView>::empty(),
        ),
{
}

/// An IME output equal to the last one changes nothing and sends nothing.
pub proof fn law_move_to_equal_output_is_ignored(
    a: AgentView,
    prev: ImeView,
    ime: ImeView,
    context_text: Seq<char>,
)
    requires
        a.prev_ime == Some(prev),
        prev.text == ime.text,
        prev.cursor_primary == ime.cursor_primary,
        prev.cursor_secondary == ime.cursor_secondary,
        prev.rect.same_as_spec(ime.rect),
        prev.cursor_rect.same_as_spec(ime.cursor_rect),
    ensures
        move_to_step(a, Some(ime), context_text) == (a, Seq::<CommandView>::empty()),
{
}

/// Focusing with no remembered IME output attaches the EditContext and
/// focuses the canvas, and nothing else; focusing an active agent sends
/// nothing. Either way the agent is then active, with composition and the
/// remembered output unchanged.
pub proof fn law_focus_without_ime(a: AgentView, context_text: Seq<char>)
    ensures
        !a.active && a.prev_ime is None ==> focus_step(a, context_text).1 == seq![
            CommandView::Attach,
            CommandView::FocusCanvas,
        ],
        a.active ==> focus_step(a, context_text).1 == Seq::<CommandView>::empty(),
        focus_step(a, context_text).0 == (AgentView { active: true, ..a }),
{
}

/// Blurring an inactive agent sends nothing and changes nothing; blurring an
/// active one leaves it inactive, not composing, with its remembered output.
pub proof fn law_blur_state(a: AgentView, context_text: Seq<char>)
    ensures
        !a.active ==> blur_step(a, context_text) == (a, Seq::<CommandView>::empty()),
        a.active ==> blur_step(a, context_text).0 == (AgentView {
            active: false,
            composing: false,
            prev_ime: a.prev_ime,
        }),
{
}

} // verus!
