//! The decisions of the EditContext-backed text agent: when to attach the
//! EditContext to the canvas, when and how to sync its text buffer and
//! selection with the UI's text field, and which input events the browser's
//! EditContext events turn into. The browser calls themselves are made by the
//! caller, which performs the returned commands in order.
use vstd::prelude::*;
use vstd::std_specs::iter::IteratorSpec;

use crate::geometry::RectBits;
use crate::utf16::{
    char_to_utf16, is_char_index_for, u32_modulus, utf16_len, utf16_len_u32, utf16_offset,
    utf16_to_char,
};

verus! {

/// What the UI reports each frame about the focused text field.
#[derive(Debug)]
pub struct ImeOutput {
    /// Where the text field is on screen.
    pub rect: RectBits,
    /// Where the primary cursor is on screen.
    pub cursor_rect: RectBits,
    /// The text field's text.
    pub text: String,
    /// Character offset of the primary cursor.
    pub cursor_primary: usize,
    /// Character offset of the secondary cursor (the other end of the selection).
    pub cursor_secondary: usize,
}

/// The mathematical value of an [`ImeOutput`].
pub struct ImeView {
    pub rect: RectBits,
    pub cursor_rect: RectBits,
    pub text: Seq<char>,
    pub cursor_primary: nat,
    pub cursor_secondary: nat,
}

impl View for ImeOutput {
    type V = ImeView;

    open spec fn view(&self) -> ImeView {
        ImeView {
            rect: self.rect,
            cursor_rect: self.cursor_rect,
            text: self.text@,
            cursor_primary: self.cursor_primary as nat,
            cursor_secondary: self.cursor_secondary as nat,
        }
    }
}

/// Two IME outputs are equal field by field, the rectangles compared as `f32`.
pub open spec fn ime_same(a: ImeView, b: ImeView) -> bool {
    &&& a.rect.same_as_spec(b.rect)
    &&& a.cursor_rect.same_as_spec(b.cursor_rect)
    &&& a.text == b.text
    &&& a.cursor_primary == b.cursor_primary
    &&& a.cursor_secondary == b.cursor_secondary
}

/// Equality of optional IME outputs.
pub open spec fn ime_opt_same(a: Option<ImeView>, b: Option<ImeView>) -> bool {
    match (a, b) {
        (None, None) => true,
        (Some(x), Some(y)) => ime_same(x, y),
        _ => false,
    }
}

/// The view of an optional IME output.
pub open spec fn ime_opt_view(o: Option<ImeOutput>) -> Option<ImeView> {
    match o {
        Some(i) => Some(i@),
        None => None,
    }
}

impl ImeOutput {
    /// A copy of this output.
    pub fn duplicate(&self) -> (r: ImeOutput)
        ensures
            r@ == self@,
    {
        ImeOutput {
            rect: self.rect,
            cursor_rect: self.cursor_rect,
            text: self.text.clone(),
            cursor_primary: self.cursor_primary,
            cursor_secondary: self.cursor_secondary,
        }
    }

    /// Compares two IME outputs as the UI's equality does.
    pub fn same_as(&self, other: &ImeOutput) -> (r: bool)
        ensures
            r == ime_same(self@, other@),
    {
        self.rect.same_as(&other.rect) && self.cursor_rect.same_as(&other.cursor_rect)
            && string_eq(&self.text, &other.text) && self.cursor_primary == other.cursor_primary
            && self.cursor_secondary == other.cursor_secondary
    }
}

/// Character-wise equality of two strings.
pub fn string_eq(a: &String, b: &String) -> (r: bool)
    ensures
        r == (a@ == b@),
{
    broadcast use vstd::string::axiom_spec_iter;

    let na = a.as_str().unicode_len();
    let nb = b.as_str().unicode_len();
    if na != nb {
        return false;
    }
    let mut i: usize = 0;
    let mut ib = b.as_str().chars();
    for c in it: a.as_str().chars()
        invariant
            na == a@.len(),
            nb == b@.len(),
            na == nb,
            it.seq() == a@,
            i == it.index(),
            i <= na,
            ib.remaining() == b@.skip(i as int),
            forall|j: int| 0 <= j < i ==> a@[j] == b@[j],
    {
        assert(c == a@[i as int]);
        let d = ib.next();
        assert(b@.skip(i as int)[0] == b@[i as int]);
        match d {
            Some(d) => {
                if c != d {
                    return false;
                }
            },
            None => {
                return false;
            },
        }
        assert(b@.skip(i as int).drop_first() =~= b@.skip(i + 1));
        i = i + 1;
    }
    assert(a@ =~= b@);
    true
}

/// The equality of optional IME outputs.
pub fn ime_opt_equal(a: &Option<ImeOutput>, b: &Option<ImeOutput>) -> (r: bool)
    ensures
        r == ime_opt_same(ime_opt_view(*a), ime_opt_view(*b)),
{
    match (a, b) {
        (None, None) => true,
        (Some(x), Some(y)) => x.same_as(y),
        _ => false,
    }
}

/// A call that the caller makes on the browser's EditContext or the canvas.
#[derive(Debug, PartialEq, Eq)]
pub enum ContextCommand {
    /// Replace the UTF-16 range `range_start..range_end` of the EditContext's
    /// text buffer by `text`.
    UpdateText { range_start: u32, range_end: u32, text: String },
    /// Set the EditContext's selection to the UTF-16 range `start..end`.
    UpdateSelection { start: u32, end: u32 },
    /// Attach the EditContext to the canvas.
    Attach,
    /// Detach the EditContext from the canvas.
    Detach,
    /// Give the canvas the keyboard focus.
    FocusCanvas,
    /// Tell the EditContext where the text field and the cursor are on screen.
    UpdateBounds { rect: RectBits, cursor_rect: RectBits },
}

/// The mathematical value of a [`ContextCommand`].
pub enum CommandView {
    UpdateText { range_start: int, range_end: int, text: Seq<char> },
    UpdateSelection { start: int, end: int },
    Attach,
    Detach,
    FocusCanvas,
    UpdateBounds { rect: RectBits, cursor_rect: RectBits },
}

impl View for ContextCommand {
    type V = CommandView;

    open spec fn view(&self) -> CommandView {
        match self {
            ContextCommand::UpdateText { range_start, range_end, text } => CommandView::UpdateText {
                range_start: *range_start as int,
                range_end: *range_end as int,
                text: text@,
            },
            ContextCommand::UpdateSelection { start, end } => CommandView::UpdateSelection {
                start: *start as int,
                end: *end as int,
            },
            ContextCommand::Attach => CommandView::Attach,
            ContextCommand::Detach => CommandView::Detach,
            ContextCommand::FocusCanvas => CommandView::FocusCanvas,
            ContextCommand::UpdateBounds { rect, cursor_rect } => CommandView::UpdateBounds {
                rect: *rect,
                cursor_rect: *cursor_rect,
            },
        }
    }
}

/// The view of a list of commands.
pub open spec fn commands_view(v: Seq<ContextCommand>) -> Seq<CommandView> {
    v.map_values(|c: ContextCommand| c@)
}

/// An input event handed to the UI.
#[derive(Debug, PartialEq, Eq)]
pub enum TextInputEvent {
    /// An IME composition started.
    ImeEnabled,
    /// The current, uncommitted IME composition text.
    Preedit(String),
    /// The IME composition ended with this text.
    Commit(String),
    /// The text field's text is now `text`, with the cursor at character `cursor`.
    TextChanged { text: String, cursor: usize },
}

/// The mathematical value of a [`TextInputEvent`].
pub enum TextEventView {
    ImeEnabled,
    Preedit(Seq<char>),
    Commit(Seq<char>),
    TextChanged { text: Seq<char>, cursor: int },
}

impl View for TextInputEvent {
    type V = TextEventView;

    open spec fn view(&self) -> TextEventView {
        match self {
            TextInputEvent::ImeEnabled => TextEventView::ImeEnabled,
            TextInputEvent::Preedit(t) => TextEventView::Preedit(t@),
            TextInputEvent::Commit(t) => TextEventView::Commit(t@),
            TextInputEvent::TextChanged { text, cursor } => TextEventView::TextChanged {
                text: text@,
                cursor: *cursor as int,
            },
        }
    }
}

/// The state of the agent.
pub struct AgentView {
    /// The EditContext is attached to the canvas.
    pub active: bool,
    /// An IME composition is in progress.
    pub composing: bool,
    /// The IME output of the last frame that reported a change.
    pub prev_ime: Option<ImeView>,
}

/// The commands that make the EditContext's buffer hold the text field's text
/// and selection: the whole current buffer (`context_text`) is replaced.
pub open spec fn sync_commands(context_text: Seq<char>, ime: ImeView) -> Seq<CommandView> {
    seq![
        CommandView::UpdateText {
            range_start: 0,
            range_end: (utf16_len(context_text) as int) % u32_modulus(),
            text: ime.text,
        },
        CommandView::UpdateSelection {
            start: (utf16_offset(ime.text, ime.cursor_primary as int) as int) % u32_modulus(),
            end: (utf16_offset(ime.text, ime.cursor_secondary as int) as int) % u32_modulus(),
        },
    ]
}

/// The commands that empty the EditContext's buffer (none when it is empty).
pub open spec fn clear_commands(context_text: Seq<char>) -> Seq<CommandView> {
    let len = (utf16_len(context_text) as int) % u32_modulus();
    if len > 0 {
        seq![
            CommandView::UpdateText { range_start: 0, range_end: len, text: Seq::empty() },
            CommandView::UpdateSelection { start: 0, end: 0 },
        ]
    } else {
        seq![]
    }
}

/// Focusing: attach the EditContext, refill its buffer from the last known IME
/// output, and focus the canvas; nothing when already active.
pub open spec fn focus_step(a: AgentView, context_text: Seq<char>) -> (AgentView, Seq<CommandView>) {
    if a.active {
        (a, seq![])
    } else {
        let refill = match a.prev_ime {
            Some(ime) => sync_commands(context_text, ime),
            None => seq![],
        };
        (
            AgentView { active: true, ..a },
            seq![CommandView::Attach] + refill + seq![CommandView::FocusCanvas],
        )
    }
}

/// Blurring: end any composition, empty the buffer and detach the
/// EditContext; nothing when not active.
pub open spec fn blur_step(a: AgentView, context_text: Seq<char>) -> (AgentView, Seq<CommandView>) {
    if !a.active {
        (a, seq![])
    } else {
        (
            AgentView { active: false, composing: false, ..a },
            clear_commands(context_text) + seq![CommandView::Detach],
        )
    }
}

/// Focusing or blurring as `on` says.
pub open spec fn set_focus_step(a: AgentView, on: bool, context_text: Seq<char>) -> (
    AgentView,
    Seq<CommandView>,
) {
    if on {
        focus_step(a, context_text)
    } else {
        blur_step(a, context_text)
    }
}

/// A new frame's IME output: nothing when it equals the last one; otherwise it
/// is remembered, and when there is a text field the buffer is synced (unless
/// a composition owns it) and the bounds are updated.
pub open spec fn move_to_step(a: AgentView, ime: Option<ImeView>, context_text: Seq<char>) -> (
    AgentView,
    Seq<CommandView>,
) {
    if ime_opt_same(a.prev_ime, ime) {
        (a, seq![])
    } else {
        let b = AgentView { prev_ime: ime, ..a };
        match ime {
            None => (b, seq![]),
            Some(i) => {
                let sync = if a.composing {
                    seq![]
                } else {
                    sync_commands(context_text, i)
                };
                (
                    b,
                    sync + seq![
                        CommandView::UpdateBounds { rect: i.rect, cursor_rect: i.cursor_rect },
                    ],
                )
            },
        }
    }
}

/// The EditContext-backed text agent's state.
pub struct EditContextAgent {
    is_active: bool,
    is_composing: bool,
    prev_ime_output: Option<ImeOutput>,
}

impl View for EditContextAgent {
    type V = AgentView;

    closed spec fn view(&self) -> AgentView {
        AgentView {
            active: self.is_active,
            composing: self.is_composing,
            prev_ime: ime_opt_view(self.prev_ime_output),
        }
    }
}

/// Appends the sync commands for `ime` to `cmds`.
fn push_sync(cmds: &mut Vec<ContextCommand>, context_text: &str, ime: &ImeOutput)
    ensures
        commands_view(final(cmds)@) == commands_view(old(cmds)@) + sync_commands(
            context_text@,
            ime@,
        ),
{
    let len = utf16_len_u32(context_text);
    let start = char_to_utf16(ime.text.as_str(), ime.cursor_primary);
    let end = char_to_utf16(ime.text.as_str(), ime.cursor_secondary);
    let ghost before = cmds@;
    cmds.push(ContextCommand::UpdateText { range_start: 0, range_end: len, text: ime.text.clone() });
    cmds.push(ContextCommand::UpdateSelection { start, end });
    assert(commands_view(cmds@) =~= commands_view(before) + sync_commands(context_text@, ime@));
}

/// The commands that empty the EditContext's buffer, whose current text is
/// `context_text`: none when it is already empty.
pub fn clear_edit_context_buffer(context_text: &str) -> (cmds: Vec<ContextCommand>)
    ensures
        commands_view(cmds@) == clear_commands(context_text@),
{
    let mut cmds: Vec<ContextCommand> = Vec::new();
    let len = utf16_len_u32(context_text);
    if len > 0 {
        cmds.push(ContextCommand::UpdateText { range_start: 0, range_end: len, text: String::new() });
        cmds.push(ContextCommand::UpdateSelection { start: 0, end: 0 });
    }
    assert(commands_view(cmds@) =~= clear_commands(context_text@));
    cmds
}

impl EditContextAgent {
    /// A fresh agent: not attached, no composition, no IME output seen.
    pub fn new() -> (r: EditContextAgent)
        ensures
            r@ == (AgentView { active: false, composing: false, prev_ime: None }),
    {
        EditContextAgent { is_active: false, is_composing: false, prev_ime_output: None }
    }

    /// Whether the EditContext is attached to the canvas (a text field is
    /// active and this agent handles text input).
    pub fn has_focus(&self) -> (r: bool)
        ensures
            r == self@.active,
    {
        self.is_active
    }

    /// Whether an IME composition is in progress.
    pub fn is_composing(&self) -> (r: bool)
        ensures
            r == self@.composing,
    {
        self.is_composing
    }

    /// Attach the EditContext to the canvas, making it editable; refill its
    /// buffer (whose current text is `context_text`) from the last known IME
    /// output. Returns the commands to perform, in order.
    pub fn focus(&mut self, context_text: &str) -> (cmds: Vec<ContextCommand>)
        ensures
            (final(self)@, commands_view(cmds@)) == focus_step(old(self)@, context_text@),
    {
        let mut cmds: Vec<ContextCommand> = Vec::new();
        if self.is_active {
            assert(commands_view(cmds@) =~= seq![]);
            return cmds;
        }
        cmds.push(ContextCommand::Attach);
        self.is_active = true;
        match &self.prev_ime_output {
            Some(ime) => {
                push_sync(&mut cmds, context_text, ime);
            },
            None => {},
        }
        let ghost mid = cmds@;
        cmds.push(ContextCommand::FocusCanvas);
        assert(commands_view(cmds@) =~= commands_view(mid) + seq![CommandView::FocusCanvas]);
        assert(commands_view(seq![ContextCommand::Attach]) =~= seq![CommandView::Attach]);
        cmds
    }

    /// Detach the EditContext from the canvas, ending any composition and
    /// emptying its buffer (whose current text is `context_text`).
    pub fn blur(&mut self, context_text: &str) -> (cmds: Vec<ContextCommand>)
        ensures
            (final(self)@, commands_view(cmds@)) == blur_step(old(self)@, context_text@),
    {
        let mut cmds: Vec<ContextCommand> = Vec::new();
        if !self.is_active {
            assert(commands_view(cmds@) =~= seq![]);
            return cmds;
        }
        self.is_composing = false;
        cmds = clear_edit_context_buffer(context_text);
        let ghost mid = cmds@;
        cmds.push(ContextCommand::Detach);
        assert(commands_view(cmds@) =~= commands_view(mid) + seq![CommandView::Detach]);
        self.is_active = false;
        cmds
    }

    /// Focus when `on`, blur otherwise.
    pub fn set_focus(&mut self, on: bool, context_text: &str) -> (cmds: Vec<ContextCommand>)
        ensures
            (final(self)@, commands_view(cmds@)) == set_focus_step(old(self)@, on, context_text@),
    {
        if on {
            self.focus(context_text)
        } else {
            self.blur(context_text)
        }
    }

    /// Take this frame's IME output; `context_text` is the EditContext
    /// buffer's current text.
    pub fn move_to(&mut self, ime: Option<ImeOutput>, context_text: &str) -> (cmds: Vec<
        ContextCommand,
    >)
        ensures
            (final(self)@, commands_view(cmds@)) == move_to_step(
                old(self)@,
                ime_opt_view(ime),
                context_text@,
            ),
    {
        let mut cmds: Vec<ContextCommand> = Vec::new();
        if ime_opt_equal(&self.prev_ime_output, &ime) {
            assert(commands_view(cmds@) =~= seq![]);
            return cmds;
        }
        match ime {
            None => {
                self.prev_ime_output = None;
                assert(commands_view(cmds@) =~= seq![]);
                cmds
            },
            Some(ime) => {
                if !self.is_composing {
                    push_sync(&mut cmds, context_text, &ime);
                }
                let ghost mid = cmds@;
                assert(commands_view(mid) =~= (if self.is_composing {
                    seq![]
                } else {
                    sync_commands(context_text@, ime@)
                }));
                cmds.push(ContextCommand::UpdateBounds { rect: ime.rect, cursor_rect: ime.cursor_rect });
                assert(commands_view(cmds@) =~= commands_view(mid) + seq![
                    CommandView::UpdateBounds { rect: ime.rect, cursor_rect: ime.cursor_rect },
                ]);
                self.prev_ime_output = Some(ime);
                cmds
            },
        }
    }

    /// The event that an EditContext `textupdate` hands to the UI. During a
    /// composition it is the event's text as preedit (empty when the event has
    /// none); otherwise the whole buffer `context_text` is the new text, with
    /// the cursor at the character where the selection starts
    /// (`selection_start`, a UTF-16 offset).
    pub fn on_text_update(
        &self,
        event_text: Option<String>,
        context_text: String,
        selection_start: u32,
    ) -> (ev: TextInputEvent)
        ensures
            self@.composing ==> ev@ == TextEventView::Preedit(
                match event_text {
                    Some(t) => t@,
                    None => Seq::<char>::empty(),
                },
            ),
            !self@.composing ==> (ev@ matches TextEventView::TextChanged { text, cursor } && text
                == context_text@ && is_char_index_for(context_text@, selection_start as int, cursor)),
    {
        if self.is_composing {
            let preedit = match event_text {
                Some(t) => t,
                None => String::new(),
            };
            TextInputEvent::Preedit(preedit)
        } else {
            let cursor = utf16_to_char(context_text.as_str(), selection_start);
            TextInputEvent::TextChanged { text: context_text, cursor }
        }
    }

    /// An EditContext `compositionstart`: a composition is now in progress.
    pub fn on_composition_start(&mut self) -> (ev: TextInputEvent)
        ensures
            final(self)@ == (AgentView { composing: true, ..old(self)@ }),
            ev@ == TextEventView::ImeEnabled,
    {
        self.is_composing = true;
        TextInputEvent::ImeEnabled
    }

    /// An EditContext `compositionend` with the committed text `committed`:
    /// the composition is over, and a nonempty commit goes to the UI.
    pub fn on_composition_end(&mut self, committed: String) -> (ev: Option<TextInputEvent>)
        ensures
            final(self)@ == (AgentView { composing: false, ..old(self)@ }),
            committed@.len() == 0 ==> ev is None,
            committed@.len() > 0 ==> ev is Some && ev->0@ == TextEventView::Commit(committed@),
    {
        self.is_composing = false;
        if committed.as_str().unicode_len() == 0 {
            None
        } else {
            Some(TextInputEvent::Commit(committed))
        }
    }
}

} // verus!
