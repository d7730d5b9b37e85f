//! What a key press asks of the composer: the main-surface shortcuts, in the
//! order they are tried, turn interrupts, and the whole decision for one key
//! from what the editor reported about it.

use vstd::prelude::*;
use crate::keymap::{KeymapView, RuntimeKeymap};
use crate::text::owned;
use crate::keys::{any_pressed, is_pressed, KeyEvent, KeyEventKind};

verus! {

/// A shortcut that the composer answers instead of editing.
#[derive(Clone, Copy, Debug, PartialEq, Eq, Structural)]
pub enum ComposerShortcut {
    ToggleVimMode,
    Copy,
    OpenTranscript,
    ClearTerminal,
    Submit,
    Queue,
}

/// The shortcut that `event` presses: the first, in this order, of
/// toggling Vim mode, copying, opening the transcript, clearing the
/// terminal, submitting and queueing.
pub open spec fn shortcut_spec(k: KeymapView, event: KeyEvent) -> Option<ComposerShortcut> {
    if any_pressed(k.app.toggle_vim_mode, event) {
        Some(ComposerShortcut::ToggleVimMode)
    } else if any_pressed(k.app.copy, event) {
        Some(ComposerShortcut::Copy)
    } else if any_pressed(k.app.open_transcript, event) {
        Some(ComposerShortcut::OpenTranscript)
    } else if any_pressed(k.app.clear_terminal, event) {
        Some(ComposerShortcut::ClearTerminal)
    } else if any_pressed(k.composer.submit, event) {
        Some(ComposerShortcut::Submit)
    } else if any_pressed(k.composer.queue, event) {
        Some(ComposerShortcut::Queue)
    } else {
        None
    }
}

/// The shortcut that `event` presses, if any.
pub fn composer_shortcut(keymap: &RuntimeKeymap, event: KeyEvent) -> (r: Option<ComposerShortcut>)
    ensures
        r == shortcut_spec(keymap@, event),
{
    if is_pressed(keymap.app.toggle_vim_mode.as_slice(), event) {
        Some(ComposerShortcut::ToggleVimMode)
    } else if is_pressed(keymap.app.copy.as_slice(), event) {
        Some(ComposerShortcut::Copy)
    } else if is_pressed(keymap.app.open_transcript.as_slice(), event) {
        Some(ComposerShortcut::OpenTranscript)
    } else if is_pressed(keymap.app.clear_terminal.as_slice(), event) {
        Some(ComposerShortcut::ClearTerminal)
    } else if is_pressed(keymap.composer.submit.as_slice(), event) {
        Some(ComposerShortcut::Submit)
    } else if is_pressed(keymap.composer.queue.as_slice(), event) {
        Some(ComposerShortcut::Queue)
    } else {
        None
    }
}

/// Whether a key that the draft takes also interrupts the running turn:
/// it presses the interrupt binding, unless it is the Escape that leaves
/// Vim insert mode (`leaves_vim_insert`).
pub fn interrupts_turn(keymap: &RuntimeKeymap, event: KeyEvent, leaves_vim_insert: bool) -> (r: bool)
    ensures
        r == (any_pressed(keymap@.chat.interrupt_turn, event) && !leaves_vim_insert),
{
    is_pressed(keymap.chat.interrupt_turn.as_slice(), event) && !leaves_vim_insert
}

/// The largest draft, in bytes, that a key may leave behind.
pub const MAX_DRAFT_BYTES: usize = 262144;

/// The longest Vim search query, in bytes.
pub const MAX_VIM_SEARCH_BYTES: usize = 256;

/// How sending a draft goes: now, or queued behind the running turn.
#[derive(Clone, Copy, Debug, PartialEq, Eq, Structural)]
pub enum SubmitMode {
    Send,
    Queue,
}

/// What the composer asks of the app after a key.
#[derive(Clone, Copy, Debug, PartialEq, Eq, Structural)]
pub enum ComposerAction {
    Submit(SubmitMode),
    Copy,
    Transcript,
    Clear,
    Interrupt,
}

/// What the chord matcher made of a key: passed on as it is, the last key of
/// a chord that completed into `event`, or held (a pending, cancelled or
/// ignored chord), in which case nothing more happens.
#[derive(Clone, Copy, Debug, PartialEq, Eq, Structural)]
pub enum ChordOutcome {
    PassThrough,
    Completed(KeyEvent),
    Held,
}

/// What the paste filter made of a key: passed on, taken as part of a paste,
/// or refused with a message.
#[derive(Clone, Debug)]
pub enum PasteFilter {
    Passed,
    Consumed,
    Refused(String),
}

/// The decision for one key.
#[derive(Clone, Debug)]
pub enum KeyStep {
    /// Nothing more: a release, a held chord, or a key that undo/redo history took.
    Ignored,
    /// The Vim search query took the key.
    SearchEdited,
    /// The key made the Vim search query too long: it is put back.
    SearchTooLong,
    /// The paste filter took the key.
    Pasted,
    /// The paste filter refused the key.
    PasteRefused(String),
    /// The key toggles Vim mode.
    ToggleVim,
    /// The key asks for an action of the app.
    Action(ComposerAction),
    /// The key made the draft too large: the draft and cursor are put back.
    DraftTooLarge,
    /// The draft took the key; it also interrupts the turn when `interrupt`.
    Edited { interrupt: bool },
}

/// The key that the composer handles after the chord matcher.
pub open spec fn chord_event(chord: ChordOutcome, event: KeyEvent) -> KeyEvent {
    match chord {
        ChordOutcome::Completed(e) => e,
        _ => event,
    }
}

/// What each shortcut asks for.
pub open spec fn shortcut_step(s: ComposerShortcut) -> KeyStep {
    match s {
        ComposerShortcut::ToggleVimMode => KeyStep::ToggleVim,
        ComposerShortcut::Copy => KeyStep::Action(ComposerAction::Copy),
        ComposerShortcut::OpenTranscript => KeyStep::Action(ComposerAction::Transcript),
        ComposerShortcut::ClearTerminal => KeyStep::Action(ComposerAction::Clear),
        ComposerShortcut::Submit => KeyStep::Action(ComposerAction::Submit(SubmitMode::Send)),
        ComposerShortcut::Queue => KeyStep::Action(ComposerAction::Submit(SubmitMode::Queue)),
    }
}

/// The decision for a key, in the order the composer tries things: key
/// releases and held chords are ignored; then undo/redo history may take the
/// key; then the Vim search query (`search_len_after` is its length after
/// taking the key, when it wants the key); then the paste filter; then the
/// shortcuts; and last the draft, whose length after taking the key is
/// `draft_len_after`.
pub open spec fn key_step_spec(
    k: KeymapView,
    event: KeyEvent,
    chord: ChordOutcome,
    history_took: bool,
    search_len_after: Option<usize>,
    paste: PasteFilter,
    leaves_vim_insert: bool,
    draft_len_after: usize,
) -> KeyStep {
    let e = chord_event(chord, event);
    if event.kind == KeyEventKind::Release || chord == ChordOutcome::Held || history_took {
        KeyStep::Ignored
    } else if search_len_after is Some {
        if search_len_after->0 > MAX_VIM_SEARCH_BYTES {
            KeyStep::SearchTooLong
        } else {
            KeyStep::SearchEdited
        }
    } else {
        match paste {
            PasteFilter::Consumed => KeyStep::Pasted,
            PasteFilter::Refused(m) => KeyStep::PasteRefused(m),
            PasteFilter::Passed => match shortcut_spec(k, e) {
                Some(s) => shortcut_step(s),
                None => if draft_len_after > MAX_DRAFT_BYTES {
                    KeyStep::DraftTooLarge
                } else {
                    KeyStep::Edited {
                        interrupt: any_pressed(k.chat.interrupt_turn, e) && !leaves_vim_insert,
                    }
                },
            },
        }
    }
}

/// Decide what one key does in the composer, from what the chord matcher,
/// the undo/redo history, the Vim search query, the paste filter and the
/// draft made of it (see [`key_step_spec`]).
pub fn composer_step(
    keymap: &RuntimeKeymap,
    event: KeyEvent,
    chord: ChordOutcome,
    history_took: bool,
    search_len_after: Option<usize>,
    paste: PasteFilter,
    leaves_vim_insert: bool,
    draft_len_after: usize,
) -> (r: KeyStep)
    ensures
        r == key_step_spec(
            keymap@,
            event,
            chord,
            history_took,
            search_len_after,
            paste,
            leaves_vim_insert,
            draft_len_after,
        ),
{
    if event.kind == KeyEventKind::Release || chord == ChordOutcome::Held || history_took {
        return KeyStep::Ignored;
    }
    let e = match chord {
        ChordOutcome::Completed(c) => c,
        _ => event,
    };
    if let Some(len) = search_len_after {
        if len > MAX_VIM_SEARCH_BYTES {
            return KeyStep::SearchTooLong;
        }
        return KeyStep::SearchEdited;
    }
    match paste {
        PasteFilter::Consumed => KeyStep::Pasted,
        PasteFilter::Refused(m) => KeyStep::PasteRefused(m),
        PasteFilter::Passed => match composer_shortcut(keymap, e) {
            Some(ComposerShortcut::ToggleVimMode) => KeyStep::ToggleVim,
            Some(ComposerShortcut::Copy) => KeyStep::Action(ComposerAction::Copy),
            Some(ComposerShortcut::OpenTranscript) => KeyStep::Action(ComposerAction::Transcript),
            Some(ComposerShortcut::ClearTerminal) => KeyStep::Action(ComposerAction::Clear),
            Some(ComposerShortcut::Submit) => KeyStep::Action(ComposerAction::Submit(SubmitMode::Send)),
            Some(ComposerShortcut::Queue) => KeyStep::Action(ComposerAction::Submit(SubmitMode::Queue)),
            None => if draft_len_after > MAX_DRAFT_BYTES {
                KeyStep::DraftTooLarge
            } else {
                KeyStep::Edited { interrupt: interrupts_turn(keymap, e, leaves_vim_insert) }
            },
        },
    }
}

/// What a key decision answers the caller: an action, nothing, or an error
/// message for a refused key.
pub open spec fn step_reply_spec(step: KeyStep) -> Result<Option<ComposerAction>, Seq<char>> {
    match step {
        KeyStep::SearchTooLong => Err("Vim search input is too long."@),
        KeyStep::PasteRefused(m) => Err(m@),
        KeyStep::DraftTooLarge => Err("Draft is too large; attach a file instead."@),
        KeyStep::Action(a) => Ok(Some(a)),
        KeyStep::Edited { interrupt } => if interrupt {
            Ok(Some(ComposerAction::Interrupt))
        } else {
            Ok(None)
        },
        _ => Ok(None),
    }
}

/// The answer to the caller for a key decision.
pub fn step_reply(step: &KeyStep) -> (r: Result<Option<ComposerAction>, String>)
    ensures
        match r {
            Ok(a) => step_reply_spec(*step) == Ok::<Option<ComposerAction>, Seq<char>>(a),
            Err(m) => step_reply_spec(*step) == Err::<Option<ComposerAction>, Seq<char>>(m@),
        },
{
    match step {
        KeyStep::SearchTooLong => Err(owned("Vim search input is too long.")),
        KeyStep::PasteRefused(m) => Err(owned(m.as_str())),
        KeyStep::DraftTooLarge => Err(owned("Draft is too large; attach a file instead.")),
        KeyStep::Action(a) => Ok(Some(*a)),
        KeyStep::Edited { interrupt } => if *interrupt {
            Ok(Some(ComposerAction::Interrupt))
        } else {
            Ok(None)
        },
        _ => Ok(None),
    }
}

/// Each shortcut answers with its own request: for a key that reaches the
/// shortcuts (pressed or repeated, not held by a chord, not taken by the
/// history, the search query or the paste filter), the first shortcut that
/// the key presses, in the order toggle Vim mode, copy, open the transcript,
/// clear the terminal, submit, queue, decides the step: toggling Vim mode,
/// copying, opening the transcript, clearing the terminal, sending the draft
/// or queueing it. A key that presses none of them goes to the draft, which
/// is refused when it would grow past its limit and otherwise interrupts the
/// turn exactly when the key presses the interrupt binding outside the Escape
/// that leaves Vim insert mode.
pub proof fn lemma_shortcut_actions(
    k: KeymapView,
    event: KeyEvent,
    chord: ChordOutcome,
    leaves_vim_insert: bool,
    draft_len_after: usize,
)
    requires
        event.kind != KeyEventKind::Release,
        chord != ChordOutcome::Held,
    ensures
        (any_pressed(k.app.toggle_vim_mode, chord_event(chord, event)))
            ==> key_step_spec(k, event, chord, false, None, PasteFilter::Passed, leaves_vim_insert, draft_len_after)
            == KeyStep::ToggleVim,
        (!any_pressed(k.app.toggle_vim_mode, chord_event(chord, event))
            && any_pressed(k.app.copy, chord_event(chord, event)))
            ==> (key_step_spec(k, event, chord, false, None, PasteFilter::Passed, leaves_vim_insert, draft_len_after)
            == KeyStep::Action(ComposerAction::Copy)
            && step_reply_spec(key_step_spec(k, event, chord, false, None, PasteFilter::Passed, leaves_vim_insert, draft_len_after))
            == Ok::<Option<ComposerAction>, Seq<char>>(Some(ComposerAction::Copy))),
        (!any_pressed(k.app.toggle_vim_mode, chord_event(chord, event))
            && !any_pressed(k.app.copy, chord_event(chord, event))
            && any_pressed(k.app.open_transcript, chord_event(chord, event)))
            ==> (key_step_spec(k, event, chord, false, None, PasteFilter::Passed, leaves_vim_insert, draft_len_after)
            == KeyStep::Action(ComposerAction::Transcript)
            && step_reply_spec(key_step_spec(k, event, chord, false, None, PasteFilter::Passed, leaves_vim_insert, draft_len_after))
            == Ok::<Option<ComposerAction>, Seq<char>>(Some(ComposerAction::Transcript))),
        (!any_pressed(k.app.toggle_vim_mode, chord_event(chord, event))
            && !any_pressed(k.app.copy, chord_event(chord, event))
            && !any_pressed(k.app.open_transcript, chord_event(chord, event))
            && any_pressed(k.app.clear_terminal, chord_event(chord, event)))
            ==> (key_step_spec(k, event, chord, false, None, PasteFilter::Passed, leaves_vim_insert, draft_len_after)
            == KeyStep::Action(ComposerAction::Clear)
            && step_reply_spec(key_step_spec(k, event, chord, false, None, PasteFilter::Passed, leaves_vim_insert, draft_len_after))
            == Ok::<Option<ComposerAction>, Seq<char>>(Some(ComposerAction::Clear))),
        (!any_pressed(k.app.toggle_vim_mode, chord_event(chord, event))
            && !any_pressed(k.app.copy, chord_event(chord, event))
            && !any_pressed(k.app.open_transcript, chord_event(chord, event))
            && !any_pressed(k.app.clear_terminal, chord_event(chord, event))
            && any_pressed(k.composer.submit, chord_event(chord, event)))
            ==> (key_step_spec(k, event, chord, false, None, PasteFilter::Passed, leaves_vim_insert, draft_len_after)
            == KeyStep::Action(ComposerAction::Submit(SubmitMode::Send))
            && step_reply_spec(key_step_spec(k, event, chord, false, None, PasteFilter::Passed, leaves_vim_insert, draft_len_after))
            == Ok::<Option<ComposerAction>, Seq<char>>(Some(ComposerAction::Submit(SubmitMode::Send)))),
        (!any_pressed(k.app.toggle_vim_mode, chord_event(chord, event))
            && !any_pressed(k.app.copy, chord_event(chord, event))
            && !any_pressed(k.app.open_transcript, chord_event(chord, event))
            && !any_pressed(k.app.clear_terminal, chord_event(chord, event))
            && !any_pressed(k.composer.submit, chord_event(chord, event))
            && any_pressed(k.composer.queue, chord_event(chord, event)))
            ==> (key_step_spec(k, event, chord, false, None, PasteFilter::Passed, leaves_vim_insert, draft_len_after)
            == KeyStep::Action(ComposerAction::Submit(SubmitMode::Queue))
            && step_reply_spec(key_step_spec(k, event, chord, false, None, PasteFilter::Passed, leaves_vim_insert, draft_len_after))
            == Ok::<Option<ComposerAction>, Seq<char>>(Some(ComposerAction::Submit(SubmitMode::Queue)))),
        (!any_pressed(k.app.toggle_vim_mode, chord_event(chord, event))
            && !any_pressed(k.app.copy, chord_event(chord, event))
            && !any_pressed(k.app.open_transcript, chord_event(chord, event))
            && !any_pressed(k.app.clear_terminal, chord_event(chord, event))
            && !any_pressed(k.composer.submit, chord_event(chord, event))
            && !any_pressed(k.composer.queue, chord_event(chord, event))
            && draft_len_after > MAX_DRAFT_BYTES)
            ==> key_step_spec(k, event, chord, false, None, PasteFilter::Passed, leaves_vim_insert, draft_len_after)
            == KeyStep::DraftTooLarge,
        (!any_pressed(k.app.toggle_vim_mode, chord_event(chord, event))
            && !any_pressed(k.app.copy, chord_event(chord, event))
            && !any_pressed(k.app.open_transcript, chord_event(chord, event))
            && !any_pressed(k.app.clear_terminal, chord_event(chord, event))
            && !any_pressed(k.composer.submit, chord_event(chord, event))
            && !any_pressed(k.composer.queue, chord_event(chord, event))
            && draft_len_after <= MAX_DRAFT_BYTES)
            ==> key_step_spec(k, event, chord, false, None, PasteFilter::Passed, leaves_vim_insert, draft_len_after)
            == (KeyStep::Edited {
                interrupt: any_pressed(k.chat.interrupt_turn, chord_event(chord, event)) && !leaves_vim_insert,
            }),
{
}

/// What comes before the shortcuts: a release, a held chord or a key that the
/// history took is ignored; a key that the Vim search query wants edits the
/// query, or is refused when the query would pass its limit; a key that the
/// paste filter takes or refuses is pasted or refused with the filter's
/// message; none of these reaches the shortcuts or the draft.
pub proof fn lemma_step_before_shortcuts(
    k: KeymapView,
    event: KeyEvent,
    chord: ChordOutcome,
    history_took: bool,
    search_len_after: Option<usize>,
    paste: PasteFilter,
    leaves_vim_insert: bool,
    draft_len_after: usize,
)
    ensures
        (event.kind == KeyEventKind::Release || chord == ChordOutcome::Held || history_took) ==> key_step_spec(
            k, event, chord, history_took, search_len_after, paste, leaves_vim_insert, draft_len_after,
        ) == KeyStep::Ignored,
        (event.kind != KeyEventKind::Release && chord != ChordOutcome::Held && !history_took
            && search_len_after is Some && search_len_after->0 > MAX_VIM_SEARCH_BYTES) ==> step_reply_spec(key_step_spec(
            k, event, chord, history_took, search_len_after, paste, leaves_vim_insert, draft_len_after,
        )) == Err::<Option<ComposerAction>, Seq<char>>("Vim search input is too long."@),
        (event.kind != KeyEventKind::Release && chord != ChordOutcome::Held && !history_took
            && search_len_after is Some && search_len_after->0 <= MAX_VIM_SEARCH_BYTES) ==> key_step_spec(
            k, event, chord, history_took, search_len_after, paste, leaves_vim_insert, draft_len_after,
        ) == KeyStep::SearchEdited,
        (event.kind != KeyEventKind::Release && chord != ChordOutcome::Held && !history_took
            && search_len_after is None && paste is Consumed) ==> key_step_spec(
            k, event, chord, history_took, search_len_after, paste, leaves_vim_insert, draft_len_after,
        ) == KeyStep::Pasted,
        (event.kind != KeyEventKind::Release && chord != ChordOutcome::Held && !history_took
            && search_len_after is None && paste is Refused) ==> step_reply_spec(key_step_spec(
            k, event, chord, history_took, search_len_after, paste, leaves_vim_insert, draft_len_after,
        )) == Err::<Option<ComposerAction>, Seq<char>>(paste->Refused_0@),
{
}

} // verus!
