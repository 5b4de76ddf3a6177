//! Event-stream backend.
//!
//! The operating system reports keyboard activity as a stream of raw events,
//! one `(type, code, value)` triple per event, read from one or more input
//! devices. This module holds everything about that stream that is not I/O:
//!
//! - the key identity table, [`evdev_code`], from [`KeyCode`] to the native key
//!   code of the event stream;
//! - [`RawEvent`] and the rule that tells a key press and a key release apart
//!   from everything else a device may say;
//! - [`InputHandler`], the pressed-state table and its accumulator.
//!
//! The table is a reduction of the events seen so far, not a log of them: for
//! each native code it holds what the last press or release of that code said,
//! and `false` where there was none. [`drained`] is the reduction, and
//! [`lemma_drained_last_wins`] is the statement about the last event.

use vstd::prelude::*;
use crate::input_handler::KeyCode;

verus! {

/// Number of native key codes. The pressed-state table has one entry for each
/// code from 0 to `KEY_COUNT - 1`.
pub const KEY_COUNT: usize = 0x300;

/// The event type of key events. Events of any other type are ignored.
pub const EV_KEY: u16 = 1;

/// The value of a key event that reports a release.
pub const VALUE_RELEASED: i32 = 0;

/// The value of a key event that reports a press. A key event with a value
/// other than this one and [`VALUE_RELEASED`] (an autorepeat, for one) changes
/// nothing.
pub const VALUE_PRESSED: i32 = 1;

/// Time between two poll cycles of a background poller, in milliseconds.
pub const POLL_INTERVAL_MS: u64 = 5;

/// The native key code of a key in the event stream.
pub open spec fn evdev_code(key: KeyCode) -> u16 {
    match key {
        KeyCode::KeyEsc => 1,
        KeyCode::Key1 => 2,
        KeyCode::Key2 => 3,
        KeyCode::Key3 => 4,
        KeyCode::Key4 => 5,
        KeyCode::Key5 => 6,
        KeyCode::Key6 => 7,
        KeyCode::Key7 => 8,
        KeyCode::Key8 => 9,
        KeyCode::Key9 => 10,
        KeyCode::Key0 => 11,
        KeyCode::KeyMinus => 12,
        KeyCode::KeyEqual => 13,
        KeyCode::KeyBackspace => 14,
        KeyCode::KeyTab => 15,
        KeyCode::KeyQ => 16,
        KeyCode::KeyW => 17,
        KeyCode::KeyE => 18,
        KeyCode::KeyR => 19,
        KeyCode::KeyT => 20,
        KeyCode::KeyY => 21,
        KeyCode::KeyU => 22,
        KeyCode::KeyI => 23,
        KeyCode::KeyO => 24,
        KeyCode::KeyP => 25,
        KeyCode::KeyLeftBrace => 26,
        KeyCode::KeyRightBrace => 27,
        KeyCode::KeyEnter => 28,
        KeyCode::KeyLeftCtrl => 29,
        KeyCode::KeyA => 30,
        KeyCode::KeyS => 31,
        KeyCode::KeyD => 32,
        KeyCode::KeyF => 33,
        KeyCode::KeyG => 34,
        KeyCode::KeyH => 35,
        KeyCode::KeyJ => 36,
        KeyCode::KeyK => 37,
        KeyCode::KeyL => 38,
        KeyCode::KeySemicolon => 39,
        KeyCode::KeyApostrophe => 40,
        KeyCode::KeyGrave => 41,
        KeyCode::KeyLeftShift => 42,
        KeyCode::KeyBackslash => 43,
        KeyCode::KeyZ => 44,
        KeyCode::KeyX => 45,
        KeyCode::KeyC => 46,
        KeyCode::KeyV => 47,
        KeyCode::KeyB => 48,
        KeyCode::KeyN => 49,
        KeyCode::KeyM => 50,
        KeyCode::KeyComma => 51,
        KeyCode::KeyDot => 52,
        KeyCode::KeySlash => 53,
        KeyCode::KeyRightShift => 54,
        KeyCode::KeyKpAsterisk => 55,
        KeyCode::KeyLeftAlt => 56,
        KeyCode::KeySpace => 57,
        KeyCode::KeyCapslock => 58,
        KeyCode::KeyF1 => 59,
        KeyCode::KeyF2 => 60,
        KeyCode::KeyF3 => 61,
        KeyCode::KeyF4 => 62,
        KeyCode::KeyF5 => 63,
        KeyCode::KeyF6 => 64,
        KeyCode::KeyF7 => 65,
        KeyCode::KeyF8 => 66,
        KeyCode::KeyF9 => 67,
        KeyCode::KeyF10 => 68,
        KeyCode::KeyF11 => 87,
        KeyCode::KeyF12 => 88,
        KeyCode::KeyUp => 103,
        KeyCode::KeyDown => 108,
        KeyCode::KeyLeft => 105,
        KeyCode::KeyRight => 106,
    }
}

/// No two keys share a native code.
pub proof fn lemma_evdev_code_injective(a: KeyCode, b: KeyCode)
    requires
        evdev_code(a) == evdev_code(b),
    ensures
        a == b,
{
}

/// Every key has an entry in the pressed-state table, and none sits on the
/// reserved code 0.
pub proof fn lemma_evdev_code_in_table(key: KeyCode)
    ensures
        0 < evdev_code(key) < KEY_COUNT,
{
}

/// What a raw event says about a key.
#[derive(Debug, Clone, Copy, PartialEq, Eq, Structural)]
pub enum KeyTransition {
    /// The key went down.
    Pressed,
    /// The key went up.
    Released,
}

/// One event as a device delivers it: the three numbers of an input event,
/// without its timestamp.
#[derive(Debug, Clone, Copy, PartialEq, Eq, Structural)]
pub struct RawEvent {
    /// The event type. Key events have [`EV_KEY`].
    pub kind: u16,
    /// For a key event, the native code of the key.
    pub code: u16,
    /// For a key event, [`VALUE_PRESSED`], [`VALUE_RELEASED`], or something
    /// that is neither.
    pub value: i32,
}

impl RawEvent {
    /// The press event of a native code.
    pub open spec fn press(code: u16) -> RawEvent {
        RawEvent { kind: EV_KEY, code, value: VALUE_PRESSED }
    }

    /// The release event of a native code.
    pub open spec fn release(code: u16) -> RawEvent {
        RawEvent { kind: EV_KEY, code, value: VALUE_RELEASED }
    }

    /// The transition that this event reports, if it reports one: a key event
    /// with the value of a press or of a release. Events of other types and
    /// key events with other values report none.
    pub open spec fn transition(self) -> Option<KeyTransition> {
        if self.kind != EV_KEY {
            None
        } else if self.value == VALUE_PRESSED {
            Some(KeyTransition::Pressed)
        } else if self.value == VALUE_RELEASED {
            Some(KeyTransition::Released)
        } else {
            None
        }
    }

    /// Whether this event changes the entry of `code` in a pressed-state
    /// table.
    pub open spec fn concerns(self, code: u16) -> bool {
        self.code == code && self.transition() is Some
    }

    /// Tells a press and a release apart from everything else.
    pub fn key_transition(&self) -> (t: Option<KeyTransition>)
        ensures
            t == self.transition(),
    {
        match key_summary(self.kind, self.code, self.value) {
            Some((_, VALUE_PRESSED)) => Some(KeyTransition::Pressed),
            Some((_, VALUE_RELEASED)) => Some(KeyTransition::Released),
            _ => None,
        }
    }
}

/// Builds an `evdev::InputEvent` from the three numbers with
/// `evdev::InputEvent::new` and takes it apart with
/// `evdev::InputEvent::destructure`.
///
/// Trusted: `destructure` answers with its `Key` variant exactly for events
/// of type [`EV_KEY`], and that variant carries the event's code and value
/// unchanged.
#[verifier::external_body]
fn key_summary(kind: u16, code: u16, value: i32) -> (key: Option<(u16, i32)>)
    ensures
        key == (if kind == EV_KEY {
            Some((code, value))
        } else {
            None::<(u16, i32)>
        }),
{
    match evdev::InputEvent::new(kind, code, value).destructure() {
        evdev::EventSummary::Key(_, key, value) => Some((key.code(), value)),
        _ => None,
    }
}

/// The table after one event: a press sets the entry of the event's code, a
/// release clears it, and every other entry stays. An event that reports no
/// transition, or whose code has no entry, leaves the table as it is.
pub open spec fn applied(table: Seq<bool>, event: RawEvent) -> Seq<bool> {
    match event.transition() {
        Some(t) if event.code < table.len() => table.update(event.code as int, t is Pressed),
        _ => table,
    }
}

/// The table after a sequence of events, applied first to last.
pub open spec fn drained(table: Seq<bool>, events: Seq<RawEvent>) -> Seq<bool>
    decreases events.len(),
{
    if events.len() == 0 {
        table
    } else {
        applied(drained(table, events.drop_last()), events.last())
    }
}

/// The last transition that `events` report for `code`, if they report any.
pub open spec fn last_transition(events: Seq<RawEvent>, code: u16) -> Option<KeyTransition>
    decreases events.len(),
{
    if events.len() == 0 {
        None
    } else if events.last().concerns(code) {
        events.last().transition()
    } else {
        last_transition(events.drop_last(), code)
    }
}

/// The table in which no key is pressed.
pub open spec fn all_released() -> Seq<bool> {
    Seq::new(KEY_COUNT as nat, |i: int| false)
}

/// What one read of one input source gave.
#[derive(Debug, PartialEq, Eq)]
pub enum ReadOutcome {
    /// The source delivered these events, in the order in which the operating
    /// system produced them.
    Events(Vec<RawEvent>),
    /// The source has nothing to deliver right now. This is the expected end
    /// of draining a non-blocking source, not an error.
    NoData,
    /// The read failed for any other reason.
    Fault,
}

/// What the poller does next with the source that it has just read.
#[derive(Debug, Clone, Copy, PartialEq, Eq, Structural)]
pub enum DrainStep {
    /// More may be waiting: read the same source again.
    ReadAgain,
    /// The source is drained for this cycle: go on to the next source.
    Drained,
    /// Report the fault, leave this source for this cycle, and go on to the
    /// next source. Polling does not stop.
    ReportFault,
}

/// The table after one read: the events of the read are applied in order, and
/// a read that delivered none changes nothing.
pub open spec fn after_read(table: Seq<bool>, outcome: ReadOutcome) -> Seq<bool> {
    match outcome {
        ReadOutcome::Events(events) => drained(table, events@),
        ReadOutcome::NoData => table,
        ReadOutcome::Fault => table,
    }
}

/// The step that follows one read. A read that succeeded with no events is
/// the end of the source's data like [`ReadOutcome::NoData`].
pub open spec fn step_after(outcome: ReadOutcome) -> DrainStep {
    match outcome {
        ReadOutcome::Events(events) => if events@.len() == 0 {
            DrainStep::Drained
        } else {
            DrainStep::ReadAgain
        },
        ReadOutcome::NoData => DrainStep::Drained,
        ReadOutcome::Fault => DrainStep::ReportFault,
    }
}

/// The pressed-state table of the event-stream backend and its accumulator.
///
/// A handler starts with no key pressed and changes only through
/// [`apply`](InputHandler::apply), [`apply_batch`](InputHandler::apply_batch)
/// and [`drain_step`](InputHandler::drain_step). Its view is the table: entry
/// `c` says whether the key with native code `c` is held down.
pub struct InputHandler {
    pressed_keys: [bool; KEY_COUNT],
}

impl View for InputHandler {
    type V = Seq<bool>;

    closed spec fn view(&self) -> Seq<bool> {
        self.pressed_keys@
    }
}

impl InputHandler {
    /// Whether the table says that `key` is held down.
    pub open spec fn pressed(&self, key: KeyCode) -> bool {
        self@[evdev_code(key) as int]
    }

    /// The table has one entry for each native code.
    pub proof fn lemma_table_len(&self)
        ensures
            self@.len() == KEY_COUNT,
    {
    }

    /// Creates a handler in which no key is pressed. This needs no input
    /// source: a handler that is never fed an event reports nothing pressed.
    pub fn new() -> (handler: Self)
        ensures
            handler@ == all_released(),
            forall|key: KeyCode| !handler.pressed(key),
    {
        InputHandler { pressed_keys: [false; KEY_COUNT] }
    }

    /// Checks if a specific key is currently pressed: reads the table at the
    /// key's native code.
    pub fn is_pressed(&self, key: KeyCode) -> (pressed: bool)
        ensures
            pressed == self.pressed(key),
    {
        let evdev_code: u16 = Self::to_evdev_code(key);
        self.pressed_keys[evdev_code as usize]
    }

    /// The native key code of a key.
    pub fn to_evdev_code(key: KeyCode) -> (code: u16)
        ensures
            code == evdev_code(key),
            0 < code < KEY_COUNT,
    {
        match key {
            KeyCode::KeyEsc => 1,
            KeyCode::Key1 => 2,
            KeyCode::Key2 => 3,
            KeyCode::Key3 => 4,
            KeyCode::Key4 => 5,
            KeyCode::Key5 => 6,
            KeyCode::Key6 => 7,
            KeyCode::Key7 => 8,
            KeyCode::Key8 => 9,
            KeyCode::Key9 => 10,
            KeyCode::Key0 => 11,
            KeyCode::KeyMinus => 12,
            KeyCode::KeyEqual => 13,
            KeyCode::KeyBackspace => 14,
            KeyCode::KeyTab => 15,
            KeyCode::KeyQ => 16,
            KeyCode::KeyW => 17,
            KeyCode::KeyE => 18,
            KeyCode::KeyR => 19,
            KeyCode::KeyT => 20,
            KeyCode::KeyY => 21,
            KeyCode::KeyU => 22,
            KeyCode::KeyI => 23,
            KeyCode::KeyO => 24,
            KeyCode::KeyP => 25,
            KeyCode::KeyLeftBrace => 26,
            KeyCode::KeyRightBrace => 27,
            KeyCode::KeyEnter => 28,
            KeyCode::KeyLeftCtrl => 29,
            KeyCode::KeyA => 30,
            KeyCode::KeyS => 31,
            KeyCode::KeyD => 32,
            KeyCode::KeyF => 33,
            KeyCode::KeyG => 34,
            KeyCode::KeyH => 35,
            KeyCode::KeyJ => 36,
            KeyCode::KeyK => 37,
            KeyCode::KeyL => 38,
            KeyCode::KeySemicolon => 39,
            KeyCode::KeyApostrophe => 40,
            KeyCode::KeyGrave => 41,
            KeyCode::KeyLeftShift => 42,
            KeyCode::KeyBackslash => 43,
            KeyCode::KeyZ => 44,
            KeyCode::KeyX => 45,
            KeyCode::KeyC => 46,
            KeyCode::KeyV => 47,
            KeyCode::KeyB => 48,
            KeyCode::KeyN => 49,
            KeyCode::KeyM => 50,
            KeyCode::KeyComma => 51,
            KeyCode::KeyDot => 52,
            KeyCode::KeySlash => 53,
            KeyCode::KeyRightShift => 54,
            KeyCode::KeyKpAsterisk => 55,
            KeyCode::KeyLeftAlt => 56,
            KeyCode::KeySpace => 57,
            KeyCode::KeyCapslock => 58,
            KeyCode::KeyF1 => 59,
            KeyCode::KeyF2 => 60,
            KeyCode::KeyF3 => 61,
            KeyCode::KeyF4 => 62,
            KeyCode::KeyF5 => 63,
            KeyCode::KeyF6 => 64,
            KeyCode::KeyF7 => 65,
            KeyCode::KeyF8 => 66,
            KeyCode::KeyF9 => 67,
            KeyCode::KeyF10 => 68,
            KeyCode::KeyF11 => 87,
            KeyCode::KeyF12 => 88,
            KeyCode::KeyUp => 103,
            KeyCode::KeyDown => 108,
            KeyCode::KeyLeft => 105,
            KeyCode::KeyRight => 106,
        }
    }

    /// Applies one event: a press sets the entry of the event's code, a
    /// release clears it. Anything else, and any code without an entry, is
    /// ignored.
    pub fn apply(&mut self, event: &RawEvent)
        ensures
            final(self)@ == applied(old(self)@, *event),
    {
        let index: usize = event.code as usize;
        if index < KEY_COUNT {
            match event.key_transition() {
                Some(KeyTransition::Pressed) => {
                    self.pressed_keys[index] = true;
                },
                Some(KeyTransition::Released) => {
                    self.pressed_keys[index] = false;
                },
                None => {},
            }
        }
    }

    /// Applies the events of one read, first to last.
    pub fn apply_batch(&mut self, events: &Vec<RawEvent>)
        ensures
            final(self)@ == drained(old(self)@, events@),
    {
        let mut i: usize = 0;
        while i < events.len()
            invariant
                i <= events.len(),
                self@ == drained(old(self)@, events@.take(i as int)),
            decreases events.len() - i,
        {
            assert(events@.take(i + 1).drop_last() == events@.take(i as int));
            self.apply(&events[i]);
            i += 1;
        }
        assert(events@.take(i as int) == events@);
    }

    /// Takes in the outcome of one read of one source and says what the
    /// poller does next with that source.
    ///
    /// Events are applied. A source that has no data changes nothing and is
    /// done for this cycle. So is one whose read failed, and the failure is
    /// to be reported.
    pub fn drain_step(&mut self, outcome: &ReadOutcome) -> (step: DrainStep)
        ensures
            final(self)@ == after_read(old(self)@, *outcome),
            step == step_after(*outcome),
            !(*outcome is Events) ==> final(self)@ == old(self)@,
    {
        match outcome {
            ReadOutcome::Events(events) => {
                self.apply_batch(events);
                if events.len() == 0 {
                    DrainStep::Drained
                } else {
                    DrainStep::ReadAgain
                }
            },
            ReadOutcome::NoData => DrainStep::Drained,
            ReadOutcome::Fault => DrainStep::ReportFault,
        }
    }
}

/// An event changes no entry but that of its own code, and never the number
/// of entries.
pub proof fn lemma_applied_elsewhere(table: Seq<bool>, event: RawEvent, code: u16)
    requires
        code < table.len(),
        !event.concerns(code),
    ensures
        applied(table, event).len() == table.len(),
        applied(table, event)[code as int] == table[code as int],
{
}

/// Pressing a key makes it read as pressed, and releasing it afterwards makes
/// it read as released again.
pub proof fn lemma_press_then_release(table: Seq<bool>, key: KeyCode)
    requires
        table.len() == KEY_COUNT,
    ensures
        applied(table, RawEvent::press(evdev_code(key)))[evdev_code(key) as int],
        !applied(
            applied(table, RawEvent::press(evdev_code(key))),
            RawEvent::release(evdev_code(key)),
        )[evdev_code(key) as int],
{
    lemma_evdev_code_in_table(key);
}

/// An event on the code of one key changes what no other key reads as.
pub proof fn lemma_other_keys_untouched(table: Seq<bool>, event: RawEvent, key: KeyCode, other: KeyCode)
    requires
        table.len() == KEY_COUNT,
        event.code == evdev_code(key),
        other != key,
    ensures
        applied(table, event)[evdev_code(other) as int] == table[evdev_code(other) as int],
{
    lemma_evdev_code_in_table(other);
    if evdev_code(other) == evdev_code(key) {
        lemma_evdev_code_injective(other, key);
    }
}

/// Applying the same event twice in a row gives what applying it once gives:
/// a second press leaves a key pressed and does not toggle it, and so for a
/// second release.
pub proof fn lemma_apply_idempotent(table: Seq<bool>, event: RawEvent)
    ensures
        applied(applied(table, event), event) == applied(table, event),
{
}

/// Draining one run of events and then another is draining the two runs
/// joined: events of several reads, or of several sources read one after the
/// other, count in the order in which they were taken in.
pub proof fn lemma_drained_concat(table: Seq<bool>, first: Seq<RawEvent>, second: Seq<RawEvent>)
    ensures
        drained(table, first + second) == drained(drained(table, first), second),
    decreases second.len(),
{
    if second.len() == 0 {
        assert(first + second == first);
    } else {
        lemma_drained_concat(table, first, second.drop_last());
        assert((first + second).drop_last() == first + second.drop_last());
    }
}

/// The last event wins. After a run of events, the entry of a code holds what
/// the last press or release of that code said; where the run holds neither,
/// the entry is what it was. The number of entries never changes.
pub proof fn lemma_drained_last_wins(table: Seq<bool>, events: Seq<RawEvent>, code: u16)
    requires
        code < table.len(),
    ensures
        drained(table, events).len() == table.len(),
        drained(table, events)[code as int] == (match last_transition(events, code) {
            Some(t) => t is Pressed,
            None => table[code as int],
        }),
    decreases events.len(),
{
    if events.len() > 0 {
        lemma_drained_last_wins(table, events.drop_last(), code);
    }
}

/// Starting from nothing pressed, a key reads as pressed exactly when the
/// last press or release seen for its code was a press.
pub proof fn lemma_pressed_iff_last_was_press(events: Seq<RawEvent>, key: KeyCode)
    ensures
        drained(all_released(), events)[evdev_code(key) as int] <==> last_transition(
            events,
            evdev_code(key),
        ) == Some(KeyTransition::Pressed),
{
    lemma_evdev_code_in_table(key);
    lemma_drained_last_wins(all_released(), events, evdev_code(key));
}

/// A press is seen once it has been drained. If `events[at]` is a press and
/// no later event of the run releases the same code, the code reads as
/// pressed after the run has been drained, whatever the table held before.
pub proof fn lemma_press_seen_after_drain(table: Seq<bool>, events: Seq<RawEvent>, at: int)
    requires
        0 <= at < events.len(),
        events[at].code < table.len(),
        events[at].transition() == Some(KeyTransition::Pressed),
        forall|later: int|
            at < later < events.len() ==> !(events[later].code == events[at].code
                && #[trigger] events[later].transition() == Some(KeyTransition::Released)),
    ensures
        drained(table, events)[events[at].code as int],
    decreases events.len(),
{
    lemma_drained_last_wins(table, events.drop_last(), events[at].code);
    if at < events.len() - 1 {
        lemma_press_seen_after_drain(table, events.drop_last(), at);
    }
}

/// A press is not seen before it has been drained. A code that reads as
/// released keeps reading so through any run of events that holds no press
/// of it.
pub proof fn lemma_press_unseen_before_drain(table: Seq<bool>, events: Seq<RawEvent>, code: u16)
    requires
        code < table.len(),
        !table[code as int],
        forall|i: int|
            0 <= i < events.len() ==> !(events[i].code == code && #[trigger] events[i].transition()
                == Some(KeyTransition::Pressed)),
    ensures
        !drained(table, events)[code as int],
    decreases events.len(),
{
    if events.len() > 0 {
        lemma_press_unseen_before_drain(table, events.drop_last(), code);
        lemma_drained_last_wins(table, events.drop_last(), code);
    }
}

} // verus!
