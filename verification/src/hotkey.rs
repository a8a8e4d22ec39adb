//! The global shortcut: its text form, the guard that puts the user's
//! clipboard back, and the flag that keeps runs from overlapping.
use vstd::prelude::*;

use crate::config::HotkeyConfig;
use crate::text::{join_seq, join_strings, views};

verus! {

/// The text form of a shortcut: the modifiers and then the key, joined by `+`.
pub open spec fn shortcut_text(hotkey: HotkeyConfig) -> Seq<char> {
    join_seq(views(hotkey.modifiers@), "+"@) + "+"@ + hotkey.key@
}

/// The text form of the configured shortcut, as the shortcut parser reads it.
pub fn hotkey_config_to_shortcut(hotkey: &HotkeyConfig) -> (res: String)
    ensures
        res@ == shortcut_text(*hotkey),
{
    let mut res = join_strings(&hotkey.modifiers, "+");
    res.append("+");
    res.append(hotkey.key.as_str());
    res
}

/// The key is the last part of the shortcut's text, after a `+`.
pub proof fn law_key_is_last_segment(hotkey: HotkeyConfig)
    ensures
        ({
            let t = shortcut_text(hotkey);
            let k = hotkey.key@;
            &&& t.len() > k.len()
            &&& t.skip(t.len() - k.len()) == k
            &&& t[t.len() - k.len() - 1] == '+'
        }),
{
    let t = shortcut_text(hotkey);
    let k = hotkey.key@;
    let head = join_seq(views(hotkey.modifiers@), "+"@) + "+"@;
    reveal_strlit("+");
    assert(t == head + k);
    assert(t.skip(t.len() - k.len()) =~= k);
    assert(t[t.len() - k.len() - 1] == head[head.len() - 1]);
}

/// How long to wait after a paste before the clipboard is put back.
pub const RESTORE_PASTE_DELAY_MS: u64 = 150;

/// What putting the clipboard back takes: whether to wait first (a paste
/// was sent, and must read the refined text before it is replaced) and
/// whether to write the saved text (there was any).
pub fn cleanup_plan(saved_empty: bool, paste_dispatched: bool) -> (res: (bool, bool))
    ensures
        res == (paste_dispatched, !saved_empty),
{
    (paste_dispatched, !saved_empty)
}

/// The clipboard content saved before a run, and whether the run got as
/// far as sending a paste.
pub struct ClipboardGuard {
    pub saved: String,
    pub paste_dispatched: bool,
}

impl ClipboardGuard {
    /// A guard for the saved content; no paste sent yet.
    pub fn new(saved: String) -> (res: ClipboardGuard)
        ensures
            res.saved == saved,
            !res.paste_dispatched,
    {
        ClipboardGuard { saved, paste_dispatched: false }
    }

    /// Records that the paste was sent.
    pub fn mark_paste_dispatched(&mut self)
        ensures
            final(self).paste_dispatched,
            final(self).saved == old(self).saved,
    {
        self.paste_dispatched = true;
    }

    /// What putting this guard's content back takes.
    pub fn plan(&self) -> (res: (bool, bool))
        ensures
            res == (self.paste_dispatched, self.saved@.len() > 0),
    {
        cleanup_plan(self.saved.as_str().is_empty(), self.paste_dispatched)
    }
}

/// Whether a run of the shortcut is under way.
pub struct ProcessingFlag {
    pub busy: bool,
}

impl ProcessingFlag {
    /// No run under way.
    pub fn new() -> (res: ProcessingFlag)
        ensures
            !res.busy,
    {
        ProcessingFlag { busy: false }
    }

    /// Whether a run is under way.
    pub fn is_busy(&self) -> (res: bool)
        ensures
            res == self.busy,
    {
        self.busy
    }

    /// Handles a shortcut event: a press starts a run unless one is under
    /// way; a release starts nothing. Returns whether a run starts.
    pub fn try_start(&mut self, pressed: bool) -> (started: bool)
        ensures
            started == (pressed && !old(self).busy),
            final(self).busy == (old(self).busy || pressed),
            started == starts_run(old(self).busy, ShortcutEvent::Key { pressed }),
            final(self).busy == busy_after_event(old(self).busy, ShortcutEvent::Key { pressed }),
    {
        if pressed && !self.busy {
            self.busy = true;
            true
        } else {
            if pressed {
                self.busy = true;
            }
            false
        }
    }

    /// Records that the run has ended.
    pub fn finish(&mut self)
        ensures
            !final(self).busy,
            final(self).busy == busy_after_event(old(self).busy, ShortcutEvent::RunEnded),
    {
        self.busy = false;
    }
}

/// What happens to the flag: a shortcut event (pressed or released), or
/// the end of the run under way.
pub enum ShortcutEvent {
    Key { pressed: bool },
    RunEnded,
}

/// Whether `e` starts a run when the flag reads `busy`: a press while no
/// run is under way.
pub open spec fn starts_run(busy: bool, e: ShortcutEvent) -> bool {
    match e {
        ShortcutEvent::Key { pressed } => pressed && !busy,
        ShortcutEvent::RunEnded => false,
    }
}

/// The flag after `e`, from `busy`.
pub open spec fn busy_after_event(busy: bool, e: ShortcutEvent) -> bool {
    match e {
        ShortcutEvent::Key { pressed } => busy || pressed,
        ShortcutEvent::RunEnded => false,
    }
}

/// The flag after `events`, starting from no run under way.
pub open spec fn busy_after(events: Seq<ShortcutEvent>) -> bool
    decreases events.len(),
{
    if events.len() == 0 {
        false
    } else {
        busy_after_event(busy_after(events.drop_last()), events.last())
    }
}

/// How many runs are under way after `events`: each start adds one, each
/// end takes one away.
pub open spec fn runs_under_way(events: Seq<ShortcutEvent>) -> int
    decreases events.len(),
{
    if events.len() == 0 {
        0
    } else {
        let before = events.drop_last();
        runs_under_way(before) + (if starts_run(busy_after(before), events.last()) {
            1int
        } else {
            0int
        }) - (if events.last() is RunEnded {
            1int
        } else {
            0int
        })
    }
}

/// Every end in `events` is that of a run under way at that point.
pub open spec fn ends_follow_starts(events: Seq<ShortcutEvent>) -> bool {
    forall|i: int|
        0 <= i < events.len() && #[trigger] events[i] is RunEnded ==> runs_under_way(
            events.take(i),
        ) > 0
}

/// At most one run is under way at any time: over any sequence of shortcut
/// events in which a run's end follows its start, the flag reads busy
/// exactly while one run is under way, never more.
pub proof fn law_one_run_at_a_time(events: Seq<ShortcutEvent>)
    requires
        ends_follow_starts(events),
    ensures
        0 <= runs_under_way(events) <= 1,
        busy_after(events) <==> runs_under_way(events) == 1,
    decreases events.len(),
{
    if events.len() > 0 {
        let before = events.drop_last();
        assert forall|i: int|
            0 <= i < before.len() && #[trigger] before[i] is RunEnded implies runs_under_way(
            before.take(i),
        ) > 0 by {
            assert(events[i] == before[i]);
            assert(events.take(i) =~= before.take(i));
        }
        law_one_run_at_a_time(before);
        let last = events.len() - 1;
        if events.last() is RunEnded {
            assert(events[last] is RunEnded);
            assert(events.take(last) =~= before);
        }
    }
}

} // verus!
