use vstd::prelude::*;
use crate::diff::{correct_count, count_correct, diff, diff_spec, DiffCell};
use crate::phrase::{get_word_list, is_listed_word, join_spec};

verus! {

/// How many words a phrase drawn on restart holds.
pub const WORDS_PER_PHRASE: usize = 25;

/// The phase of a typing session.
#[derive(Clone, Copy, Debug, PartialEq, Eq, Structural)]
pub enum Phase {
    /// No keystroke received yet.
    Idle,
    /// The timer is running.
    Running,
    /// The phrase has been typed out; statistics are frozen.
    Finished,
}

/// Words per minute as the exact fraction `numerator / denominator`.
#[derive(Clone, Copy, Debug, PartialEq, Eq, Structural)]
pub struct Wpm {
    pub numerator: u128,
    pub denominator: u64,
}

/// The statistics of a finished session.
#[derive(Clone, Copy, Debug, PartialEq, Eq, Structural)]
pub struct SessionStats {
    pub elapsed_seconds: u64,
    pub correct_char_count: usize,
    pub total_char_count: usize,
    pub wpm: Wpm,
}

/// A decoded input event.
#[derive(Clone, Copy, Debug, PartialEq, Eq, Structural)]
pub enum KeyInput {
    Char(char),
    Backspace,
    Restart,
    Quit,
}

/// A typing session: the phrase, what has been typed, the phase and the timing.
#[derive(Debug)]
pub struct App {
    exit: bool,
    phrase: Vec<char>,
    typed: Vec<char>,
    phase: Phase,
    start_time: u64,
    stats: Option<SessionStats>,
}

/// The abstract state of a session.
pub struct SessionView {
    pub exit: bool,
    pub phrase: Seq<char>,
    pub typed: Seq<char>,
    pub phase: Phase,
    pub start_time: u64,
    pub stats: Option<SessionStats>,
}

impl View for App {
    type V = SessionView;

    closed spec fn view(&self) -> SessionView {
        SessionView {
            exit: self.exit,
            phrase: self.phrase@,
            typed: self.typed@,
            phase: self.phase,
            start_time: self.start_time,
            stats: self.stats,
        }
    }
}

/// Words per minute at five characters a word: `12 * chars / seconds`, with
/// zero seconds counted as one.
pub open spec fn wpm_spec(chars: nat, seconds: u64) -> Wpm {
    Wpm { numerator: (12 * chars) as u128, denominator: if seconds == 0 { 1 } else { seconds } }
}

/// The smaller of the two lengths: the positions that are scored.
pub open spec fn scored_len(phrase: Seq<char>, typed: Seq<char>) -> int {
    if phrase.len() <= typed.len() { phrase.len() as int } else { typed.len() as int }
}

/// Whole seconds from the start of a running session to `now`; zero if the
/// session is not running or the clock went backwards.
pub open spec fn elapsed_spec(v: SessionView, now: u64) -> u64 {
    if v.phase == Phase::Running && now >= v.start_time { (now - v.start_time) as u64 } else { 0 }
}

/// The statistics of session `v` if it ends at `now`.
pub open spec fn stats_at(v: SessionView, now: u64) -> SessionStats {
    let correct = correct_count(v.phrase, v.typed, scored_len(v.phrase, v.typed));
    SessionStats {
        elapsed_seconds: elapsed_spec(v, now),
        correct_char_count: correct as usize,
        total_char_count: v.phrase.len() as usize,
        wpm: wpm_spec(correct, elapsed_spec(v, now)),
    }
}

/// A new session on `phrase`.
pub open spec fn fresh(phrase: Seq<char>) -> SessionView {
    SessionView {
        exit: false,
        phrase,
        typed: Seq::empty(),
        phase: Phase::Idle,
        start_time: 0,
        stats: None,
    }
}

/// Ends session `v` at `now`, freezing its statistics; a finished session stays as it is.
pub open spec fn finish_spec(v: SessionView, now: u64) -> SessionView {
    if v.phase == Phase::Finished {
        v
    } else {
        SessionView { phase: Phase::Finished, stats: Some(stats_at(v, now)), ..v }
    }
}

/// Session `v` after the character `c` is typed at `now`.
pub open spec fn after_char(v: SessionView, c: char, now: u64) -> SessionView {
    if v.phase == Phase::Finished {
        v
    } else {
        let w = SessionView {
            typed: v.typed.push(c),
            phase: Phase::Running,
            start_time: if v.phase == Phase::Idle { now } else { v.start_time },
            ..v
        };
        if w.typed.len() >= w.phrase.len() {
            finish_spec(w, now)
        } else {
            w
        }
    }
}

/// Session `v` after a backspace.
pub open spec fn after_backspace(v: SessionView) -> SessionView {
    if v.phase == Phase::Finished || v.typed.len() == 0 {
        v
    } else {
        SessionView { typed: v.typed.drop_last(), ..v }
    }
}

/// Session `v` after each character of `cs` in turn, all typed at `now`.
pub open spec fn feed(v: SessionView, cs: Seq<char>, now: u64) -> SessionView
    decreases cs.len(),
{
    if cs.len() == 0 {
        v
    } else {
        feed(after_char(v, cs[0], now), cs.drop_first(), now)
    }
}

/// The phases agree with the buffer: an idle session has typed nothing, a running
/// one has not reached the phrase's length, and statistics exist exactly when finished.
pub open spec fn wf_view(v: SessionView) -> bool {
    &&& v.phase == Phase::Idle ==> v.typed.len() == 0 && v.stats is None
    &&& v.phase == Phase::Running ==> v.typed.len() < v.phrase.len() && v.stats is None
    &&& v.phase == Phase::Finished ==> v.stats is Some
}

/// Words per minute for `chars_typed` correct characters in `time_seconds`.
pub fn calculate_wpm(chars_typed: usize, time_seconds: u64) -> (r: Wpm)
    ensures
        r == wpm_spec(chars_typed as nat, time_seconds),
{
    let numerator: u128 = 12 * (chars_typed as u128);
    let denominator: u64 = if time_seconds == 0 { 1 } else { time_seconds };
    Wpm { numerator, denominator }
}

impl App {
    /// The session is in a consistent state.
    pub open spec fn wf(&self) -> bool {
        wf_view(self@)
    }

    /// A new idle session on `phrase`.
    pub fn new(phrase: Vec<char>) -> (r: App)
        ensures
            r@ == fresh(phrase@),
            r.wf(),
    {
        App { exit: false, phrase, typed: Vec::new(), phase: Phase::Idle, start_time: 0, stats: None }
    }

    /// The statistics of the session if it ended at `now`.
    fn compute_stats(&self, now: u64) -> (r: SessionStats)
        ensures
            r == stats_at(self@, now),
    {
        let correct = count_correct(&self.phrase, &self.typed);
        let elapsed: u64 = if self.phase == Phase::Running && now >= self.start_time {
            now - self.start_time
        } else {
            0
        };
        SessionStats {
            elapsed_seconds: elapsed,
            correct_char_count: correct,
            total_char_count: self.phrase.len(),
            wpm: calculate_wpm(correct, elapsed),
        }
    }

    /// Ends the session at `now` and freezes its statistics; does nothing to a
    /// finished session.
    pub fn set_done(&mut self, now: u64)
        requires
            old(self).wf(),
        ensures
            final(self)@ == finish_spec(old(self)@, now),
            final(self).wf(),
    {
        if self.phase != Phase::Finished {
            let s = self.compute_stats(now);
            self.stats = Some(s);
            self.phase = Phase::Finished;
        }
    }

    /// Types the character `c` at time `now` (in whole seconds).
    pub fn apply_character(&mut self, c: char, now: u64)
        requires
            old(self).wf(),
        ensures
            final(self)@ == after_char(old(self)@, c, now),
            final(self).wf(),
    {
        if self.phase == Phase::Finished {
            return;
        }
        self.typed.push(c);
        if self.phase == Phase::Idle {
            self.start_time = now;
        }
        self.phase = Phase::Running;
        if self.typed.len() >= self.phrase.len() {
            let s = self.compute_stats(now);
            self.stats = Some(s);
            self.phase = Phase::Finished;
        }
    }

    /// Removes the last typed character, if any, unless the session is finished.
    pub fn apply_backspace(&mut self)
        requires
            old(self).wf(),
        ensures
            final(self)@ == after_backspace(old(self)@),
            final(self).wf(),
    {
        if self.phase != Phase::Finished {
            self.typed.pop();
        }
    }

    /// Starts over on `new_phrase`, whatever the current state.
    pub fn restart(&mut self, new_phrase: Vec<char>)
        ensures
            final(self)@ == fresh(new_phrase@),
            final(self).wf(),
    {
        *self = App::new(new_phrase);
    }

    /// Marks the session as asked to quit.
    pub fn exit(&mut self)
        requires
            old(self).wf(),
        ensures
            final(self)@ == (SessionView { exit: true, ..old(self)@ }),
            final(self).wf(),
    {
        self.exit = true;
    }

    /// Applies one input event at time `now`; a restart draws a new phrase.
    pub fn handle_key_event(&mut self, key: KeyInput, now: u64)
        requires
            old(self).wf(),
        ensures
            final(self).wf(),
            match key {
                KeyInput::Char(c) => final(self)@ == after_char(old(self)@, c, now),
                KeyInput::Backspace => final(self)@ == after_backspace(old(self)@),
                KeyInput::Quit => final(self)@ == (SessionView { exit: true, ..old(self)@ }),
                KeyInput::Restart => final(self)@ == fresh(final(self)@.phrase) && exists|ws: Seq<Seq<char>>|
                    ws.len() == WORDS_PER_PHRASE && (forall|k: int|
                        0 <= k < ws.len() ==> is_listed_word(#[trigger] ws[k])) && final(self)@.phrase
                        == join_spec(ws),
            },
    {
        match key {
            KeyInput::Char(c) => self.apply_character(c, now),
            KeyInput::Backspace => self.apply_backspace(),
            KeyInput::Restart => {
                let p = get_word_list(WORDS_PER_PHRASE);
                self.restart(p);
            },
            KeyInput::Quit => self.exit(),
        }
    }

    pub fn is_finished(&self) -> (r: bool)
        ensures
            r == (self@.phase == Phase::Finished),
    {
        self.phase == Phase::Finished
    }

    pub fn current_phase(&self) -> (r: Phase)
        ensures
            r == self@.phase,
    {
        self.phase
    }

    pub fn is_exiting(&self) -> (r: bool)
        ensures
            r == self@.exit,
    {
        self.exit
    }

    pub fn typed_len(&self) -> (r: usize)
        ensures
            r == self@.typed.len(),
    {
        self.typed.len()
    }

    /// The live diff of the typed text against the phrase.
    pub fn snapshot_diff(&self) -> (r: Vec<DiffCell>)
        ensures
            r@ == diff_spec(self@.phrase, self@.typed),
    {
        diff(&self.phrase, &self.typed)
    }

    /// The statistics, present exactly when the session is finished.
    pub fn stats(&self) -> (r: Option<SessionStats>)
        requires
            self.wf(),
        ensures
            r == self@.stats,
            r is Some <==> self@.phase == Phase::Finished,
    {
        self.stats
    }
}

} // verus!
