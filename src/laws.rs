use vstd::prelude::*;
use crate::diff::diff_spec;
use crate::session::{after_backspace, after_char, feed, fresh, wf_view, Phase, SessionView};

verus! {

/// The diff depends on the phrase and the typed text alone: two snapshots of
/// sessions that agree on both are the same sequence.
pub proof fn lemma_snapshot_idempotent(a: SessionView, b: SessionView)
    requires
        a.phrase == b.phrase,
        a.typed == b.typed,
    ensures
        diff_spec(a.phrase, a.typed) == diff_spec(b.phrase, b.typed),
{
}

/// How many more characters an unfinished session accepts before it finishes.
pub open spec fn room(v: SessionView) -> int {
    if v.phrase.len() > v.typed.len() { v.phrase.len() - v.typed.len() } else { 1 }
}

/// A finished session ignores every further character and backspace.
pub proof fn lemma_finished_is_frozen(v: SessionView, cs: Seq<char>, now: u64)
    requires
        v.phase == Phase::Finished,
    ensures
        feed(v, cs, now) == v,
        after_backspace(v) == v,
    decreases cs.len(),
{
    if cs.len() > 0 {
        lemma_finished_is_frozen(after_char(v, cs[0], now), cs.drop_first(), now);
    }
}

/// Each character typed into an unfinished session lengthens the buffer by
/// exactly one, until the session finishes: after `cs`, the buffer is the old
/// one followed by as many characters of `cs` as were taken before finishing.
pub proof fn lemma_typing_appends(v: SessionView, cs: Seq<char>, now: u64)
    requires
        wf_view(v),
        v.phase != Phase::Finished,
    ensures
        feed(v, cs, now).typed == v.typed + cs.take(
            if cs.len() <= room(v) { cs.len() as int } else { room(v) },
        ),
        wf_view(feed(v, cs, now)),
    decreases cs.len(),
{
    if cs.len() > 0 {
        let w = after_char(v, cs[0], now);
        let rest = cs.drop_first();
        if w.phase == Phase::Finished {
            lemma_finished_is_frozen(w, rest, now);
            assert(room(v) == 1 || v.typed.len() + 1 >= v.phrase.len());
            assert(cs.take(1) =~= seq![cs[0]]);
            assert(v.typed + cs.take(1) =~= v.typed.push(cs[0]));
        } else {
            lemma_typing_appends(w, rest, now);
            assert(room(w) == room(v) - 1);
            let n = if rest.len() <= room(w) { rest.len() as int } else { room(w) };
            assert(v.typed + cs.take(n + 1) =~= v.typed.push(cs[0]) + rest.take(n));
        }
    }
}

/// A session finishes on the character that brings the buffer to the phrase's
/// length, and only then; once finished it stays finished until a restart.
pub proof fn lemma_completion_trigger(v: SessionView, c: char, now: u64)
    requires
        wf_view(v),
    ensures
        (after_char(v, c, now).phase == Phase::Finished) == (v.phase == Phase::Finished
            || v.typed.len() + 1 >= v.phrase.len()),
        v.phase != Phase::Finished ==> v.typed.len() < v.phrase.len() || v.phrase.len() == 0,
        v.phase == Phase::Finished ==> after_char(v, c, now) == v,
        after_backspace(v).phase == v.phase,
        wf_view(after_char(v, c, now)),
        wf_view(after_backspace(v)),
{
}

/// A restart leaves an idle session with an empty buffer and no statistics,
/// whatever came before.
pub proof fn lemma_restart_resets(phrase: Seq<char>)
    ensures
        fresh(phrase).phase == Phase::Idle,
        fresh(phrase).typed.len() == 0,
        fresh(phrase).stats is None,
        fresh(phrase).phrase == phrase,
        wf_view(fresh(phrase)),
{
}

} // verus!
