use vstd::prelude::*;

verus! {

/// The marker shown in place of a wrong character where the phrase has a space.
pub const PLACEHOLDER: char = '_';

/// How one position of the phrase compares with what was typed there.
#[derive(Clone, Copy, Debug, PartialEq, Eq, Structural)]
pub enum CharClass {
    Correct,
    Incorrect,
    Untyped,
}

/// One entry of the diff: the character to show and its classification.
#[derive(Clone, Copy, Debug, PartialEq, Eq, Structural)]
pub struct DiffCell {
    pub ch: char,
    pub class: CharClass,
}

/// The entry for position `i` of the phrase.
pub open spec fn diff_cell(phrase: Seq<char>, typed: Seq<char>, i: int) -> DiffCell {
    if i >= typed.len() {
        DiffCell { ch: phrase[i], class: CharClass::Untyped }
    } else if phrase[i] == typed[i] {
        DiffCell { ch: typed[i], class: CharClass::Correct }
    } else if phrase[i] == ' ' {
        DiffCell { ch: PLACEHOLDER, class: CharClass::Incorrect }
    } else {
        DiffCell { ch: typed[i], class: CharClass::Incorrect }
    }
}

/// One entry per phrase position; typed characters past the phrase's end are left out.
pub open spec fn diff_spec(phrase: Seq<char>, typed: Seq<char>) -> Seq<DiffCell> {
    Seq::new(phrase.len(), |i: int| diff_cell(phrase, typed, i))
}

/// The number of positions below `n` where phrase and typed text agree.
pub open spec fn correct_count(phrase: Seq<char>, typed: Seq<char>, n: int) -> nat
    decreases n,
{
    if n <= 0 {
        0
    } else {
        correct_count(phrase, typed, n - 1) + if phrase[n - 1] == typed[n - 1] { 1nat } else { 0nat }
    }
}

/// The diff has one entry for each of the first `min(len(phrase), len(typed))`
/// positions, plus one for each phrase position not yet typed.
pub proof fn lemma_diff_len(phrase: Seq<char>, typed: Seq<char>)
    ensures
        diff_spec(phrase, typed).len() == (if phrase.len() <= typed.len() {
            phrase.len() as int
        } else {
            typed.len() as int
        }) + (if phrase.len() > typed.len() {
            phrase.len() - typed.len()
        } else {
            0int
        }),
{
}

/// Compares `typed` against `phrase` position by position.
pub fn diff(phrase: &Vec<char>, typed: &Vec<char>) -> (r: Vec<DiffCell>)
    ensures
        r@ == diff_spec(phrase@, typed@),
{
    let mut r: Vec<DiffCell> = Vec::new();
    let mut i: usize = 0;
    while i < phrase.len()
        invariant
            i <= phrase@.len(),
            r@ == diff_spec(phrase@, typed@).take(i as int),
        decreases phrase@.len() - i,
    {
        let p = phrase[i];
        let cell = if i >= typed.len() {
            DiffCell { ch: p, class: CharClass::Untyped }
        } else if p == typed[i] {
            DiffCell { ch: typed[i], class: CharClass::Correct }
        } else if p == ' ' {
            DiffCell { ch: PLACEHOLDER, class: CharClass::Incorrect }
        } else {
            DiffCell { ch: typed[i], class: CharClass::Incorrect }
        };
        assert(cell == diff_cell(phrase@, typed@, i as int));
        r.push(cell);
        i = i + 1;
        assert(r@ =~= diff_spec(phrase@, typed@).take(i as int));
    }
    assert(r@ =~= diff_spec(phrase@, typed@));
    r
}

/// Counts the positions, over the shorter of the two, where `typed` matches `phrase`.
pub fn count_correct(phrase: &Vec<char>, typed: &Vec<char>) -> (r: usize)
    ensures
        r == correct_count(
            phrase@,
            typed@,
            if phrase@.len() <= typed@.len() { phrase@.len() as int } else { typed@.len() as int },
        ),
{
    let n: usize = if phrase.len() <= typed.len() { phrase.len() } else { typed.len() };
    let mut r: usize = 0;
    let mut i: usize = 0;
    while i < n
        invariant
            n <= phrase@.len(),
            n <= typed@.len(),
            n == (if phrase@.len() <= typed@.len() { phrase@.len() } else { typed@.len() }),
            i <= n,
            r == correct_count(phrase@, typed@, i as int),
            r <= i,
        decreases n - i,
    {
        if phrase[i] == typed[i] {
            r = r + 1;
        }
        i = i + 1;
    }
    r
}

} // verus!
