use vstd::prelude::*;
use rand::Rng;

verus! {

/// The word at index `i` of the memorable word list.
pub uninterp spec fn word_entry(i: int) -> Seq<char>;

/// The number of words in the memorable word list.
pub open spec fn word_list_size() -> nat {
    16383
}

/// A word of the memorable word list.
pub open spec fn is_listed_word(w: Seq<char>) -> bool {
    exists|j: int| 0 <= j < word_list_size() && w == #[trigger] word_entry(j)
}

/// The words joined by single spaces, with no space before the first or after the last.
pub open spec fn join_spec(words: Seq<Seq<char>>) -> Seq<char>
    decreases words.len(),
{
    if words.len() == 0 {
        Seq::empty()
    } else if words.len() == 1 {
        words[0]
    } else {
        join_spec(words.drop_last()) + seq![' '] + words.last()
    }
}

/// Relies on `memorable_wordlist::WORDS`: its length.
#[verifier::external_body]
fn word_list_len() -> (r: usize)
    ensures
        r == word_list_size(),
{
    memorable_wordlist::WORDS.len()
}

/// Relies on `memorable_wordlist::WORDS`: the characters of its entry `i`.
#[verifier::external_body]
fn word_at(i: usize) -> (r: Vec<char>)
    requires
        i < word_list_size(),
    ensures
        r@ == word_entry(i as int),
{
    memorable_wordlist::WORDS[i].chars().collect()
}

/// Relies on `rand::Rng::gen_range` on the thread-local generator: a value in `0..n`.
#[verifier::external_body]
fn random_below(n: usize) -> (r: usize)
    requires
        n > 0,
    ensures
        r < n,
{
    rand::thread_rng().gen_range(0..n)
}

/// Joins the words with a single space between consecutive ones.
pub fn join_words(words: &Vec<Vec<char>>) -> (r: Vec<char>)
    ensures
        r@ == join_spec(words@.map_values(|w: Vec<char>| w@)),
{
    let ghost ws = words@.map_values(|w: Vec<char>| w@);
    let mut r: Vec<char> = Vec::new();
    let mut i: usize = 0;
    while i < words.len()
        invariant
            ws == words@.map_values(|w: Vec<char>| w@),
            i <= words@.len(),
            r@ == join_spec(ws.take(i as int)),
        decreases words@.len() - i,
    {
        let ghost before = r@;
        if i > 0 {
            r.push(' ');
        }
        let ghost mid = r@;
        let w = &words[i];
        let mut j: usize = 0;
        while j < w.len()
            invariant
                j <= w@.len(),
                r@ == mid + w@.take(j as int),
            decreases w@.len() - j,
        {
            r.push(w[j]);
            j = j + 1;
            assert(r@ =~= mid + w@.take(j as int));
        }
        assert(w@.take(j as int) =~= w@);
        assert(ws.take(i + 1).drop_last() =~= ws.take(i as int));
        if i == 0 {
            assert(mid =~= Seq::<char>::empty());
            assert(r@ =~= ws.take(1)[0]);
        } else {
            assert(mid =~= before + seq![' ']);
        }
        i = i + 1;
    }
    assert(ws.take(i as int) =~= ws);
    r
}

/// Draws `word_count` words at random, with replacement, from the memorable
/// word list and joins them with single spaces.
pub fn get_word_list(word_count: usize) -> (r: Vec<char>)
    requires
        word_count > 0,
    ensures
        exists|ws: Seq<Seq<char>>|
            ws.len() == word_count && (forall|k: int| 0 <= k < ws.len() ==> is_listed_word(#[trigger] ws[k]))
                && r@ == join_spec(ws),
{
    let n = word_list_len();
    let mut words: Vec<Vec<char>> = Vec::new();
    let mut k: usize = 0;
    while k < word_count
        invariant
            n == word_list_size(),
            k <= word_count,
            words@.len() == k,
            forall|m: int| 0 <= m < k ==> is_listed_word(#[trigger] words@[m]@),
        decreases word_count - k,
    {
        let x = random_below(n);
        let w = word_at(x);
        assert(is_listed_word(w@));
        words.push(w);
        k = k + 1;
    }
    let r = join_words(&words);
    let ghost ws = words@.map_values(|w: Vec<char>| w@);
    assert(forall|m: int| 0 <= m < ws.len() ==> is_listed_word(#[trigger] ws[m]));
    r
}

} // verus!
