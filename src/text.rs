//! Searching in server messages: substring lookup, detection of the
//! "no game running yet" answer, and the schedule it carries.

use vstd::prelude::*;

verus! {

/// `pat` stands in `s` starting at index `i`.
pub open spec fn occurs_at(s: Seq<char>, pat: Seq<char>, i: int) -> bool {
    &&& 0 <= i
    &&& i + pat.len() <= s.len()
    &&& s.subrange(i, i + pat.len()) == pat
}

/// The first index at or after `from` where `pat` stands in `s`.
pub open spec fn index_from(s: Seq<char>, pat: Seq<char>, from: int) -> Option<int>
    decreases s.len() + 1 - from,
{
    if from < 0 || from + pat.len() > s.len() {
        None
    } else if occurs_at(s, pat, from) {
        Some(from)
    } else {
        index_from(s, pat, from + 1)
    }
}

/// `pat` stands somewhere in `s`.
pub open spec fn contains_text(s: Seq<char>, pat: Seq<char>) -> bool {
    index_from(s, pat, 0) is Some
}

/// The characters of a string, one by one.
pub fn chars_of(s: &str) -> (v: Vec<char>)
    ensures
        v@ == s@,
{
    let n = s.unicode_len();
    let mut v: Vec<char> = Vec::new();
    let mut i: usize = 0;
    while i < n
        invariant
            n == s@.len(),
            i <= n,
            v@ == s@.subrange(0, i as int),
        decreases n - i,
    {
        v.push(s.get_char(i));
        i = i + 1;
    }
    v
}

/// Whether `pat` stands in `s` at index `i`.
fn matches_at(s: &Vec<char>, pat: &Vec<char>, i: usize) -> (r: bool)
    requires
        i + pat@.len() <= s@.len(),
    ensures
        r == occurs_at(s@, pat@, i as int),
{
    let n = s.len();
    let mut k: usize = 0;
    while k < pat.len()
        invariant
            n == s@.len(),
            i + pat@.len() <= s@.len(),
            k <= pat@.len(),
            forall|j: int| 0 <= j < k ==> s@[i + j] == pat@[j],
        decreases pat@.len() - k,
    {
        if s[i + k] != pat[k] {
            assert(s@.subrange(i as int, i + pat@.len())[k as int] != pat@[k as int]);
            return false;
        }
        k = k + 1;
    }
    assert(s@.subrange(i as int, i + pat@.len()) =~= pat@);
    true
}

/// The first index at or after `from` where `pat` stands in `s`.
pub fn find_from(s: &Vec<char>, pat: &Vec<char>, from: usize) -> (r: Option<usize>)
    ensures
        r matches Some(i) ==> index_from(s@, pat@, from as int) == Some(i as int),
        r is None ==> index_from(s@, pat@, from as int) is None,
{
    if pat.len() > s.len() {
        return None;
    }
    let last = s.len() - pat.len();
    if from > last {
        return None;
    }
    let mut i = from;
    loop
        invariant
            last + pat@.len() == s@.len(),
            from <= i <= last,
            index_from(s@, pat@, from as int) == index_from(s@, pat@, i as int),
        decreases last - i,
    {
        if matches_at(s, pat, i) {
            return Some(i);
        }
        if i == last {
            return None;
        }
        i = i + 1;
    }
}

/// Whether `pat` stands anywhere in `s`.
pub fn contains(s: &str, pat: &str) -> (r: bool)
    ensures
        r == contains_text(s@, pat@),
{
    let hay = chars_of(s);
    let needle = chars_of(pat);
    find_from(&hay, &needle, 0).is_some()
}

/// The answer the server gives to a registration when no game is running yet.
pub open spec fn is_lobby_message(s: Seq<char>) -> bool {
    contains_text(s, "no active game"@) || contains_text(s, "lobby ended"@)
}

/// Whether a registration failure means "not registerable yet" rather than a fault.
pub fn is_lobby_failure(text: &str) -> (r: bool)
    ensures
        r == is_lobby_message(text@),
{
    contains(text, "no active game") || contains(text, "lobby ended")
}

/// The message shown while no round schedule can be read.
pub open spec fn waiting_text() -> Seq<char> {
    "Waiting for next round..."@
}

/// The message shown for a lobby answer: the list between the brackets that
/// follow "next rounds:", or a plain waiting message.
pub open spec fn next_round_text(s: Seq<char>) -> Seq<char> {
    match index_from(s, "next rounds:"@, 0) {
        Some(k) => match index_from(s, "["@, k) {
            Some(b) => match index_from(s, "]"@, b + 1) {
                Some(e) => "Next round: "@ + s.subrange(b + 1, e),
                None => waiting_text(),
            },
            None => waiting_text(),
        },
        None => waiting_text(),
    }
}

/// A lemma: a found index lies at or after the start and leaves room for the pattern.
pub proof fn lemma_index_from_bounds(s: Seq<char>, pat: Seq<char>, from: int)
    ensures
        index_from(s, pat, from) matches Some(i) ==> from <= i && occurs_at(s, pat, i),
    decreases s.len() + 1 - from,
{
    if !(from < 0 || from + pat.len() > s.len()) && !occurs_at(s, pat, from) {
        lemma_index_from_bounds(s, pat, from + 1);
    }
}

/// Derives the user-facing "next round" message from a lobby answer.
pub fn extract_next_round_info(msg: &str) -> (r: String)
    ensures
        r@ == next_round_text(msg@),
{
    let s = chars_of(msg);
    let marker = chars_of("next rounds:");
    let open = chars_of("[");
    let close = chars_of("]");
    let n = s.len();
    proof {
        reveal_strlit("[");
        reveal_strlit("]");
    }
    if let Some(k) = find_from(&s, &marker, 0) {
        if let Some(b) = find_from(&s, &open, k) {
            proof {
                lemma_index_from_bounds(s@, open@, k as int);
            }
            if let Some(e) = find_from(&s, &close, b + 1) {
                proof {
                    lemma_index_from_bounds(s@, close@, b + 1);
                }
                let mut r = String::from_str("Next round: ");
                r.append(msg.substring_char(b + 1, e));
                return r;
            }
        }
    }
    String::from_str("Waiting for next round...")
}

} // verus!
