//! Text helpers: the characters of a string, and a token search that ignores
//! the case of ASCII letters.

use vstd::prelude::*;

verus! {

/// `c` with an ASCII capital letter replaced by its small letter.
pub open spec fn fold_case(c: char) -> char {
    if 65 <= c as u32 && c as u32 <= 90 {
        ((c as u32) + 32) as char
    } else {
        c
    }
}

/// `token` stands in `text` at index `at`, the case of ASCII letters in `text` aside.
pub open spec fn token_at(text: Seq<char>, token: Seq<char>, at: int) -> bool {
    &&& 0 <= at
    &&& at + token.len() <= text.len()
    &&& forall|k: int| 0 <= k < token.len() ==> fold_case(#[trigger] text[at + k]) == token[k]
}

/// `token` occurs somewhere in `text`, the case of ASCII letters in `text` aside.
pub open spec fn contains_token(text: Seq<char>, token: Seq<char>) -> bool {
    exists|at: int| token_at(text, token, at)
}

/// The characters of `text`, in order.
pub fn chars_of(text: &str) -> (out: Vec<char>)
    ensures
        out@ == text@,
{
    let mut out: Vec<char> = Vec::new();
    for c in it: text.chars()
        invariant
            out@ == it.seq().take(it.index()),
            it.seq() == text@,
    {
        out.push(c);
    }
    out
}

/// Folds one character.
pub fn fold(c: char) -> (r: char)
    ensures
        r == fold_case(c),
{
    if 'A' <= c && c <= 'Z' {
        ((c as u8) + 32u8) as char
    } else {
        c
    }
}

/// Whether `token` stands in `text` at `at`.
fn matches_at(text: &Vec<char>, token: &Vec<char>, at: usize) -> (hit: bool)
    requires
        at + token.len() <= text.len(),
    ensures
        hit == token_at(text@, token@, at as int),
{
    let mut k: usize = 0;
    while k < token.len()
        invariant
            k <= token.len(),
            at + token.len() <= text.len(),
            forall|j: int| 0 <= j < k ==> fold_case(#[trigger] text@[at + j]) == token@[j],
        decreases token.len() - k,
    {
        if fold(text[at + k]) != token[k] {
            assert(fold_case(text@[at + k]) != token@[k as int]);
            return false;
        }
        k += 1;
    }
    true
}

/// Searches `text` for `token`, taking `A` to `Z` in `text` for `a` to `z`.
///
/// A token that itself holds a capital letter is never found.
pub fn has_token(text: &str, token: &str) -> (found: bool)
    ensures
        found == contains_token(text@, token@),
{
    let hay = chars_of(text);
    let needle = chars_of(token);
    if needle.len() > hay.len() {
        assert forall|a: int| !token_at(text@, token@, a) by {}
        return false;
    }
    let last: usize = hay.len() - needle.len();
    let mut at: usize = 0;
    while at <= last
        invariant
            hay@ == text@,
            needle@ == token@,
            last == hay.len() - needle.len(),
            at <= last + 1,
            forall|a: int| 0 <= a < at ==> !token_at(text@, token@, a),
        decreases last + 1 - at,
    {
        if matches_at(&hay, &needle, at) {
            assert(token_at(text@, token@, at as int));
            return true;
        }
        at += 1;
    }
    assert forall|a: int| !token_at(text@, token@, a) by {}
    false
}

} // verus!
