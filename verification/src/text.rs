use vstd::prelude::*;
use vstd::string::*;

verus! {

broadcast use vstd::string::group_string_axioms;

/// `pat` occurs in `s` starting at position `i`.
pub open spec fn matches_at(s: Seq<char>, pat: Seq<char>, i: int) -> bool {
    0 <= i && i + pat.len() <= s.len() && s.subrange(i, i + pat.len()) == pat
}

/// `pat` occurs somewhere in `s`.
pub open spec fn contains_seq(s: Seq<char>, pat: Seq<char>) -> bool {
    exists|i: int| matches_at(s, pat, i)
}

/// `i` is the position of the last occurrence of `pat` in `s`.
pub open spec fn is_last_match(s: Seq<char>, pat: Seq<char>, i: int) -> bool {
    &&& matches_at(s, pat, i)
    &&& forall|j: int| i < j ==> !matches_at(s, pat, j)
}

/// A pattern that occurs in a sequence has a last occurrence.
pub proof fn lemma_last_match_exists(s: Seq<char>, pat: Seq<char>, i: int)
    requires
        matches_at(s, pat, i),
    ensures
        exists|p: int| is_last_match(s, pat, p),
    decreases s.len() - i,
{
    if exists|j: int| i < j && matches_at(s, pat, j) {
        let j = choose|j: int| i < j && matches_at(s, pat, j);
        lemma_last_match_exists(s, pat, j);
    } else {
        assert(is_last_match(s, pat, i));
    }
}

/// The last occurrence of a pattern is unique.
pub proof fn lemma_last_match_unique(s: Seq<char>, pat: Seq<char>, p: int, q: int)
    requires
        is_last_match(s, pat, p),
        is_last_match(s, pat, q),
    ensures
        p == q,
{
}

/// The characters of a string slice, in order.
pub fn chars_of(s: &str) -> (res: Vec<char>)
    ensures
        res@ == s@,
{
    let mut res: Vec<char> = Vec::new();
    for c in it: s.chars()
        invariant
            it.seq() == s@,
            res@ == it.seq().take(it.index() as int),
    {
        res.push(c);
    }
    assert(res@ =~= s@);
    res
}

/// Does `pat` occur in `hay` at position `i`?
pub fn matches_at_exec(hay: &Vec<char>, pat: &Vec<char>, i: usize) -> (res: bool)
    ensures
        res == matches_at(hay@, pat@, i as int),
{
    if pat.len() > hay.len() || i > hay.len() - pat.len() {
        return false;
    }
    let mut k: usize = 0;
    while k < pat.len()
        invariant
            i + pat.len() <= hay.len(),
            k <= pat.len(),
            forall|m: int| 0 <= m < k ==> hay@[i + m] == pat@[m],
        decreases pat.len() - k,
    {
        if hay[i + k] != pat[k] {
            assert(hay@.subrange(i as int, i + pat.len())[k as int] != pat@[k as int]);
            return false;
        }
        k = k + 1;
    }
    assert(hay@.subrange(i as int, i + pat.len()) =~= pat@);
    true
}

/// Position of the last occurrence of `pat` in `hay`, if any.
pub fn rfind(hay: &Vec<char>, pat: &Vec<char>) -> (res: Option<usize>)
    ensures
        match res {
            Some(i) => is_last_match(hay@, pat@, i as int),
            None => !contains_seq(hay@, pat@),
        },
{
    if pat.len() > hay.len() {
        return None;
    }
    let mut i: usize = hay.len() - pat.len();
    loop
        invariant
            pat.len() <= hay.len(),
            i <= hay.len() - pat.len(),
            forall|j: int| i < j ==> !matches_at(hay@, pat@, j),
        decreases i,
    {
        if matches_at_exec(hay, pat, i) {
            return Some(i);
        }
        if i == 0 {
            return None;
        }
        i = i - 1;
    }
}

} // verus!

verus! {

/// Calls `String::from_utf8`, which succeeds exactly on valid UTF-8 and then
/// holds the characters that the bytes encode; on failure it hands the bytes back.
#[verifier::external_body]
pub fn string_from_utf8(bytes: Vec<u8>) -> (res: Option<String>)
    ensures
        res is Some <==> vstd::utf8::valid_utf8(bytes@),
        res matches Some(s) ==> s@ == vstd::utf8::decode_utf8(bytes@),
{
    String::from_utf8(bytes).ok()
}

/// `a` followed by `b`, as a new string.
pub fn concat_str(a: &str, b: &str) -> (res: String)
    ensures
        res@ == a@ + b@,
{
    let mut out = String::from_str(a);
    out.append(b);
    out
}

} // verus!
