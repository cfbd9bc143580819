//! Character-level text helpers shared by the string-processing modules.
use vstd::prelude::*;

verus! {

/// `std`'s string equality on `str`.
#[verifier::external_body]
pub(crate) fn str_eq(a: &str, b: &str) -> (r: bool)
    ensures
        r == (a@ == b@),
{
    a == b
}

/// `String::push`.
#[verifier::external_body]
pub(crate) fn string_push(s: &mut String, c: char)
    ensures
        final(s)@ == old(s)@.push(c),
{
    s.push(c)
}

/// Unicode `White_Space`, the property `char::is_whitespace` tests.
pub open spec fn is_white_space(c: char) -> bool {
    let u = c as u32;
    ||| 0x09 <= u <= 0x0D
    ||| u == 0x20
    ||| u == 0x85
    ||| u == 0xA0
    ||| u == 0x1680
    ||| 0x2000 <= u <= 0x200A
    ||| u == 0x2028
    ||| u == 0x2029
    ||| u == 0x202F
    ||| u == 0x205F
    ||| u == 0x3000
}

/// Executable `is_white_space`.
pub fn is_whitespace(c: char) -> (r: bool)
    ensures
        r == is_white_space(c),
{
    let u = c as u32;
    (0x09 <= u && u <= 0x0D) || u == 0x20 || u == 0x85 || u == 0xA0 || u == 0x1680 || (0x2000
        <= u && u <= 0x200A) || u == 0x2028 || u == 0x2029 || u == 0x202F || u == 0x205F || u
        == 0x3000
}

/// The characters of `s`, in order.
pub fn chars_of(s: &str) -> (r: Vec<char>)
    ensures
        r@ == s@,
{
    let mut out: Vec<char> = Vec::new();
    for c in it: s.chars()
        invariant
            it.seq() == s@,
            out@ == it.seq().take(it.index()),
    {
        assert(it.seq().take(it.index() + 1) =~= out@.push(c));
        out.push(c);
    }
    out
}

/// A `String` holding exactly the given characters.
pub fn string_of(cs: &[char]) -> (r: String)
    ensures
        r@ == cs@,
{
    let mut s = String::new();
    let mut i: usize = 0;
    while i < cs.len()
        invariant
            i <= cs@.len(),
            s@ == cs@.take(i as int),
        decreases cs@.len() - i,
    {
        string_push(&mut s, cs[i]);
        assert(s@ =~= cs@.take(i + 1));
        i = i + 1;
    }
    assert(cs@.take(cs@.len() as int) =~= cs@);
    s
}

/// `s` with leading and trailing white space removed (`str::trim`).
pub open spec fn trim_spec(s: Seq<char>) -> Seq<char> {
    s.subrange(lead_ws(s) as int, s.len() - trail_ws(s))
}

/// Number of leading white-space characters.
pub open spec fn lead_ws(s: Seq<char>) -> nat
    decreases s.len(),
{
    if s.len() > 0 && is_white_space(s[0]) {
        1 + lead_ws(s.drop_first())
    } else {
        0
    }
}

/// Number of trailing white-space characters, not counting any that are
/// already leading (so trimming an all-white string gives the empty string).
pub open spec fn trail_ws(s: Seq<char>) -> nat {
    trail_ws_of(s.skip(lead_ws(s) as int))
}

pub open spec fn trail_ws_of(s: Seq<char>) -> nat
    decreases s.len(),
{
    if s.len() > 0 && is_white_space(s.last()) {
        1 + trail_ws_of(s.drop_last())
    } else {
        0
    }
}

proof fn lemma_lead_ws_bound(s: Seq<char>)
    ensures
        lead_ws(s) <= s.len(),
        forall|i: int| 0 <= i < lead_ws(s) ==> is_white_space(#[trigger] s[i]),
        lead_ws(s) < s.len() ==> !is_white_space(s[lead_ws(s) as int]),
    decreases s.len(),
{
    if s.len() > 0 && is_white_space(s[0]) {
        lemma_lead_ws_bound(s.drop_first());
        assert forall|i: int| 0 <= i < lead_ws(s) implies is_white_space(#[trigger] s[i]) by {
            if i > 0 {
                assert(s[i] == s.drop_first()[i - 1]);
            }
        }
    }
}

proof fn lemma_trail_ws_bound(s: Seq<char>)
    ensures
        trail_ws_of(s) <= s.len(),
        forall|i: int| s.len() - trail_ws_of(s) <= i < s.len() ==> is_white_space(#[trigger] s[i]),
        trail_ws_of(s) < s.len() ==> !is_white_space(s[s.len() - trail_ws_of(s) - 1]),
    decreases s.len(),
{
    if s.len() > 0 && is_white_space(s.last()) {
        lemma_trail_ws_bound(s.drop_last());
        assert forall|i: int| s.len() - trail_ws_of(s) <= i < s.len() implies is_white_space(
            #[trigger] s[i],
        ) by {
            if i < s.len() - 1 {
                assert(s[i] == s.drop_last()[i]);
            }
        }
    }
}

/// Trimming keeps a middle stretch that starts and ends with a non-white
/// character, and drops only white space.
pub proof fn lemma_trim_shape(s: Seq<char>)
    ensures
        lead_ws(s) + trail_ws(s) <= s.len(),
        trim_spec(s).len() > 0 ==> !is_white_space(trim_spec(s)[0]) && !is_white_space(
            trim_spec(s).last(),
        ),
        forall|i: int| 0 <= i < lead_ws(s) ==> is_white_space(#[trigger] s[i]),
        forall|i: int| s.len() - trail_ws(s) <= i < s.len() ==> is_white_space(#[trigger] s[i]),
{
    lemma_lead_ws_bound(s);
    let rest = s.skip(lead_ws(s) as int);
    lemma_trail_ws_bound(rest);
    assert forall|i: int| s.len() - trail_ws(s) <= i < s.len() implies is_white_space(
        #[trigger] s[i],
    ) by {
        assert(s[i] == rest[i - lead_ws(s)]);
    }
    if trim_spec(s).len() > 0 {
        assert(trim_spec(s)[0] == rest[0]);
        assert(trim_spec(s).last() == rest[rest.len() - trail_ws_of(rest) - 1]);
    }
}

/// `str::trim`, on characters.
pub fn trim_chars(s: &[char]) -> (r: Vec<char>)
    ensures
        r@ == trim_spec(s@),
{
    proof {
        lemma_lead_ws_bound(s@);
        lemma_trail_ws_bound(s@.skip(lead_ws(s@) as int));
    }
    let mut start: usize = 0;
    while start < s.len() && is_whitespace(s[start])
        invariant
            start <= s@.len(),
            start <= lead_ws(s@),
            forall|i: int| 0 <= i < start ==> is_white_space(#[trigger] s@[i]),
        decreases s@.len() - start,
    {
        proof {
            lemma_lead_ws_prefix(s@, start as nat);
        }
        start = start + 1;
    }
    proof {
        lemma_lead_ws_exact(s@, start as nat);
    }
    let ghost rest = s@.skip(start as int);
    let mut end: usize = s.len();
    while end > start && is_whitespace(s[end - 1])
        invariant
            start <= end <= s@.len(),
            rest == s@.skip(start as int),
            s@.len() - end <= trail_ws_of(rest),
        decreases end,
    {
        proof {
            lemma_trail_ws_suffix(rest, (s@.len() - end) as nat);
            assert(rest[rest.len() - (s@.len() - end) - 1] == s@[end - 1]);
        }
        end = end - 1;
    }
    proof {
        if end > start {
            assert(rest[rest.len() - (s@.len() - end) - 1] == s@[end - 1]);
        }
        lemma_trail_ws_exact(rest, (s@.len() - end) as nat);
    }
    let mut out: Vec<char> = Vec::new();
    let mut k: usize = start;
    while k < end
        invariant
            start <= k <= end <= s@.len(),
            out@ == s@.subrange(start as int, k as int),
        decreases end - k,
    {
        out.push(s[k]);
        assert(out@ =~= s@.subrange(start as int, k + 1));
        k = k + 1;
    }
    out
}

proof fn lemma_lead_ws_prefix(s: Seq<char>, n: nat)
    requires
        n < s.len(),
        n <= lead_ws(s),
        forall|i: int| 0 <= i < n ==> is_white_space(#[trigger] s[i]),
        is_white_space(s[n as int]),
    ensures
        n + 1 <= lead_ws(s),
    decreases n,
{
    if n > 0 {
        lemma_lead_ws_prefix(s.drop_first(), (n - 1) as nat);
    }
}

proof fn lemma_lead_ws_exact(s: Seq<char>, n: nat)
    requires
        n <= s.len(),
        n <= lead_ws(s),
        forall|i: int| 0 <= i < n ==> is_white_space(#[trigger] s[i]),
        n == s.len() || !is_white_space(s[n as int]),
    ensures
        lead_ws(s) == n,
    decreases n,
{
    lemma_lead_ws_bound(s);
    if n > 0 {
        lemma_lead_ws_exact(s.drop_first(), (n - 1) as nat);
    }
}

proof fn lemma_trail_ws_suffix(s: Seq<char>, n: nat)
    requires
        n < s.len(),
        n <= trail_ws_of(s),
        is_white_space(s[s.len() - n - 1]),
    ensures
        n + 1 <= trail_ws_of(s),
    decreases n,
{
    lemma_trail_ws_bound(s);
    if n > 0 {
        lemma_trail_ws_suffix(s.drop_last(), (n - 1) as nat);
    }
}

proof fn lemma_trail_ws_exact(s: Seq<char>, n: nat)
    requires
        n <= s.len(),
        n <= trail_ws_of(s),
        n == s.len() || !is_white_space(s[s.len() - n - 1]),
    ensures
        trail_ws_of(s) == n,
    decreases n,
{
    lemma_trail_ws_bound(s);
    if n > 0 {
        lemma_trail_ws_exact(s.drop_last(), (n - 1) as nat);
    }
}

/// An owned copy of `s`.
pub(crate) fn str_to_string(s: &str) -> (r: String)
    ensures
        r@ == s@,
{
    s.to_owned()
}

/// Append the characters of `s` to `out`.
pub fn append_chars(out: &mut Vec<char>, s: &[char])
    ensures
        final(out)@ == old(out)@ + s@,
{
    let ghost start = out@;
    let mut i: usize = 0;
    while i < s.len()
        invariant
            i <= s@.len(),
            out@ == start + s@.take(i as int),
        decreases s@.len() - i,
    {
        out.push(s[i]);
        assert(out@ =~= start + s@.take(i + 1));
        i = i + 1;
    }
    assert(s@.take(s@.len() as int) =~= s@);
}

/// `a` followed by `b`, as a new `String`.
pub fn concat_str(a: &str, b: &str) -> (r: String)
    ensures
        r@ == a@ + b@,
{
    let mut v = chars_of(a);
    let w = chars_of(b);
    append_chars(&mut v, w.as_slice());
    string_of(v.as_slice())
}

/// Whether `needle` occurs in `hay` at position `i`.
pub open spec fn occurs_at(hay: Seq<char>, needle: Seq<char>, i: int) -> bool {
    0 <= i && i + needle.len() <= hay.len() && hay.subrange(i, i + needle.len()) == needle
}

/// Whether `needle` occurs anywhere in `hay` (`str::contains`).
pub open spec fn contains_seq(hay: Seq<char>, needle: Seq<char>) -> bool {
    exists|i: int| occurs_at(hay, needle, i)
}

/// Executable `occurs_at`.
pub fn matches_at(hay: &[char], needle: &[char], i: usize) -> (r: bool)
    ensures
        r == occurs_at(hay@, needle@, i as int),
{
    if i > hay.len() || needle.len() > hay.len() - i {
        return false;
    }
    let mut k: usize = 0;
    while k < needle.len()
        invariant
            i + needle@.len() <= hay@.len(),
            hay@.len() <= usize::MAX,
            k <= needle@.len(),
            forall|j: int| 0 <= j < k ==> hay@[i + j] == needle@[j],
        decreases needle@.len() - k,
    {
        if hay[i + k] != needle[k] {
            assert(hay@.subrange(i as int, i + needle@.len())[k as int] != needle@[k as int]);
            return false;
        }
        k = k + 1;
    }
    assert(hay@.subrange(i as int, i + needle@.len()) =~= needle@);
    true
}

/// Executable `contains_seq`.
pub fn contains_chars(hay: &[char], needle: &[char]) -> (r: bool)
    ensures
        r == contains_seq(hay@, needle@),
{
    if needle.len() > hay.len() {
        return false;
    }
    if needle.len() == 0 {
        assert(hay@.subrange(0, 0) =~= needle@);
        assert(occurs_at(hay@, needle@, 0));
        return true;
    }
    let mut i: usize = 0;
    while i <= hay.len() - needle.len()
        invariant
            0 < needle@.len() <= hay@.len(),
            hay@.len() <= usize::MAX,
            i <= hay@.len() - needle@.len() + 1,
            forall|j: int| 0 <= j < i ==> !occurs_at(hay@, needle@, j),
        decreases hay@.len() - needle@.len() + 1 - i,
    {
        if matches_at(hay, needle, i) {
            return true;
        }
        i = i + 1;
    }
    assert forall|j: int| !occurs_at(hay@, needle@, j) by {
        if 0 <= j && j + needle@.len() <= hay@.len() {
            assert(j < i);
        }
    }
    false
}

/// `str::trim_end`: trailing white space removed.
pub open spec fn trim_end_spec(s: Seq<char>) -> Seq<char> {
    s.take(s.len() - trail_ws_of(s))
}

/// Remove trailing white space in place (`str::trim_end`).
pub fn trim_end_in_place(v: &mut Vec<char>)
    ensures
        final(v)@ == trim_end_spec(old(v)@),
{
    let ghost full = v@;
    proof {
        lemma_trail_ws_bound(full);
    }
    while v.len() > 0 && is_whitespace(v[v.len() - 1])
        invariant
            v@.len() <= full.len(),
            v@ == full.take(v@.len() as int),
            full.len() - v@.len() <= trail_ws_of(full),
        decreases v@.len(),
    {
        proof {
            lemma_trail_ws_suffix(full, (full.len() - v@.len()) as nat);
        }
        let ghost before = v@;
        v.pop();
        assert(v@ =~= full.take(v@.len() as int));
    }
    proof {
        if v@.len() > 0 {
            assert(full[v@.len() - 1] == v@[v@.len() - 1]);
        }
        lemma_trail_ws_exact(full, (full.len() - v@.len()) as nat);
    }
}

} // verus!
