//! Keep-or-drop decision on a transcription.
//!
//! The score checks (no-speech probability, average log-probability and RMS
//! energy against their thresholds) reach the filter as their outcomes; the
//! text is normalised (lowercased, accents folded, white space collapsed)
//! and searched for known hallucinated phrases.
use vstd::prelude::*;
use crate::text::{
    chars_of, contains_chars, contains_seq, is_white_space, is_whitespace, occurs_at, str_to_string,
    trail_ws_of, trim_end_in_place, trim_end_spec,
};

verus! {

/// `str::to_lowercase`'s result on the characters of its argument (Unicode
/// case mapping).
pub uninterp spec fn spec_to_lowercase(s: Seq<char>) -> Seq<char>;

/// `str::to_lowercase`.
#[verifier::external_body]
fn str_to_lowercase(s: &str) -> (r: String)
    ensures
        r@ == spec_to_lowercase(s@),
{
    s.to_lowercase()
}

/// Number of hallucinated phrases.
pub const BLOCKLIST_LEN: usize = 6;

/// Phrases (lowercase, accent-free) whose presence drops a transcription.
pub open spec fn blocklist_spec() -> Seq<Seq<char>> {
    seq![
        "obrigado por assistir"@,
        "legendas pela comunidade amara.org"@,
        "thanks for watching"@,
        "thank you for watching"@,
        "subtitles by"@,
        "subscribe to my channel"@,
    ]
}

/// The blocklist's `i`-th phrase.
pub fn blocklist_entry(i: usize) -> (r: &'static str)
    requires
        i < BLOCKLIST_LEN,
    ensures
        r@ == blocklist_spec()[i as int],
{
    match i {
        0 => "obrigado por assistir",
        1 => "legendas pela comunidade amara.org",
        2 => "thanks for watching",
        3 => "thank you for watching",
        4 => "subtitles by",
        _ => "subscribe to my channel",
    }
}

/// Accent folding of the characters that occur in the blocklist's language.
pub open spec fn fold_char(c: char) -> char {
    if c == 'á' || c == 'à' || c == 'â' || c == 'ã' || c == 'ä' {
        'a'
    } else if c == 'é' || c == 'è' || c == 'ê' || c == 'ë' {
        'e'
    } else if c == 'í' || c == 'ì' || c == 'î' || c == 'ï' {
        'i'
    } else if c == 'ó' || c == 'ò' || c == 'ô' || c == 'õ' || c == 'ö' {
        'o'
    } else if c == 'ú' || c == 'ù' || c == 'û' || c == 'ü' {
        'u'
    } else if c == 'ç' {
        'c'
    } else {
        c
    }
}

fn fold(c: char) -> (r: char)
    ensures
        r == fold_char(c),
{
    match c {
        'á' | 'à' | 'â' | 'ã' | 'ä' => 'a',
        'é' | 'è' | 'ê' | 'ë' => 'e',
        'í' | 'ì' | 'î' | 'ï' => 'i',
        'ó' | 'ò' | 'ô' | 'õ' | 'ö' => 'o',
        'ú' | 'ù' | 'û' | 'ü' => 'u',
        'ç' => 'c',
        other => other,
    }
}

/// Folded characters with every run of white space turned into one space
/// and leading white space dropped; the flag tells whether the output ends
/// in such a space (or is still empty).
pub open spec fn collapse(s: Seq<char>) -> (Seq<char>, bool)
    decreases s.len(),
{
    if s.len() == 0 {
        (Seq::empty(), true)
    } else {
        let prev = collapse(s.drop_last());
        let c = fold_char(s.last());
        if is_white_space(c) {
            if !prev.1 {
                (prev.0.push(' '), true)
            } else {
                prev
            }
        } else {
            (prev.0.push(c), false)
        }
    }
}

/// Lowercased, accents folded, white space collapsed and trimmed.
pub open spec fn normalize_spec(s: Seq<char>) -> Seq<char> {
    trim_end_spec(collapse(spec_to_lowercase(s)).0)
}

/// Index of the first blocklist phrase from `i` on that occurs in `n`.
pub open spec fn first_blocked(n: Seq<char>, i: nat) -> Option<nat>
    decreases BLOCKLIST_LEN - i,
{
    if i >= BLOCKLIST_LEN {
        None
    } else if contains_seq(n, blocklist_spec()[i as int]) {
        Some(i)
    } else {
        first_blocked(n, i + 1)
    }
}

/// Normalise an already lowercased text: fold accents, collapse white
/// space and trim it.
pub fn normalize_lowercased(lowered: &str) -> (r: Vec<char>)
    ensures
        r@ == trim_end_spec(collapse(lowered@).0),
        non_white(r@) == non_white(folded(lowered@)),
        forall|i: int| 0 <= i < r@.len() && is_white_space(#[trigger] r@[i]) ==> r@[i] == ' ',
{
    let cs = chars_of(lowered);
    let mut out: Vec<char> = Vec::new();
    let mut last_was_space = true;
    let mut i: usize = 0;
    while i < cs.len()
        invariant
            i <= cs@.len(),
            (out@, last_was_space) == collapse(cs@.take(i as int)),
        decreases cs@.len() - i,
    {
        proof {
            assert(cs@.take(i + 1).drop_last() =~= cs@.take(i as int));
            assert(cs@.take(i + 1).last() == cs@[i as int]);
        }
        let folded = fold(cs[i]);
        if is_whitespace(folded) {
            if !last_was_space {
                out.push(' ');
                last_was_space = true;
            }
        } else {
            out.push(folded);
            last_was_space = false;
        }
        i = i + 1;
    }
    assert(cs@.take(cs@.len() as int) =~= cs@);
    trim_end_in_place(&mut out);
    proof {
        lemma_normalize_keeps_words(lowered@);
    }
    out
}

fn normalize(s: &str) -> (r: Vec<char>)
    ensures
        r@ == normalize_spec(s@),
{
    let lowered = str_to_lowercase(s);
    normalize_lowercased(lowered.as_str())
}

/// The filter's input: the text and the outcome of each score check.
#[derive(Debug, Clone)]
pub struct Input<'a> {
    pub text: &'a str,
    /// `no_speech_prob` is above its maximum.
    pub no_speech_too_high: bool,
    /// `avg_logprob` is below its minimum.
    pub avg_logprob_too_low: bool,
    /// `rms_dbfs` is below its minimum.
    pub rms_too_low: bool,
}

#[derive(Debug, Clone, PartialEq, Eq)]
pub enum DropReason {
    Empty,
    /// The blocklist phrase that matched.
    Blocklist(String),
    NoSpeech,
    LowLogprob,
    LowEnergy,
}

#[derive(Debug, Clone, PartialEq, Eq)]
pub enum Decision {
    Keep,
    Drop(DropReason),
}

/// `r` drops the text for containing `phrase`.
pub open spec fn is_blocklist_drop(r: Decision, phrase: Seq<char>) -> bool {
    match r {
        Decision::Drop(DropReason::Blocklist(p)) => p@ == phrase,
        _ => false,
    }
}

/// The filter's decision on a normalised text `n` and the score checks'
/// outcomes.
pub open spec fn decision_spec(
    n: Seq<char>,
    no_speech_too_high: bool,
    avg_logprob_too_low: bool,
    rms_too_low: bool,
    r: Decision,
) -> bool {
    &&& n.len() == 0 ==> r == Decision::Drop(DropReason::Empty)
    &&& n.len() > 0 && first_blocked(n, 0) is Some ==> is_blocklist_drop(
        r,
        blocklist_spec()[first_blocked(n, 0)->0 as int],
    )
    &&& n.len() > 0 && first_blocked(n, 0) is None ==> r == (if no_speech_too_high {
        Decision::Drop(DropReason::NoSpeech)
    } else if avg_logprob_too_low {
        Decision::Drop(DropReason::LowLogprob)
    } else if rms_too_low {
        Decision::Drop(DropReason::LowEnergy)
    } else {
        Decision::Keep
    })
}

/// Decide on a normalised text: an empty text first, then the blocklist
/// (first phrase wins), then the no-speech, log-probability and energy
/// checks in turn.
pub fn evaluate_normalized(
    normalized: &[char],
    no_speech_too_high: bool,
    avg_logprob_too_low: bool,
    rms_too_low: bool,
) -> (r: Decision)
    ensures
        decision_spec(normalized@, no_speech_too_high, avg_logprob_too_low, rms_too_low, r),
{
    if normalized.len() == 0 {
        return Decision::Drop(DropReason::Empty);
    }
    let ghost n = normalized@;
    let mut i: usize = 0;
    while i < BLOCKLIST_LEN
        invariant
            n == normalized@,
            n.len() > 0,
            i <= BLOCKLIST_LEN,
            first_blocked(n, 0) == first_blocked(n, i as nat),
        decreases BLOCKLIST_LEN - i,
    {
        let entry = blocklist_entry(i);
        let ec = chars_of(entry);
        if contains_chars(normalized, ec.as_slice()) {
            assert(first_blocked(n, i as nat) == Some(i as nat));
            let phrase = str_to_string(entry);
            assert(phrase@ == blocklist_spec()[i as int]);
            return Decision::Drop(DropReason::Blocklist(phrase));
        }
        i = i + 1;
    }
    if no_speech_too_high {
        return Decision::Drop(DropReason::NoSpeech);
    }
    if avg_logprob_too_low {
        return Decision::Drop(DropReason::LowLogprob);
    }
    if rms_too_low {
        return Decision::Drop(DropReason::LowEnergy);
    }
    Decision::Keep
}

/// Apply the filter to a transcription: normalise its text (lowercase,
/// then `normalize_lowercased`) and decide as `evaluate_normalized` does.
pub fn evaluate(input: &Input) -> (r: Decision)
    ensures
        decision_spec(
            normalize_spec(input.text@),
            input.no_speech_too_high,
            input.avg_logprob_too_low,
            input.rms_too_low,
            r,
        ),
{
    let normalized = normalize(input.text);
    evaluate_normalized(
        normalized.as_slice(),
        input.no_speech_too_high,
        input.avg_logprob_too_low,
        input.rms_too_low,
    )
}

/// Normalised text never starts or ends with white space and never holds two
/// white-space characters in a row; the only white space left is `' '`.
pub proof fn lemma_collapse_shape(s: Seq<char>)
    ensures
        ({
            let (o, l) = collapse(s);
            &&& o.len() > 0 ==> !is_white_space(o[0])
            &&& (o.len() == 0 ==> l)
            &&& (o.len() > 0 ==> (l <==> is_white_space(o.last())))
            &&& forall|i: int| 0 <= i < o.len() && is_white_space(o[i]) ==> o[i] == ' '
            &&& forall|i: int|
                0 <= i < o.len() - 1 && is_white_space(#[trigger] o[i]) ==> !is_white_space(
                    o[i + 1],
                )
        }),
    decreases s.len(),
{
    if s.len() > 0 {
        lemma_collapse_shape(s.drop_last());
        let prev = collapse(s.drop_last());
        let o = collapse(s).0;
        assert forall|i: int| 0 <= i < prev.0.len() implies o[i] == prev.0[i] by {}
    }
}

} // verus!

verus! {

/// The characters of `s` that are not white space, in order.
pub open spec fn non_white(s: Seq<char>) -> Seq<char>
    decreases s.len(),
{
    if s.len() == 0 {
        Seq::empty()
    } else if is_white_space(s.last()) {
        non_white(s.drop_last())
    } else {
        non_white(s.drop_last()).push(s.last())
    }
}

/// Every character of `s` put through `fold_char`.
pub open spec fn folded(s: Seq<char>) -> Seq<char> {
    s.map_values(|c: char| fold_char(c))
}

proof fn lemma_collapse_keeps_words(s: Seq<char>)
    ensures
        non_white(collapse(s).0) == non_white(folded(s)),
    decreases s.len(),
{
    if s.len() > 0 {
        lemma_collapse_keeps_words(s.drop_last());
        let prev = collapse(s.drop_last());
        let f = folded(s);
        assert(f.drop_last() =~= folded(s.drop_last()));
        assert(f.last() == fold_char(s.last()));
        assert(prev.0.push(' ').drop_last() =~= prev.0);
        assert(prev.0.push(fold_char(s.last())).drop_last() =~= prev.0);
        assert(is_white_space(' '));
    }
}

proof fn lemma_trim_end_keeps_words(s: Seq<char>)
    ensures
        non_white(trim_end_spec(s)) == non_white(s),
        trail_ws_of(s) <= s.len(),
    decreases s.len(),
{
    if s.len() > 0 && is_white_space(s.last()) {
        lemma_trim_end_keeps_words(s.drop_last());
        let t = trail_ws_of(s.drop_last());
        assert(trail_ws_of(s) == 1 + t);
        assert(trim_end_spec(s) =~= trim_end_spec(s.drop_last()));
    } else {
        assert(trim_end_spec(s) =~= s);
    }
}

/// Normalising an already lowercased text only folds accents and collapses
/// white space: with white space removed, the result is the folded text with
/// white space removed (no other character is dropped or turned into a
/// space), and the only white space left in it is `' '`.
pub proof fn lemma_normalize_keeps_words(lowered: Seq<char>)
    ensures
        non_white(trim_end_spec(collapse(lowered).0)) == non_white(folded(lowered)),
        forall|i: int|
            0 <= i < trim_end_spec(collapse(lowered).0).len() && is_white_space(
                #[trigger] trim_end_spec(collapse(lowered).0)[i],
            ) ==> trim_end_spec(collapse(lowered).0)[i] == ' ',
{
    lemma_collapse_keeps_words(lowered);
    let o = collapse(lowered).0;
    lemma_trim_end_keeps_words(o);
    lemma_collapse_shape(lowered);
    let t = trim_end_spec(o);
    assert forall|i: int| 0 <= i < t.len() && is_white_space(#[trigger] t[i]) implies t[i]
        == ' ' by {
        assert(t[i] == o[i]);
    }
}

} // verus!

verus! {

/// Folding leaves each character alone, white space is only `' '`, the text
/// neither starts nor ends with white space and has no two in a row.
pub open spec fn plain_text(s: Seq<char>) -> bool {
    &&& tidy_prefix(s)
    &&& s.len() > 0 ==> !is_white_space(s.last())
}

/// `plain_text` but for the last character.
pub open spec fn tidy_prefix(s: Seq<char>) -> bool {
    &&& forall|i: int| 0 <= i < s.len() ==> fold_char(#[trigger] s[i]) == s[i]
    &&& forall|i: int| 0 <= i < s.len() && is_white_space(#[trigger] s[i]) ==> s[i] == ' '
    &&& s.len() > 0 ==> !is_white_space(s[0])
    &&& forall|i: int|
        0 <= i < s.len() - 1 && is_white_space(#[trigger] s[i]) ==> !is_white_space(s[i + 1])
}

proof fn lemma_collapse_tidy(s: Seq<char>)
    requires
        tidy_prefix(s),
    ensures
        collapse(s) == (s, s.len() == 0 || is_white_space(s.last())),
    decreases s.len(),
{
    if s.len() > 0 {
        let d = s.drop_last();
        assert(tidy_prefix(d)) by {
            assert forall|i: int| 0 <= i < d.len() - 1 && is_white_space(#[trigger] d[i]) implies !is_white_space(d[i + 1]) by {
                assert(s[i] == d[i] && s[i + 1] == d[i + 1]);
            }
            assert forall|i: int| 0 <= i < d.len() implies fold_char(#[trigger] d[i]) == d[i] by {
                assert(s[i] == d[i]);
            }
            assert forall|i: int| 0 <= i < d.len() && is_white_space(#[trigger] d[i]) implies d[i] == ' ' by {
                assert(s[i] == d[i]);
            }
        }
        lemma_collapse_tidy(d);
        assert(fold_char(s[s.len() - 1]) == s.last());
        if is_white_space(s.last()) {
            assert(s.len() >= 2);
            assert(!is_white_space(s[s.len() - 2]));
            assert(d.last() == s[s.len() - 2]);
            assert(s.last() == ' ');
        }
        assert(d.push(s.last()) =~= s);
    }
}

/// A plain text is its own normal form.
proof fn lemma_plain_normalized(s: Seq<char>)
    requires
        plain_text(s),
    ensures
        trim_end_spec(collapse(s).0) == s,
{
    lemma_collapse_tidy(s);
    if s.len() > 0 {
        assert(trail_ws_of(s) == 0);
    }
    assert(s.take(s.len() as int) =~= s);
}

proof fn lemma_blocklist_plain(i: int)
    requires
        0 <= i < BLOCKLIST_LEN,
    ensures
        plain_text(blocklist_spec()[i]),
{
    reveal_strlit("obrigado por assistir");
    reveal_strlit("legendas pela comunidade amara.org");
    reveal_strlit("thanks for watching");
    reveal_strlit("thank you for watching");
    reveal_strlit("subtitles by");
    reveal_strlit("subscribe to my channel");
    if i == 0 {
        assert(plain_text("obrigado por assistir"@));
    } else if i == 1 {
        assert(plain_text("legendas pela comunidade amara.org"@));
    } else if i == 2 {
        assert(plain_text("thanks for watching"@));
    } else if i == 3 {
        assert(plain_text("thank you for watching"@));
    } else if i == 4 {
        assert(plain_text("subtitles by"@));
    } else {
        assert(plain_text("subscribe to my channel"@));
    }
}

proof fn lemma_absent_char(h: Seq<char>, n: Seq<char>, m: int)
    requires
        0 <= m < n.len(),
        forall|p: int| 0 <= p < h.len() ==> h[p] != n[m],
    ensures
        !contains_seq(h, n),
{
    if contains_seq(h, n) {
        let k = choose|k: int| occurs_at(h, n, k);
        assert(h.subrange(k, k + n.len())[m] == h[k + m]);
    }
}

proof fn lemma_absent_pair(h: Seq<char>, n: Seq<char>, m: int)
    requires
        0 <= m < n.len() - 1,
        forall|p: int| 0 <= p < h.len() - 1 ==> !(#[trigger] h[p] == n[m] && h[p + 1] == n[m + 1]),
    ensures
        !contains_seq(h, n),
{
    if contains_seq(h, n) {
        let k = choose|k: int| occurs_at(h, n, k);
        assert(h.subrange(k, k + n.len())[m] == h[k + m]);
        assert(h.subrange(k, k + n.len())[m + 1] == h[k + m + 1]);
    }
}

/// No blocklist phrase occurs in a later one.
proof fn lemma_blocklist_distinct(i: int, j: int)
    requires
        0 <= j < i < BLOCKLIST_LEN,
    ensures
        !contains_seq(blocklist_spec()[i], blocklist_spec()[j]),
{
    reveal_strlit("obrigado por assistir");
    reveal_strlit("legendas pela comunidade amara.org");
    reveal_strlit("thanks for watching");
    reveal_strlit("thank you for watching");
    reveal_strlit("subtitles by");
    reveal_strlit("subscribe to my channel");
    let h = blocklist_spec()[i];
    let n = blocklist_spec()[j];
    if n.len() > h.len() {
        assert(!contains_seq(h, n));
    } else if j == 0 && (i == 1 || i == 3) {
        assert(n[1] == 'b');
        assert(forall|p: int| 0 <= p < h.len() ==> h[p] != 'b');
        lemma_absent_char(h, n, 1);
    } else if j == 2 && i == 3 {
        assert(n[5] == 's');
        assert(forall|p: int| 0 <= p < h.len() ==> h[p] != 's');
        lemma_absent_char(h, n, 5);
    } else if j == 0 {
        assert(i == 5);
        assert(n[4] == 'g');
        assert(forall|p: int| 0 <= p < h.len() ==> h[p] != 'g');
        lemma_absent_char(h, n, 4);
    } else if j == 2 {
        assert(i == 5);
        assert(n[11] == 'w');
        assert(forall|p: int| 0 <= p < h.len() ==> h[p] != 'w');
        lemma_absent_char(h, n, 11);
    } else if j == 3 {
        assert(i == 5);
        assert(n[4] == 'k');
        assert(forall|p: int| 0 <= p < h.len() ==> h[p] != 'k');
        lemma_absent_char(h, n, 4);
    } else {
        assert(j == 4 && i == 5);
        assert(n[2] == 'b' && n[3] == 't');
        assert(forall|p: int| 0 <= p < h.len() - 1 ==> !(#[trigger] h[p] == 'b' && h[p + 1] == 't'));
        lemma_absent_pair(h, n, 2);
    }
}

proof fn lemma_first_blocked_self(i: int, k: int)
    requires
        0 <= k <= i < BLOCKLIST_LEN,
    ensures
        first_blocked(blocklist_spec()[i], k as nat) == Some(i as nat),
    decreases i - k,
{
    let n = blocklist_spec()[i];
    if k < i {
        lemma_blocklist_distinct(i, k);
        lemma_first_blocked_self(i, k + 1);
    } else {
        assert(n.subrange(0, n.len() as int) =~= n);
        assert(occurs_at(n, n, 0));
    }
}

/// A text that, once lowercased, is exactly one of the blocklist phrases
/// normalises to that phrase and is dropped for that phrase, whatever the
/// score checks say.
pub proof fn lemma_blocklist_phrase_dropped(
    i: int,
    lowered: Seq<char>,
    no_speech_too_high: bool,
    avg_logprob_too_low: bool,
    rms_too_low: bool,
    r: Decision,
)
    requires
        0 <= i < BLOCKLIST_LEN,
        lowered == blocklist_spec()[i],
        decision_spec(
            trim_end_spec(collapse(lowered).0),
            no_speech_too_high,
            avg_logprob_too_low,
            rms_too_low,
            r,
        ),
    ensures
        trim_end_spec(collapse(lowered).0) == lowered,
        is_blocklist_drop(r, lowered),
{
    lemma_blocklist_plain(i);
    lemma_plain_normalized(lowered);
    lemma_first_blocked_self(i, 0);
    reveal_strlit("obrigado por assistir");
    reveal_strlit("legendas pela comunidade amara.org");
    reveal_strlit("thanks for watching");
    reveal_strlit("thank you for watching");
    reveal_strlit("subtitles by");
    reveal_strlit("subscribe to my channel");
    assert(lowered.len() > 0);
}

} // verus!
