//! The Whisper `initial_prompt` built from the user's vocabulary terms.
use vstd::prelude::*;
use crate::text::{append_chars, chars_of, str_eq, string_of, trim_chars, trim_spec};

verus! {

/// Terms trimmed, with the empty ones left out, in the order given.
pub open spec fn cleaned_terms(terms: Seq<Seq<char>>) -> Seq<Seq<char>>
    decreases terms.len(),
{
    if terms.len() == 0 {
        Seq::empty()
    } else {
        let rest = cleaned_terms(terms.drop_last());
        let t = trim_spec(terms.last());
        if t.len() > 0 {
            rest.push(t)
        } else {
            rest
        }
    }
}

/// `parts` joined with `sep` between consecutive parts.
pub open spec fn join_with(parts: Seq<Seq<char>>, sep: Seq<char>) -> Seq<char>
    decreases parts.len(),
{
    if parts.len() == 0 {
        Seq::empty()
    } else if parts.len() == 1 {
        parts[0]
    } else {
        join_with(parts.drop_last(), sep) + sep + parts.last()
    }
}

/// The prompt for `terms` in `language`: empty when no term is left after
/// trimming, else `"Termos: t1, t2."` for `"pt"` and `"Terms: t1, t2."`
/// otherwise.
pub open spec fn prompt_spec(terms: Seq<Seq<char>>, language: Seq<char>) -> Seq<char> {
    let cleaned = cleaned_terms(terms);
    if cleaned.len() == 0 {
        Seq::empty()
    } else {
        let head = if language == "pt"@ {
            "Termos"@
        } else {
            "Terms"@
        };
        head + ": "@ + join_with(cleaned, ", "@) + "."@
    }
}

pub open spec fn strings_view(v: Seq<String>) -> Seq<Seq<char>> {
    v.map_values(|t: String| t@)
}

/// Build the `initial_prompt` for the given vocabulary terms.
pub fn build_initial_prompt(terms: &[String], language: &str) -> (r: String)
    ensures
        r@ == prompt_spec(strings_view(terms@), language@),
{
    let ghost tv = strings_view(terms@);
    let mut cleaned: Vec<Vec<char>> = Vec::new();
    let mut i: usize = 0;
    while i < terms.len()
        invariant
            i <= terms@.len(),
            tv == strings_view(terms@),
            cleaned@.map_values(|v: Vec<char>| v@) == cleaned_terms(tv.take(i as int)),
        decreases terms@.len() - i,
    {
        let cs = chars_of(terms[i].as_str());
        let t = trim_chars(cs.as_slice());
        proof {
            assert(tv.take(i + 1).drop_last() =~= tv.take(i as int));
            assert(tv.take(i + 1).last() == terms@[i as int]@);
        }
        if t.len() > 0 {
            let ghost before = cleaned@;
            cleaned.push(t);
            assert(cleaned@.map_values(|v: Vec<char>| v@) =~= before.map_values(
                |v: Vec<char>| v@,
            ).push(t@));
        }
        i = i + 1;
    }
    assert(tv.take(terms@.len() as int) =~= tv);
    let ghost cv = cleaned@.map_values(|v: Vec<char>| v@);
    if cleaned.len() == 0 {
        return String::new();
    }
    let mut out: Vec<char> = if str_eq(language, "pt") {
        chars_of("Termos")
    } else {
        chars_of("Terms")
    };
    let colon = chars_of(": ");
    let comma = chars_of(", ");
    let dot = chars_of(".");
    append_chars(&mut out, colon.as_slice());
    let ghost head_part = out@;
    let mut j: usize = 0;
    while j < cleaned.len()
        invariant
            j <= cleaned@.len(),
            cv == cleaned@.map_values(|v: Vec<char>| v@),
            comma@ == ", "@,
            out@ == head_part + join_with(cv.take(j as int), ", "@),
        decreases cleaned@.len() - j,
    {
        let ghost before = out@;
        proof {
            assert(cv.take(j + 1).drop_last() =~= cv.take(j as int));
            assert(cv.take(j + 1).last() == cleaned@[j as int]@);
        }
        if j > 0 {
            append_chars(&mut out, comma.as_slice());
        }
        append_chars(&mut out, cleaned[j].as_slice());
        proof {
            if j == 0 {
                assert(cv.take(1)[0] == cleaned@[0]@);
                assert(join_with(cv.take(0), ", "@) =~= Seq::<char>::empty());
            }
        }
        assert(out@ =~= head_part + join_with(cv.take(j + 1), ", "@));
        j = j + 1;
    }
    assert(cv.take(cleaned@.len() as int) =~= cv);
    append_chars(&mut out, dot.as_slice());
    string_of(out.as_slice())
}

proof fn lemma_cleaned_insert_blank(terms: Seq<Seq<char>>, blank: Seq<char>, k: int)
    requires
        trim_spec(blank).len() == 0,
        0 <= k <= terms.len(),
    ensures
        cleaned_terms(terms.insert(k, blank)) == cleaned_terms(terms),
    decreases terms.len(),
{
    let t2 = terms.insert(k, blank);
    if k == terms.len() {
        assert(t2.drop_last() =~= terms);
    } else {
        assert(t2.drop_last() =~= terms.drop_last().insert(k, blank));
        assert(t2.last() == terms.last());
        lemma_cleaned_insert_blank(terms.drop_last(), blank, k);
    }
}

/// Blank terms are ignored: inserting one anywhere in the list leaves the
/// prompt unchanged.
pub proof fn lemma_blank_terms_ignored(
    terms: Seq<Seq<char>>,
    blank: Seq<char>,
    k: int,
    language: Seq<char>,
)
    requires
        trim_spec(blank).len() == 0,
        0 <= k <= terms.len(),
    ensures
        prompt_spec(terms.insert(k, blank), language) == prompt_spec(terms, language),
{
    lemma_cleaned_insert_blank(terms, blank, k);
}

/// With no usable term the prompt is empty, whatever the language.
pub proof fn lemma_no_terms_empty_prompt(language: Seq<char>)
    ensures
        prompt_spec(Seq::empty(), language) == Seq::<char>::empty(),
{
}

} // verus!
