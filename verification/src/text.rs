//! Literal substitution on texts, seen as sequences of characters.

use vstd::prelude::*;
use vstd::string::StringExecFns;

verus! {

/// `needle` stands in `text` at position `at`.
pub open spec fn occurs_at(text: Seq<char>, needle: Seq<char>, at: int) -> bool {
    &&& 0 <= at
    &&& at + needle.len() <= text.len()
    &&& text.subrange(at, at + needle.len()) == needle
}

/// `text` with `filler` put in behind each of its characters.
pub open spec fn followed_each(text: Seq<char>, filler: Seq<char>) -> Seq<char>
    decreases text.len(),
{
    if text.len() == 0 {
        text
    } else {
        seq![text[0]] + filler + followed_each(text.skip(1), filler)
    }
}

/// `text` with every occurrence of `from` replaced by `to`. The occurrences
/// are taken from left to right and do not overlap: the search goes on
/// behind the occurrence just replaced. The empty `from` occurs once before
/// the first character and once behind each character.
pub open spec fn literal_replaced(text: Seq<char>, from: Seq<char>, to: Seq<char>) -> Seq<char>
    decreases text.len(),
{
    if from.len() == 0 {
        to + followed_each(text, to)
    } else if text.len() == 0 {
        text
    } else if occurs_at(text, from, 0) {
        to + literal_replaced(text.skip(from.len() as int), from, to)
    } else {
        seq![text[0]] + literal_replaced(text.skip(1), from, to)
    }
}

/// `String::push`, of which std says that it appends the character to the
/// end of the string.
pub assume_specification[ String::push ](s: &mut String, ch: char)
    ensures
        final(s)@ == old(s)@.push(ch),
;

/// `==` on `str`, of which std says that it compares the two texts.
pub assume_specification[ <str as PartialEq>::eq ](a: &str, b: &str) -> (res: bool)
    ensures
        res == (a@ == b@),
;

/// The characters of `s`, one by one.
pub fn chars_of(s: &str) -> (res: Vec<char>)
    ensures
        res@ == s@,
{
    let mut out: Vec<char> = Vec::new();
    for c in it: s.chars()
        invariant
            it.seq() == s@,
            out@ == it.seq().take(it.index()),
    {
        out.push(c);
    }
    out
}

/// Whether `needle` stands in `text` at position `at`.
pub fn found_at(text: &Vec<char>, needle: &Vec<char>, at: usize) -> (res: bool)
    ensures
        res == occurs_at(text@, needle@, at as int),
{
    if needle.len() > text.len() || at > text.len() - needle.len() {
        return false;
    }
    let mut k: usize = 0;
    while k < needle.len()
        invariant
            at + needle.len() <= text.len(),
            k <= needle.len(),
            text@.subrange(at as int, at + k) == needle@.take(k as int),
        decreases needle.len() - k,
    {
        if text[at + k] != needle[k] {
            proof {
                let window = text@.subrange(at as int, at + needle.len());
                assert(window[k as int] == text@[at + k]);
            }
            return false;
        }
        proof {
            assert(text@.subrange(at as int, at + k + 1) == text@.subrange(at as int, at + k).push(
                text@[at + k],
            ));
            assert(needle@.take(k + 1) == needle@.take(k as int).push(needle@[k as int]));
        }
        k += 1;
    }
    proof {
        assert(needle@.take(needle.len() as int) == needle@);
    }
    true
}

/// `text` with every occurrence of `from` replaced by `to`.
pub fn replace_literal(text: &str, from: &str, to: &str) -> (res: String)
    ensures
        res@ == literal_replaced(text@, from@, to@),
{
    let hay = chars_of(text);
    let needle = chars_of(from);
    let mut out = String::new();
    let mut i: usize = 0;
    proof {
        assert(hay@.skip(0) == hay@);
    }
    if needle.len() == 0 {
        out.append(to);
        proof {
            assert(out@ == to@);
        }
        while i < hay.len()
            invariant
                i <= hay.len(),
                out@ + followed_each(hay@.skip(i as int), to@) == to@ + followed_each(hay@, to@),
            decreases hay.len() - i,
        {
            let ghost rest = hay@.skip(i as int);
            let ghost before = out@;
            out.push(hay[i]);
            out.append(to);
            proof {
                assert(rest.skip(1) == hay@.skip(i + 1));
                assert(out@ + followed_each(rest.skip(1), to@) == before + followed_each(rest, to@));
            }
            i += 1;
        }
        proof {
            assert(out@ + followed_each(hay@.skip(i as int), to@) == out@);
        }
        return out;
    }
    proof {
        assert(out@ + literal_replaced(hay@, needle@, to@) == literal_replaced(hay@, needle@, to@));
    }
    while i < hay.len()
        invariant
            i <= hay.len(),
            needle@.len() > 0,
            out@ + literal_replaced(hay@.skip(i as int), needle@, to@) == literal_replaced(
                hay@,
                needle@,
                to@,
            ),
        decreases hay.len() - i,
    {
        let ghost rest = hay@.skip(i as int);
        let ghost before = out@;
        proof {
            if i + needle@.len() <= hay@.len() {
                assert(rest.subrange(0, needle@.len() as int) == hay@.subrange(
                    i as int,
                    i + needle@.len(),
                ));
            }
        }
        if found_at(&hay, &needle, i) {
            out.append(to);
            proof {
                assert(rest.skip(needle@.len() as int) == hay@.skip(i + needle@.len()));
                assert(out@ + literal_replaced(rest.skip(needle@.len() as int), needle@, to@)
                    == before + literal_replaced(rest, needle@, to@));
            }
            i += needle.len();
        } else {
            out.push(hay[i]);
            proof {
                assert(rest.skip(1) == hay@.skip(i + 1));
                assert(out@ + literal_replaced(rest.skip(1), needle@, to@) == before
                    + literal_replaced(rest, needle@, to@));
            }
            i += 1;
        }
    }
    proof {
        assert(out@ + literal_replaced(hay@.skip(i as int), needle@, to@) == out@);
    }
    out
}

/// Replacing a literal by itself gives the text back.
pub proof fn lemma_replaced_by_itself(text: Seq<char>, literal: Seq<char>)
    requires
        literal.len() > 0,
    ensures
        literal_replaced(text, literal, literal) == text,
    decreases text.len(),
{
    if text.len() == 0 {
    } else if occurs_at(text, literal, 0) {
        let rest = text.skip(literal.len() as int);
        lemma_replaced_by_itself(rest, literal);
        assert(text.subrange(0, literal.len() as int) + rest == text);
    } else {
        lemma_replaced_by_itself(text.skip(1), literal);
        assert(seq![text[0]] + text.skip(1) == text);
    }
}

/// A text in which the literal stands nowhere comes back as it is.
pub proof fn lemma_absent_literal_keeps_text(text: Seq<char>, from: Seq<char>, to: Seq<char>)
    requires
        from.len() > 0,
        forall|at: int| !occurs_at(text, from, at),
    ensures
        literal_replaced(text, from, to) == text,
    decreases text.len(),
{
    if text.len() > 0 {
        let rest = text.skip(1);
        assert forall|at: int| !occurs_at(rest, from, at) by {
            if occurs_at(rest, from, at) {
                assert(rest.subrange(at, at + from.len()) == text.subrange(
                    at + 1,
                    at + 1 + from.len(),
                ));
                assert(occurs_at(text, from, at + 1));
            }
        }
        lemma_absent_literal_keeps_text(rest, from, to);
        assert(seq![text[0]] + rest == text);
    }
}

} // verus!
