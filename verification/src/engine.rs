//! What this library takes on trust from the `regex` crate.
//!
//! Nothing in this file is proved. Each item says, above its contract, which
//! function of the crate it stands for and what it claims of it.

use regex::NoExpand;
use regex::Regex;
use vstd::prelude::*;

verus! {

/// A compiled regular expression of the `regex` crate. Nothing is known of
/// what it holds: contracts speak of it only through the names below.
#[verifier::external_type_specification]
#[verifier::external_body]
pub struct ExRegex(regex::Regex);

/// What `Regex::new` makes of the pattern text `source`: the compiled
/// expression, or `None` where the crate refuses the pattern, because its
/// syntax is wrong or because it would compile to more than the crate's
/// default size limit.
pub uninterp spec fn compiled(source: Seq<char>) -> Option<Regex>;

/// What `Regex::replace_all` returns for a replacement given as a string:
/// `haystack` with every match of `re`, the leftmost first and none
/// overlapping another, replaced by `rep`, in which `$name` and `${name}`
/// stand for what the capture group of that name or number matched.
pub uninterp spec fn expanded_replacement(re: Regex, haystack: Seq<char>, rep: Seq<char>) -> Seq<
    char,
>;

/// What `Regex::replace_all` returns for a replacement given as `NoExpand`:
/// `haystack` with every match of `re`, the leftmost first and none
/// overlapping another, replaced by `rep` as it stands.
pub uninterp spec fn verbatim_replacement(re: Regex, haystack: Seq<char>, rep: Seq<char>) -> Seq<
    char,
>;

/// The characters that `regex_syntax::is_meta_character` answers `true` for.
pub open spec fn is_meta(c: char) -> bool {
    ||| c == '\\'
    ||| c == '.'
    ||| c == '+'
    ||| c == '*'
    ||| c == '?'
    ||| c == '('
    ||| c == ')'
    ||| c == '|'
    ||| c == '['
    ||| c == ']'
    ||| c == '{'
    ||| c == '}'
    ||| c == '^'
    ||| c == '$'
    ||| c == '#'
    ||| c == '&'
    ||| c == '-'
    ||| c == '~'
}

/// `text` with a backslash put before each of its meta characters.
pub open spec fn escaped(text: Seq<char>) -> Seq<char>
    decreases text.len(),
{
    if text.len() == 0 {
        text
    } else if is_meta(text[0]) {
        seq!['\\', text[0]] + escaped(text.skip(1))
    } else {
        seq![text[0]] + escaped(text.skip(1))
    }
}

/// `regex::escape`, which hands the text to `regex_syntax::escape`: that
/// function walks the characters in order and copies each one, after a
/// backslash where `is_meta_character` holds of it.
#[verifier::external_body]
pub(crate) fn escape(text: &str) -> (res: String)
    ensures
        res@ == escaped(text@),
{
    regex::escape(text)
}

/// `Regex::new`, with its error dropped. The outcome depends on the pattern
/// text alone: the builder behind it starts from fixed defaults.
#[verifier::external_body]
pub(crate) fn compile(source: &str) -> (res: Option<Regex>)
    ensures
        res == compiled(source@),
{
    Regex::new(source).ok()
}

/// `Regex::replace_all` with the replacement as a string, so that the crate
/// expands the references to capture groups in it.
#[verifier::external_body]
pub(crate) fn replace_expanding(re: &Regex, haystack: &str, rep: &str) -> (res: String)
    ensures
        res@ == expanded_replacement(*re, haystack@, rep@),
{
    re.replace_all(haystack, rep).into_owned()
}

/// `Regex::replace_all` with the replacement wrapped in `NoExpand`, so that
/// the crate copies it unread.
#[verifier::external_body]
pub(crate) fn replace_verbatim(re: &Regex, haystack: &str, rep: &str) -> (res: String)
    ensures
        res@ == verbatim_replacement(*re, haystack@, rep@),
{
    re.replace_all(haystack, NoExpand(rep)).into_owned()
}

/// `Clone::clone` of `Regex`, which the crate derives: the copy shares the
/// compiled program with the expression it was made from, so that every
/// search with it gives what the same search gives with the other.
#[verifier::external_body]
pub(crate) fn duplicate(re: &Regex) -> (res: Regex)
    ensures
        res == *re,
{
    re.clone()
}

} // verus!
