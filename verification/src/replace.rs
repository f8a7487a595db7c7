//! Replacement of every match of a pattern, with and without the merging of
//! repeated replacements.

use crate::engine::{
    compile, compiled, escape, escaped, expanded_replacement, replace_expanding, replace_verbatim,
    verbatim_replacement,
};
use crate::pattern::Pattern;
use crate::text::{literal_replaced, replace_literal};
use regex::Regex;
use vstd::prelude::*;
use vstd::std_specs::convert::IntoSpec;
use vstd::string::StringExecFns;

verus! {

/// `text` with every match of `pattern` replaced by `rep`, and nothing more.
pub open spec fn substituted(text: Seq<char>, pattern: Pattern<'_>, rep: Seq<char>) -> Seq<char> {
    match pattern {
        Pattern::Str(from) => literal_replaced(text, from@, rep),
        Pattern::Regex(re) => expanded_replacement(re, text, rep),
    }
}

/// The text of the expression that matches one copy of `rep` or several in
/// a row: `rep`, escaped, in a group that does not capture, once or more.
pub open spec fn run_source(rep: Seq<char>) -> Seq<char> {
    seq!['(', '?', ':'] + escaped(rep) + seq![')', '+']
}

/// What is left of `text` once `cleanup` has had its say: each of its
/// matches replaced by one `rep`, or `text` as it was where there is no
/// expression to match with.
pub open spec fn merged_by(cleanup: Option<Regex>, text: Seq<char>, rep: Seq<char>) -> Seq<char> {
    match cleanup {
        Some(re) => verbatim_replacement(re, text, rep),
        None => text,
    }
}

/// `text` with every run of copies of `rep` merged into one copy. The empty
/// `rep` has no runs, and `text` stays as it is.
pub open spec fn collapsed(text: Seq<char>, rep: Seq<char>) -> Seq<char> {
    if rep.len() == 0 {
        text
    } else {
        merged_by(compiled(run_source(rep)), text, rep)
    }
}

/// What `string_replace_all` returns for `input`, `pattern` and `rep`.
pub open spec fn replaced(input: Seq<char>, pattern: Pattern<'_>, rep: Seq<char>) -> Seq<char> {
    if input.len() == 0 {
        input
    } else {
        match pattern {
            Pattern::Str(from) => if from@ == rep || from@.len() == 0 {
                input
            } else {
                collapsed(literal_replaced(input, from@, rep), rep)
            },
            Pattern::Regex(re) => collapsed(expanded_replacement(re, input, rep), rep),
        }
    }
}

/// The text of the expression that matches a run of copies of `replacement`.
pub fn run_pattern(replacement: &str) -> (res: String)
    ensures
        res@ == run_source(replacement@),
{
    let quoted = escape(replacement);
    let mut source = String::from_str("(?:");
    source.append(quoted.as_str());
    source.append(")+");
    proof {
        reveal_strlit("(?:");
        reveal_strlit(")+");
    }
    source
}

/// Merges with the expression that the engine made of the run pattern, if
/// it made one: without one `text` comes back unchanged.
pub fn merge_with(cleanup: Option<Regex>, text: String, replacement: &str) -> (res: String)
    ensures
        res@ == merged_by(cleanup, text@, replacement@),
{
    match cleanup {
        Some(re) => replace_verbatim(&re, text.as_str(), replacement),
        None => text,
    }
}

/// Merges every run of copies of `replacement` in `text` into one copy.
pub fn collapse_runs(text: String, replacement: &str) -> (res: String)
    ensures
        res@ == collapsed(text@, replacement@),
{
    if replacement.is_empty() {
        return text;
    }
    let source = run_pattern(replacement);
    let cleanup = compile(source.as_str());
    merge_with(cleanup, text, replacement)
}

/// Replaces every match of `pattern` in `text` by `replacement` and does
/// nothing else: the empty literal is searched for like any other, and
/// repeated replacements stay as they come.
pub fn substitute(text: &str, pattern: Pattern<'_>, replacement: &str) -> (res: String)
    ensures
        res@ == substituted(text@, pattern, replacement@),
{
    match pattern {
        Pattern::Str(from) => replace_literal(text, from, replacement),
        Pattern::Regex(re) => replace_expanding(&re, text, replacement),
    }
}

/// Replaces every match of `pattern` in `input` by `replacement`, then
/// merges the runs of `replacement` in what came out.
///
/// The empty input gives the empty text, also where the expression matches
/// the empty text. A literal pattern that is empty or equal to
/// `replacement` gives the input back. Where the engine refuses the
/// expression for the runs, which it does only for a replacement too long
/// for its size limit, nothing is merged.
pub fn replace_and_merge(input: &str, pattern: Pattern<'_>, replacement: &str) -> (res: String)
    ensures
        res@ == replaced(input@, pattern, replacement@),
{
    if input.is_empty() {
        return input.to_owned();
    }
    if let Pattern::Str(from) = pattern {
        if *from == *replacement || from.is_empty() {
            return input.to_owned();
        }
    }
    let result = substitute(input, pattern, replacement);
    collapse_runs(result, replacement)
}

/// `replace_and_merge` for anything that turns into a pattern: a `&str` is
/// taken as a literal, a `&Regex` as the expression it holds.
pub fn string_replace_all<'a, P: Into<Pattern<'a>>>(
    input: &str,
    pattern: P,
    replacement: &str,
) -> (res: String)
    ensures
        P::obeys_into_spec() ==> res@ == replaced(input@, pattern.into_spec(), replacement@),
        input@.len() == 0 ==> res@.len() == 0,
{
    replace_and_merge(input, pattern.into(), replacement)
}

/// Texts that can have every match of a pattern replaced. Unlike
/// `string_replace_all`, the method replaces and does nothing else.
pub trait StringReplaceAll {
    /// The characters of the text.
    spec fn text(&self) -> Seq<char>;

    /// The text with every match of `pattern` replaced by `replacement`.
    fn replace_all<'a, P: Into<Pattern<'a>>>(&self, pattern: P, replacement: &str) -> (res: String)
        ensures
            P::obeys_into_spec() ==> res@ == substituted(
                self.text(),
                pattern.into_spec(),
                replacement@,
            ),
    ;
}

impl StringReplaceAll for String {
    open spec fn text(&self) -> Seq<char> {
        self@
    }

    fn replace_all<'a, P: Into<Pattern<'a>>>(&self, pattern: P, replacement: &str) -> (res: String) {
        substitute(self.as_str(), pattern.into(), replacement)
    }
}

impl StringReplaceAll for str {
    open spec fn text(&self) -> Seq<char> {
        self@
    }

    fn replace_all<'a, P: Into<Pattern<'a>>>(&self, pattern: P, replacement: &str) -> (res: String) {
        substitute(self, pattern.into(), replacement)
    }
}

/// Replacing a literal by itself changes nothing.
pub proof fn lemma_same_literal_keeps_input(input: Seq<char>, literal: &str)
    ensures
        replaced(input, Pattern::Str(literal), literal@) == input,
{
}

/// Replacing the empty literal changes nothing, whatever the replacement.
pub proof fn lemma_empty_literal_keeps_input(input: Seq<char>, literal: &str, rep: Seq<char>)
    requires
        literal@.len() == 0,
    ensures
        replaced(input, Pattern::Str(literal), rep) == input,
{
}

/// The empty input gives the empty text, whatever the pattern and the
/// replacement.
pub proof fn lemma_empty_input_stays_empty(pattern: Pattern<'_>, rep: Seq<char>)
    ensures
        replaced(Seq::<char>::empty(), pattern, rep) == Seq::<char>::empty(),
{
}

/// With the empty replacement the matches of a literal are deleted and
/// nothing is merged.
pub proof fn lemma_empty_replacement_deletes(input: Seq<char>, literal: &str)
    requires
        input.len() > 0,
        literal@.len() > 0,
    ensures
        replaced(input, Pattern::Str(literal), Seq::<char>::empty()) == literal_replaced(
            input,
            literal@,
            Seq::<char>::empty(),
        ),
{
}

/// Once a text has come out of a replacement by `rep`, replacing `rep` by
/// `rep` in it gives the same text again.
pub proof fn lemma_second_pass_changes_nothing(
    input: Seq<char>,
    pattern: Pattern<'_>,
    rep: &str,
)
    ensures
        replaced(replaced(input, pattern, rep@), Pattern::Str(rep), rep@) == replaced(
            input,
            pattern,
            rep@,
        ),
{
}

} // verus!
