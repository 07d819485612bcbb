//! Searching a text for the matches of a regular expression.

use crate::error::{DependencyBlameError, ErrorView};
use crate::text::{str_views, string_views};
use vstd::prelude::*;

verus! {

/// `regex::Regex`, a compiled regular expression.
#[verifier::external_type_specification]
#[verifier::external_body]
pub struct ExRegex(regex::Regex);

/// What searching `text` for `pattern` gives: one entry for each successive
/// non-overlapping match, holding for each capture group of the pattern
/// (group 0 is the whole match) the text it matched, or `None` where the
/// group took no part in the match. Where the pattern does not compile, the
/// compiler's message.
pub uninterp spec fn regex_matches(pattern: Seq<char>, text: Seq<char>) -> Result<
    Vec<Vec<Option<String>>>,
    String,
>;

/// What a compiled regular expression finds in `text`: what
/// `Regex::captures_iter` yields, each capture group of each match copied
/// out as a string.
pub uninterp spec fn matches_of(regex: regex::Regex, text: Seq<char>) -> Vec<Vec<Option<String>>>;

/// Trusted: compiles `pattern` with `regex::Regex::new`. What the compiled
/// expression finds in a text depends on the pattern and the text alone. A
/// failure carries the message of `regex::Error`; only compiling can fail,
/// so a pattern that does not compile gives that message on every text.
#[verifier::external_body]
fn compile_regex(pattern: &str) -> (r: Result<regex::Regex, String>)
    ensures
        match r {
            Ok(regex) => forall|text: Seq<char>| #[trigger]
                regex_matches(pattern@, text) == Ok::<Vec<Vec<Option<String>>>, String>(
                    matches_of(regex, text),
                ),
            Err(message) => forall|text: Seq<char>| #[trigger]
                regex_matches(pattern@, text) == Err::<Vec<Vec<Option<String>>>, String>(message),
        },
{
    regex::Regex::new(pattern).map_err(|e| e.to_string())
}

/// Trusted: collects what `Regex::captures_iter` yields on `text`, each
/// capture group of each match copied out as a string.
#[verifier::external_body]
fn search_regex(regex: &regex::Regex, text: &str) -> (r: Vec<Vec<Option<String>>>)
    ensures
        r == matches_of(*regex, text@),
{
    regex.captures_iter(text).map(
        |c| c.iter().map(|g| g.map(|m| m.as_str().to_string())).collect(),
    ).collect()
}

/// A pattern that compiled. It is compiled once and searched for in as
/// many texts as needed.
pub struct Pattern {
    regex: regex::Regex,
    pattern: Ghost<Seq<char>>,
}

impl Pattern {
    #[verifier::type_invariant]
    spec fn compiled(self) -> bool {
        forall|text: Seq<char>| #[trigger]
            regex_matches(self.pattern@, text) == Ok::<Vec<Vec<Option<String>>>, String>(
                matches_of(self.regex, text),
            )
    }

    /// The text of the pattern.
    pub closed spec fn source(self) -> Seq<char> {
        self.pattern@
    }

    /// Compiles a pattern, or fails with the compiler's message.
    pub fn compile(pattern: &str) -> (r: Result<Pattern, DependencyBlameError>)
        ensures
            match r {
                Ok(compiled) => compiled.source() == pattern@ && pattern_failure(pattern@) is None
                    && forall|text: Seq<char>| (#[trigger] regex_matches(pattern@, text)) is Ok,
                Err(e) => e@ == ErrorView::RegexError(e@->RegexError_0) && pattern_failure(pattern@)
                    == Some(e@->RegexError_0) && forall|text: Seq<char>|
                    (#[trigger] regex_matches(pattern@, text)) is Err && regex_matches(
                        pattern@,
                        text,
                    )->Err_0@ == e@->RegexError_0,
            },
    {
        match compile_regex(pattern) {
            Ok(regex) => {
                assert(regex_matches(pattern@, Seq::empty()) is Ok);
                Ok(Pattern { regex, pattern: Ghost(pattern@) })
            },
            Err(message) => {
                assert(regex_matches(pattern@, Seq::empty()) is Err);
                Err(DependencyBlameError::RegexError(message))
            },
        }
    }

    /// Searches a text for the pattern.
    pub fn search(&self, text: &str) -> (matches: Vec<Vec<Option<String>>>)
        ensures
            regex_matches(self.source(), text@) == Ok::<Vec<Vec<Option<String>>>, String>(
                matches,
            ),
    {
        proof {
            use_type_invariant(self);
        }
        search_regex(&self.regex, text)
    }
}

/// The message with which a pattern fails to compile, if it does. Only
/// compiling can fail, so the judgement is made on the empty text.
pub open spec fn pattern_failure(pattern: Seq<char>) -> Option<Seq<char>> {
    match regex_matches(pattern, Seq::empty()) {
        Err(message) => Some(message@),
        Ok(_) => None,
    }
}

/// The text that capture group `group` matched in one match, if the match
/// has such a group and it took part.
pub open spec fn group_text(groups: Seq<Option<String>>, group: int) -> Option<Seq<char>> {
    if 0 <= group < groups.len() {
        match groups[group] {
            Some(s) => Some(s@),
            None => None,
        }
    } else {
        None
    }
}

/// The texts that capture group `group` matched, over all matches in
/// order; matches in which the group took no part are left out.
pub open spec fn group_texts(matches: Seq<Vec<Option<String>>>, group: int) -> Seq<Seq<char>>
    decreases matches.len(),
{
    if matches.len() == 0 {
        Seq::empty()
    } else {
        let before = group_texts(matches.drop_last(), group);
        match group_text(matches.last()@, group) {
            Some(t) => before.push(t),
            None => before,
        }
    }
}

/// The text that capture group `group` matched in one match.
pub fn captured(groups: &Vec<Option<String>>, group: usize) -> (r: Option<&str>)
    ensures
        match r {
            Some(s) => group_text(groups@, group as int) == Some(s@),
            None => group_text(groups@, group as int) is None,
        },
{
    if group < groups.len() {
        match &groups[group] {
            Some(s) => Some(s.as_str()),
            None => None,
        }
    } else {
        None
    }
}

/// Collects what capture group `group` matched, over all matches in order.
pub fn captured_texts(matches: &Vec<Vec<Option<String>>>, group: usize) -> (r: Vec<String>)
    ensures
        string_views(r@) == group_texts(matches@, group as int),
{
    let mut r: Vec<String> = Vec::new();
    let mut i: usize = 0;
    while i < matches.len()
        invariant
            i <= matches.len(),
            string_views(r@) == group_texts(matches@.take(i as int), group as int),
        decreases matches.len() - i,
    {
        let ghost before = string_views(r@);
        proof {
            assert(matches@.take(i + 1).drop_last() =~= matches@.take(i as int));
        }
        match captured(&matches[i], group) {
            Some(s) => {
                let owned = s.to_owned();
                r.push(owned);
                assert(string_views(r@) =~= before.push(s@));
            },
            None => {},
        }
        i += 1;
    }
    assert(matches@.take(matches@.len() as int) =~= matches@);
    r
}

/// The message of the first pattern that does not compile, if any.
pub open spec fn first_failure(patterns: Seq<Seq<char>>, text: Seq<char>) -> Option<Seq<char>>
    decreases patterns.len(),
{
    if patterns.len() == 0 {
        None
    } else {
        match regex_matches(patterns[0], text) {
            Err(message) => Some(message@),
            Ok(_) => first_failure(patterns.drop_first(), text),
        }
    }
}

/// What the first capture group of each pattern matched in `text`: all
/// the matches of the first pattern in order, then those of the second,
/// and so on. A pattern that does not compile contributes nothing.
pub open spec fn all_captures(patterns: Seq<Seq<char>>, text: Seq<char>) -> Seq<Seq<char>>
    decreases patterns.len(),
{
    if patterns.len() == 0 {
        Seq::empty()
    } else {
        let before = all_captures(patterns.drop_last(), text);
        match regex_matches(patterns.last(), text) {
            Ok(matches) => before + group_texts(matches@, 1),
            Err(_) => before,
        }
    }
}

/// What searching `text` for each of the patterns gives: the failure of the
/// first pattern that does not compile, or else what the first capture
/// groups matched.
pub open spec fn captures_of(patterns: Seq<Seq<char>>, text: Seq<char>) -> Result<
    Seq<Seq<char>>,
    ErrorView,
> {
    match first_failure(patterns, text) {
        Some(message) => Err(ErrorView::RegexError(message)),
        None => Ok(all_captures(patterns, text)),
    }
}

/// No pattern before `n` fails, so the first failure is that of the rest.
pub proof fn lemma_first_failure_skip(patterns: Seq<Seq<char>>, text: Seq<char>, n: int)
    requires
        0 <= n <= patterns.len(),
        forall|k: int| 0 <= k < n ==> regex_matches(patterns[k], text) is Ok,
    ensures
        first_failure(patterns, text) == first_failure(
            patterns.subrange(n, patterns.len() as int),
            text,
        ),
    decreases n,
{
    if n == 0 {
        assert(patterns.subrange(0, patterns.len() as int) =~= patterns);
    } else {
        lemma_first_failure_skip(patterns.drop_first(), text, n - 1);
        assert(patterns.drop_first().subrange(n - 1, patterns.drop_first().len() as int)
            =~= patterns.subrange(n, patterns.len() as int));
    }
}

/// The outcome of a search, over views.
pub open spec fn captures_view(r: Result<Vec<String>, DependencyBlameError>) -> Result<
    Seq<Seq<char>>,
    ErrorView,
> {
    match r {
        Ok(found) => Ok(string_views(found@)),
        Err(e) => Err(e@),
    }
}

/// Searches `text` for each of the patterns and collects what their first
/// capture groups matched.
pub fn collect_captures(patterns: &Vec<&'static str>, text: &str) -> (r: Result<
    Vec<String>,
    DependencyBlameError,
>)
    ensures
        captures_view(r) == captures_of(str_views(patterns@), text@),
{
    let ghost sources = str_views(patterns@);
    let mut found: Vec<Vec<Vec<Option<String>>>> = Vec::new();
    let mut i: usize = 0;
    while i < patterns.len()
        invariant
            i <= patterns.len(),
            sources == str_views(patterns@),
            found@.len() == i,
            forall|k: int|
                0 <= k < i ==> regex_matches(sources[k], text@) == Ok::<
                    Vec<Vec<Option<String>>>,
                    String,
                >(#[trigger] found@[k]),
        decreases patterns.len() - i,
    {
        match Pattern::compile(patterns[i]) {
            Ok(compiled) => {
                found.push(compiled.search(text));
            },
            Err(e) => {
                proof {
                    assert(regex_matches(sources[i as int], text@) is Err);
                    assert(regex_matches(sources[i as int], text@)->Err_0@ == e@->RegexError_0);
                    assert forall|k: int| 0 <= k < i implies regex_matches(
                        sources[k],
                        text@,
                    ) is Ok by {
                        let _ = found@[k];
                    }
                    lemma_first_failure_skip(sources, text@, i as int);
                    assert(sources.subrange(i as int, sources.len() as int)[0]
                        == sources[i as int]);
                }
                return Err(e);
            },
        }
        i += 1;
    }
    proof {
        assert forall|k: int| 0 <= k < sources.len() implies regex_matches(
            sources[k],
            text@,
        ) is Ok by {
            let _ = found@[k];
        }
        lemma_first_failure_skip(sources, text@, sources.len() as int);
    }
    let mut all: Vec<String> = Vec::new();
    let mut j: usize = 0;
    while j < found.len()
        invariant
            j <= found.len(),
            found@.len() == sources.len(),
            forall|k: int|
                0 <= k < found@.len() ==> regex_matches(sources[k], text@) == Ok::<
                    Vec<Vec<Option<String>>>,
                    String,
                >(#[trigger] found@[k]),
            string_views(all@) == all_captures(sources.take(j as int), text@),
        decreases found.len() - j,
    {
        let ghost before = string_views(all@);
        let mut texts = captured_texts(&found[j], 1);
        let ghost added = string_views(texts@);
        proof {
            assert(sources.take(j + 1).drop_last() =~= sources.take(j as int));
            assert(sources.take(j + 1).last() == sources[j as int]);
        }
        all.append(&mut texts);
        assert(string_views(all@) =~= before + added);
        j += 1;
    }
    assert(sources.take(sources.len() as int) =~= sources);
    Ok(all)
}

/// What the first match gave for capture group `group`, if there is a
/// match and the group took part in it.
pub open spec fn first_group(matches: Seq<Vec<Option<String>>>, group: int) -> Option<Seq<char>> {
    if matches.len() > 0 {
        group_text(matches[0]@, group)
    } else {
        None
    }
}

/// What groups 1 and 2 of the first match gave, if there is a match and
/// both groups took part in it.
pub open spec fn first_pair(matches: Seq<Vec<Option<String>>>) -> Option<(Seq<char>, Seq<char>)> {
    match (first_group(matches, 1), first_group(matches, 2)) {
        (Some(a), Some(b)) => Some((a, b)),
        _ => None,
    }
}

/// What the first match gave for capture group `group`.
pub fn first_captured(matches: &Vec<Vec<Option<String>>>, group: usize) -> (r: Option<&str>)
    ensures
        match r {
            Some(s) => first_group(matches@, group as int) == Some(s@),
            None => first_group(matches@, group as int) is None,
        },
{
    if matches.len() > 0 {
        captured(&matches[0], group)
    } else {
        None
    }
}

} // verus!
