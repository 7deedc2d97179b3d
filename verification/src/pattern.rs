//! Compiled search patterns.
//!
//! A [`Pattern`] wraps a compiled regular expression together with the source
//! text it was compiled from. Case-insensitive matching (the default) is
//! obtained by prefixing the user's expression with the `(?i)` flag group,
//! which toggles case folding and nothing else; case-sensitive matching uses
//! the expression unchanged. What a regular expression matches is left
//! abstract: the names [`re_accepts`] and [`re_find_parts`] stand for the
//! matcher's answers, as functions of the pattern source and the haystack.

use crate::errors::FatalError;
use vstd::prelude::*;
use vstd::string::StringExecFns;

verus! {

#[verifier::external_type_specification]
#[verifier::external_body]
pub struct ExRegex(regex::Regex);

#[verifier::external_type_specification]
#[verifier::external_body]
pub struct ExRegexError(regex::Error);

/// The pattern source a compiled `regex::Regex` was built from.
pub uninterp spec fn re_source(r: regex::Regex) -> Seq<char>;

/// Whether a pattern string is a well-formed regular expression, i.e. whether
/// `regex::Regex::new` accepts it.
pub uninterp spec fn re_valid(pat: Seq<char>) -> bool;

/// Whether the regular expression `pat` matches anywhere in `text`.
pub uninterp spec fn re_accepts(pat: Seq<char>, text: Seq<char>) -> bool;

/// The split of `text` around the first (leftmost) match of `pat`: the text
/// before the match, the matched span, and the text after it. Meaningful only
/// when `re_accepts(pat, text)` holds.
pub uninterp spec fn re_find_parts(pat: Seq<char>, text: Seq<char>) -> (Seq<char>, Seq<char>, Seq<char>);

/// Relies on `regex::Regex::new`: it returns `Ok` exactly on well-formed
/// pattern strings, and the compiled regex keeps its source string (what
/// `Regex::as_str` returns).
#[verifier::external_body]
fn re_new(pat: &str) -> (r: Result<regex::Regex, regex::Error>)
    ensures
        r is Ok <==> re_valid(pat@),
        r matches Ok(re) ==> re_source(re) == pat@,
{
    regex::Regex::new(pat)
}

/// Relies on `regex::Regex::is_match`: true iff there is a match for the
/// regex anywhere in the haystack.
#[verifier::external_body]
fn re_is_match(re: &regex::Regex, text: &str) -> (r: bool)
    ensures
        r == re_accepts(re_source(*re), text@),
{
    re.is_match(text)
}

/// Relies on `regex::Regex::find`: it returns the first (leftmost) match as a
/// span of byte offsets into the haystack, and returns `Some` iff `is_match`
/// is true. The body converts the span into the text before it, the matched
/// text, and the text after it.
#[verifier::external_body]
fn re_find_split(re: &regex::Regex, text: &str) -> (r: Option<(String, String, String)>)
    ensures
        r is Some <==> re_accepts(re_source(*re), text@),
        r matches Some(p) ==> {
            &&& (p.0@, p.1@, p.2@) == re_find_parts(re_source(*re), text@)
            &&& p.0@ + p.1@ + p.2@ == text@
        },
{
    match re.find(text) {
        None => None,
        Some(m) => Some(
            (
                text[..m.start()].to_string(),
                m.as_str().to_string(),
                text[m.end()..].to_string(),
            ),
        ),
    }
}

/// The pattern source that is actually compiled: the raw expression itself in
/// case-sensitive mode, and the expression behind a `(?i)` case-folding flag
/// group otherwise. The mode changes this prefix and nothing else.
pub open spec fn effective_source(raw: Seq<char>, case_sensitive: bool) -> Seq<char> {
    if case_sensitive {
        raw
    } else {
        seq!['(', '?', 'i', ')'] + raw
    }
}

/// Case-insensitive mode only prefixes the `(?i)` flag group to the source
/// that case-sensitive mode compiles; the expression itself is unchanged.
pub proof fn lemma_case_mode_only_prefixes(raw: Seq<char>)
    ensures
        effective_source(raw, false) == seq!['(', '?', 'i', ')'] + effective_source(raw, true),
{
}

/// A compiled matcher, immutable for the whole run and usable from many scan
/// tasks at once.
pub struct Pattern {
    regex: regex::Regex,
}

impl Pattern {
    /// The pattern source this matcher was compiled from.
    pub closed spec fn source(self) -> Seq<char> {
        re_source(self.regex)
    }

    /// Compile a raw expression. In case-insensitive mode (the default of the
    /// tool) the expression is wrapped so that only case folding is toggled;
    /// compilation fails exactly on expressions that are not well-formed, and
    /// the failure is the fatal `InvalidPattern` error.
    pub fn new(raw: &str, case_sensitive: bool) -> (r: Result<Pattern, FatalError>)
        ensures
            r is Ok <==> re_valid(effective_source(raw@, case_sensitive)),
            r matches Ok(p) ==> p.source() == effective_source(raw@, case_sensitive),
            r matches Err(e) ==> e == FatalError::InvalidPattern,
    {
        let source: String = if case_sensitive {
            raw.to_owned()
        } else {
            proof {
                reveal_strlit("(?i)");
            }
            let prefixed = "(?i)".to_owned().concat(raw);
            proof {
                assert(prefixed@ =~= effective_source(raw@, false));
            }
            prefixed
        };
        match re_new(source.as_str()) {
            Ok(re) => Ok(Pattern { regex: re }),
            Err(_) => Err(FatalError::InvalidPattern),
        }
    }

    /// Whether this pattern matches anywhere in `text`.
    pub fn is_match(&self, text: &str) -> (r: bool)
        ensures
            r == re_accepts(self.source(), text@),
    {
        re_is_match(&self.regex, text)
    }

    /// The split of `text` around the first match of this pattern: the text
    /// before the match, the matched span, and the text after it. Returns
    /// `Some` exactly when the pattern matches.
    pub fn find_split(&self, text: &str) -> (r: Option<(String, String, String)>)
        ensures
            r is Some <==> re_accepts(self.source(), text@),
            r matches Some(p) ==> {
                &&& (p.0@, p.1@, p.2@) == re_find_parts(self.source(), text@)
                &&& p.0@ + p.1@ + p.2@ == text@
            },
    {
        re_find_split(&self.regex, text)
    }
}

} // verus!
