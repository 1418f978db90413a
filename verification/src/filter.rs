//! Regex-based topic filtering.
//!
//! A filter holds an optional inclusion pattern and an optional exclusion
//! pattern, both compiled once when the session starts. A topic passes when
//! the inclusion pattern (if any) matches it and the exclusion pattern (if any)
//! does not. A malformed pattern is reported at construction; it is a fatal
//! startup error, never a per-message one.

use vstd::prelude::*;

verus! {

/// The pattern a compiled regex was built from.
pub uninterp spec fn regex_pattern(re: regex::Regex) -> Seq<char>;

/// Whether a pattern is a well-formed regular expression; a function of the
/// pattern alone.
pub uninterp spec fn regex_valid(pattern: Seq<char>) -> bool;

/// Whether a pattern matches somewhere in a text; a function of the pattern
/// and the text alone.
pub uninterp spec fn regex_match(pattern: Seq<char>, text: Seq<char>) -> bool;

#[verifier::external_type_specification]
#[verifier::external_body]
pub struct ExRegex(regex::Regex);

/// Relies on `regex::Regex::new`: compilation succeeds exactly on
/// well-formed patterns, and the compiled value carries the pattern it was
/// built from.
#[verifier::external_body]
fn regex_new(pattern: &str) -> (r: Option<regex::Regex>)
    ensures
        r is Some <==> regex_valid(pattern@),
        r matches Some(re) ==> regex_pattern(re) == pattern@,
{
    regex::Regex::new(pattern).ok()
}

/// Relies on `regex::Regex::is_match`: the outcome depends on the compiled
/// pattern and the text alone.
#[verifier::external_body]
fn regex_is_match(re: &regex::Regex, text: &str) -> (r: bool)
    ensures
        r == regex_match(regex_pattern(*re), text@),
{
    re.is_match(text)
}

/// The pattern whose compilation failed.
#[derive(Clone, Copy, Debug, PartialEq, Eq, Structural)]
pub enum FilterError {
    InvalidInclude,
    InvalidExclude,
}

impl FilterError {
    /// A short diagnostic for the failed pattern.
    pub fn message(&self) -> (r: &'static str)
        ensures
            *self is InvalidInclude ==> r@ == "invalid inclusion pattern"@,
            *self is InvalidExclude ==> r@ == "invalid exclusion pattern"@,
    {
        match self {
            FilterError::InvalidInclude => "invalid inclusion pattern",
            FilterError::InvalidExclude => "invalid exclusion pattern",
        }
    }
}

/// Whether a topic passes a filter given as optional inclusion and exclusion
/// patterns: an inclusion pattern that does not match rejects, then an exclusion
/// pattern that matches rejects, anything else passes.
pub open spec fn spec_passes(
    topic: Seq<char>,
    inclusion: Option<Seq<char>>,
    exclusion: Option<Seq<char>>,
) -> bool {
    &&& (inclusion matches Some(p) ==> regex_match(p, topic))
    &&& !(exclusion matches Some(p) && regex_match(p, topic))
}

/// An immutable pair of optional compiled inclusion and exclusion patterns.
pub struct TopicFilter {
    inclusion: Option<regex::Regex>,
    exclusion: Option<regex::Regex>,
}

impl TopicFilter {
    /// The inclusion pattern, as compiled.
    pub closed spec fn inclusion_pattern(&self) -> Option<Seq<char>> {
        match self.inclusion {
            Some(re) => Some(regex_pattern(re)),
            None => None,
        }
    }

    /// The exclusion pattern, as compiled.
    pub closed spec fn exclusion_pattern(&self) -> Option<Seq<char>> {
        match self.exclusion {
            Some(re) => Some(regex_pattern(re)),
            None => None,
        }
    }

    /// Compiles a filter from optional inclusion and exclusion patterns. Both
    /// compile exactly when well-formed; the first malformed one is the
    /// error.
    pub fn new(inclusion: Option<&str>, exclusion: Option<&str>) -> (r: Result<TopicFilter, FilterError>)
        ensures
            r matches Ok(f) ==> {
                &&& match inclusion {
                    Some(p) => f.inclusion_pattern() == Some(p@) && regex_valid(p@),
                    None => f.inclusion_pattern() is None,
                }
                &&& match exclusion {
                    Some(p) => f.exclusion_pattern() == Some(p@) && regex_valid(p@),
                    None => f.exclusion_pattern() is None,
                }
            },
            r is Ok <==> {
                &&& (inclusion matches Some(p) ==> regex_valid(p@))
                &&& (exclusion matches Some(p) ==> regex_valid(p@))
            },
            r matches Err(e) ==> {
                if inclusion matches Some(p) && !regex_valid(p@) {
                    e is InvalidInclude
                } else {
                    e is InvalidExclude
                }
            },
    {
        let inclusion_re = match inclusion {
            Some(p) => match regex_new(p) {
                Some(re) => Some(re),
                None => {
                    return Err(FilterError::InvalidInclude);
                },
            },
            None => None,
        };
        let exclusion_re = match exclusion {
            Some(p) => match regex_new(p) {
                Some(re) => Some(re),
                None => {
                    return Err(FilterError::InvalidExclude);
                },
            },
            None => None,
        };
        Ok(TopicFilter { inclusion: inclusion_re, exclusion: exclusion_re })
    }

    /// Decides whether a topic's events are shown.
    pub fn passes(&self, topic: &str) -> (r: bool)
        ensures
            r == spec_passes(topic@, self.inclusion_pattern(), self.exclusion_pattern()),
    {
        if let Some(re) = &self.inclusion {
            if !regex_is_match(re, topic) {
                return false;
            }
        }
        if let Some(re) = &self.exclusion {
            if regex_is_match(re, topic) {
                return false;
            }
        }
        true
    }
}

/// Law: a filter with neither an inclusion nor an exclusion pattern passes every
/// topic.
pub proof fn lemma_empty_filter_passes_all(topic: Seq<char>)
    ensures
        spec_passes(topic, None, None),
{
}

} // verus!
