use vstd::prelude::*;
use regex::Regex;
use crate::error::{outcome, ConfigError, ErrorModel};

verus! {

/// `regex::Regex`, a compiled expression. It is carried as it is: nothing is
/// known of it but what the functions below name.
#[verifier::external_type_specification]
#[verifier::external_body]
pub struct ExRegex(regex::Regex);

/// `regex::Error`, the reason why a text was refused as a pattern.
#[verifier::external_type_specification]
#[verifier::external_body]
pub struct ExRegexError(regex::Error);

/// What `Regex::new` returns for a pattern text: the compiled expression, or
/// the error with which the text is refused.
pub uninterp spec fn regex_new(text: Seq<char>) -> Result<Regex, regex::Error>;

/// Whether a compiled expression finds a match anywhere in an input: what
/// `Regex::is_match` returns.
pub uninterp spec fn regex_is_match(re: Regex, input: Seq<char>) -> bool;

/// The message of a compilation error: what its `to_string` returns.
pub uninterp spec fn regex_error_text(e: regex::Error) -> Seq<char>;

/// `Clone::clone` of `regex::Regex`. A clone of a compiled expression is that
/// expression: it was built from the same text and matches the same inputs.
pub assume_specification[ <regex::Regex as Clone>::clone ](re: &Regex) -> (c: Regex)
    ensures
        c == *re,
;

/// Calls `Regex::new`, which goes by the text alone: by its syntax, and by
/// the size limit that the crate sets by default. Nothing is claimed of the
/// outcome beyond its name.
#[verifier::external_body]
fn compile(text: &str) -> (r: Result<Regex, regex::Error>)
    ensures
        r == regex_new(text@),
{
    Regex::new(text)
}

/// Calls `Regex::is_match`, which searches the whole input and never
/// panics. Nothing is claimed of the answer beyond its name.
#[verifier::external_body]
fn is_match(re: &Regex, input: &str) -> (b: bool)
    ensures
        b == regex_is_match(*re, input@),
{
    re.is_match(input)
}

/// Renders a `regex::Error` through its `Display` impl.
#[verifier::external_body]
fn error_text(e: &regex::Error) -> (s: String)
    ensures
        s@ == regex_error_text(*e),
{
    e.to_string()
}

/// Whether a text compiles as a pattern.
pub open spec fn pattern_is_valid(text: Seq<char>) -> bool {
    regex_new(text) is Ok
}

/// Why a text that is no valid pattern is refused.
pub open spec fn pattern_fault(text: Seq<char>) -> Seq<char> {
    regex_error_text(regex_new(text)->Err_0)
}

/// Whether the pattern written as `text` matches `input`. Meaningful for
/// valid patterns only.
pub open spec fn pattern_matches(text: Seq<char>, input: Seq<char>) -> bool {
    regex_is_match(regex_new(text)->Ok_0, input)
}

/// The error that reports `text` as an invalid pattern of the field
/// `field_name`.
pub open spec fn invalid_pattern(field_name: Seq<char>, text: Seq<char>) -> ErrorModel {
    ErrorModel::InvalidPattern { field_name, text, reason: pattern_fault(text), rule_index: None }
}

/// What a written pattern decodes to: itself where it is valid, and
/// otherwise the error that names the field, the text and the reason.
pub open spec fn decode_pattern_text(field_name: Seq<char>, text: Seq<char>) -> Result<
    Seq<char>,
    ErrorModel,
> {
    if pattern_is_valid(text) {
        Ok(text)
    } else {
        Err(invalid_pattern(field_name, text))
    }
}

/// A matching constraint: a pattern as it was written, together with its
/// compiled form.
///
/// The compiled form is always the one that the written text compiles to, so
/// a pattern field that failed to compile does not exist. Its model is the
/// written text.
#[derive(Debug)]
pub struct PatternField {
    source_text: String,
    compiled: Regex,
}

impl View for PatternField {
    type V = Seq<char>;

    closed spec fn view(&self) -> Seq<char> {
        self.source_text@
    }
}

impl DeepView for PatternField {
    type V = Seq<char>;

    open spec fn deep_view(&self) -> Seq<char> {
        self@
    }
}

impl Clone for PatternField {
    fn clone(&self) -> (c: Self)
        ensures
            c@ == self@,
    {
        proof {
            use_type_invariant(self);
        }
        PatternField { source_text: self.source_text.clone(), compiled: self.compiled.clone() }
    }
}

impl PatternField {
    #[verifier::type_invariant]
    spec fn compiled_from_source(self) -> bool {
        regex_new(self.source_text@) == Ok::<Regex, regex::Error>(self.compiled)
    }

    /// Compiles `text` as the pattern of the field `field_name`.
    ///
    /// Succeeds exactly on valid patterns and keeps the text as written.
    /// Otherwise the error names the field, the text and the reason.
    pub fn parse(field_name: &str, text: &str) -> (r: Result<PatternField, ConfigError>)
        ensures
            outcome(r) == decode_pattern_text(field_name@, text@),
    {
        match compile(text) {
            Ok(compiled) => Ok(PatternField { source_text: text.to_owned(), compiled }),
            Err(fault) => Err(
                ConfigError::InvalidPattern {
                    field_name: field_name.to_owned(),
                    text: text.to_owned(),
                    reason: error_text(&fault),
                    rule_index: None,
                },
            ),
        }
    }

    /// The pattern exactly as it was written, which is a valid pattern.
    pub fn to_text(&self) -> (s: String)
        ensures
            s@ == self@,
            pattern_is_valid(self@),
    {
        proof {
            use_type_invariant(self);
        }
        self.source_text.clone()
    }

    /// Whether the pattern matches `input`: somewhere in it, unless the
    /// pattern anchors itself, and with regard to letter case, unless the
    /// pattern says otherwise.
    pub fn matches(&self, input: &str) -> (b: bool)
        ensures
            b == pattern_matches(self@, input@),
    {
        proof {
            use_type_invariant(self);
        }
        is_match(&self.compiled, input)
    }
}

} // verus!
