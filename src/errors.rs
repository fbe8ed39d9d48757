//! The errors the library reports.

use vstd::prelude::*;

verus! {

#[verifier::external_type_specification]
#[verifier::external_body]
pub struct ExIoError(std::io::Error);

#[verifier::external_type_specification]
#[verifier::external_body]
pub struct ExJsonError(serde_json::Error);

/// What can go wrong while loading patterns and building matchers.
#[derive(Debug)]
pub enum BotDetectorError {
    /// The pattern source could not be read.
    Io(std::io::Error),
    /// The pattern source is not a JSON array of strings.
    JsonParse(serde_json::Error),
    /// A pattern, or the alternation of all patterns, is not a valid regular
    /// expression.
    RegexCompile(pcre2::Error),
    /// There are no patterns to combine into one matcher.
    EmptyPatternSet,
}

/// Relies on `String::push_str`: the text is appended.
pub assume_specification[ String::push_str ](s: &mut String, string: &str)
    ensures
        final(s)@ == old(s)@ + string@,
;

impl BotDetectorError {
    /// The fixed start of the message for this kind of error.
    pub open spec fn message_prefix(&self) -> Seq<char> {
        match self {
            BotDetectorError::Io(_) => "IO error: "@,
            BotDetectorError::JsonParse(_) => "JSON Parse error: "@,
            BotDetectorError::RegexCompile(_) => "Regex compilation error: "@,
            BotDetectorError::EmptyPatternSet => "Pattern list is empty"@,
        }
    }

    /// A human-readable message: the kind of error, followed by the text of the
    /// underlying error where there is one.
    pub fn error_message(&self) -> (r: String)
        ensures
            self.message_prefix().is_prefix_of(r@),
            self is EmptyPatternSet ==> r@ == self.message_prefix(),
    {
        let (prefix, detail) = match self {
            BotDetectorError::Io(e) => ("IO error: ", e.to_string()),
            BotDetectorError::JsonParse(e) => ("JSON Parse error: ", e.to_string()),
            BotDetectorError::RegexCompile(e) => ("Regex compilation error: ", e.to_string()),
            BotDetectorError::EmptyPatternSet => ("Pattern list is empty", String::new()),
        };
        let mut r = prefix.to_owned();
        r.push_str(detail.as_str());
        proof {
            assert(r@.subrange(0, prefix@.len() as int) =~= prefix@);
        }
        r
    }
}

} // verus!
