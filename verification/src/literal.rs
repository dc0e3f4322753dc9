//! The text of a quoted string literal, and what stands between its quotes.

use crate::error::HashError;
use crate::error::HashErrorModel;
use crate::error::LiteralDefect;
use vstd::prelude::*;

verus! {

/// The first thing wrong with the text of a literal, if anything is: the
/// text must have at least three characters, and begin and end with a double
/// quote.
pub open spec fn literal_defect(text: Seq<char>) -> Option<LiteralDefect> {
    if text.len() < 3 {
        Some(LiteralDefect::TooShort)
    } else if text.first() != '"' {
        Some(LiteralDefect::NoOpeningQuote)
    } else if text.last() != '"' {
        Some(LiteralDefect::NoClosingQuote)
    } else {
        None
    }
}

/// What stands between the first and the last character of `text`.
pub open spec fn quoted_content(text: Seq<char>) -> Seq<char>
    recommends
        text.len() >= 2,
{
    text.subrange(1, text.len() - 1)
}

/// The outcome of validating the text of a literal: its content without the
/// quotes, or the error that echoes the text.
pub open spec fn validated(text: Seq<char>) -> Result<Seq<char>, HashErrorModel> {
    match literal_defect(text) {
        Some(defect) => Err(HashErrorModel::InvalidLiteralFormat { text, defect }),
        None => Ok(quoted_content(text)),
    }
}

/// Checks that `text` is a quoted string of at least one character and
/// returns the part between the quotes.
pub fn validate_literal<'a>(text: &'a str) -> (result: Result<&'a str, HashError>)
    ensures
        match result {
            Ok(content) => validated(text@) == Ok::<Seq<char>, HashErrorModel>(content@),
            Err(error) => validated(text@) == Err::<Seq<char>, HashErrorModel>(error@),
        },
{
    let len = text.unicode_len();
    if len < 3 {
        return Err(
            HashError::InvalidLiteralFormat {
                text: String::from_str(text),
                defect: LiteralDefect::TooShort,
            },
        );
    }
    if text.get_char(0) != '"' {
        return Err(
            HashError::InvalidLiteralFormat {
                text: String::from_str(text),
                defect: LiteralDefect::NoOpeningQuote,
            },
        );
    }
    if text.get_char(len - 1) != '"' {
        return Err(
            HashError::InvalidLiteralFormat {
                text: String::from_str(text),
                defect: LiteralDefect::NoClosingQuote,
            },
        );
    }
    Ok(text.substring_char(1, len - 1))
}

/// A text of fewer than three characters is refused as too short, whatever
/// its characters are.
pub proof fn lemma_short_text_refused(text: Seq<char>)
    requires
        text.len() < 3,
    ensures
        validated(text) == Err::<Seq<char>, HashErrorModel>(
            HashErrorModel::InvalidLiteralFormat { text, defect: LiteralDefect::TooShort },
        ),
{
}

/// A text is accepted exactly when it has at least three characters and
/// both its first and its last character are double quotes; the content then
/// has two characters fewer than the text.
pub proof fn lemma_accepted_texts(text: Seq<char>)
    ensures
        validated(text) is Ok <==> text.len() >= 3 && text.first() == '"' && text.last() == '"',
        validated(text) is Ok ==> validated(text)->Ok_0.len() == text.len() - 2,
        validated(text) is Ok ==> text == seq!['"'] + validated(text)->Ok_0 + seq!['"'],
{
}

} // verus!
