//! The ways in which an invocation can fail, and the words for each.

use vstd::prelude::*;

verus! {

/// What is wrong with the text of a literal that is no quoted string.
#[derive(Debug, Clone, Copy, PartialEq, Eq, Structural)]
pub enum LiteralDefect {
    /// The text has fewer than three characters.
    TooShort,
    /// The first character is not a double quote.
    NoOpeningQuote,
    /// The last character is not a double quote.
    NoClosingQuote,
}

/// A token that stands where a literal was required.
#[derive(Debug, PartialEq, Eq)]
pub enum UnexpectedToken {
    /// An identifier, by its name.
    Ident(String),
    /// A punctuation character.
    Punct(char),
}

/// Why an invocation was refused.
#[derive(Debug, PartialEq, Eq)]
pub enum HashError {
    /// The stream holds no token.
    MissingArgument,
    /// The stream holds more than the one token.
    TooManyArguments,
    /// The literal is no quoted string; `text` is the literal as it was
    /// given.
    InvalidLiteralFormat { text: String, defect: LiteralDefect },
    /// An identifier or a punctuation character stands in place of the
    /// literal.
    UnexpectedTokenKind(UnexpectedToken),
}

/// The mathematical value of an [`UnexpectedToken`].
pub enum UnexpectedTokenModel {
    Ident(Seq<char>),
    Punct(char),
}

/// The mathematical value of a [`HashError`].
pub enum HashErrorModel {
    MissingArgument,
    TooManyArguments,
    InvalidLiteralFormat { text: Seq<char>, defect: LiteralDefect },
    UnexpectedTokenKind(UnexpectedTokenModel),
}

impl View for UnexpectedToken {
    type V = UnexpectedTokenModel;

    open spec fn view(&self) -> UnexpectedTokenModel {
        match self {
            UnexpectedToken::Ident(name) => UnexpectedTokenModel::Ident(name@),
            UnexpectedToken::Punct(c) => UnexpectedTokenModel::Punct(*c),
        }
    }
}

impl View for HashError {
    type V = HashErrorModel;

    open spec fn view(&self) -> HashErrorModel {
        match self {
            HashError::MissingArgument => HashErrorModel::MissingArgument,
            HashError::TooManyArguments => HashErrorModel::TooManyArguments,
            HashError::InvalidLiteralFormat { text, defect } => HashErrorModel::InvalidLiteralFormat {
                text: text@,
                defect: *defect,
            },
            HashError::UnexpectedTokenKind(token) => HashErrorModel::UnexpectedTokenKind(token@),
        }
    }
}

/// The words that every diagnostic message begins with.
pub open spec fn message_lead() -> Seq<char> {
    "`string_hash` macro takes one non-empty quoted string literal argument - "@
}

impl LiteralDefect {
    /// The words that follow the echoed literal in a message.
    pub open spec fn complaint(self) -> Seq<char> {
        match self {
            LiteralDefect::TooShort => "` was provided"@,
            LiteralDefect::NoOpeningQuote => "` does not start with a quote"@,
            LiteralDefect::NoClosingQuote => "` does not end with a quote"@,
        }
    }
}

impl HashErrorModel {
    /// The diagnostic message of an error: the common lead, then what was
    /// found, with the offending text between backquotes.
    pub open spec fn message(self) -> Seq<char> {
        message_lead() + match self {
            HashErrorModel::MissingArgument => "none were provided"@,
            HashErrorModel::TooManyArguments => "multiple were provided"@,
            HashErrorModel::InvalidLiteralFormat { text, defect } => "`"@ + text
                + defect.complaint(),
            HashErrorModel::UnexpectedTokenKind(UnexpectedTokenModel::Ident(name)) => "ident `"@
                + name + "` was provided"@,
            HashErrorModel::UnexpectedTokenKind(UnexpectedTokenModel::Punct(c)) => "punct `"@
                + seq![c] + "` was provided"@,
        }
    }
}

/// Appends `c` to `text` through `String::push`.
///
/// Trusted: the string afterwards is the string before with the one
/// character at its end.
#[verifier::external_body]
fn push_char(text: &mut String, c: char)
    ensures
        final(text)@ == old(text)@.push(c),
{
    text.push(c)
}

impl HashError {
    /// The diagnostic message of this error.
    pub fn message(&self) -> (message: String)
        ensures
            message@ == self@.message(),
    {
        let mut message = String::from_str(
            "`string_hash` macro takes one non-empty quoted string literal argument - ",
        );
        match self {
            HashError::MissingArgument => {
                message.append("none were provided");
            },
            HashError::TooManyArguments => {
                message.append("multiple were provided");
            },
            HashError::InvalidLiteralFormat { text, defect } => {
                message.append("`");
                message.append(text.as_str());
                match defect {
                    LiteralDefect::TooShort => message.append("` was provided"),
                    LiteralDefect::NoOpeningQuote => message.append(
                        "` does not start with a quote",
                    ),
                    LiteralDefect::NoClosingQuote => message.append("` does not end with a quote"),
                }
            },
            HashError::UnexpectedTokenKind(UnexpectedToken::Ident(name)) => {
                message.append("ident `");
                message.append(name.as_str());
                message.append("` was provided");
            },
            HashError::UnexpectedTokenKind(UnexpectedToken::Punct(c)) => {
                message.append("punct `");
                push_char(&mut message, *c);
                message.append("` was provided");
            },
        }
        message
    }
}

} // verus!
