//! Structured lexical-error reports carried inside error tokens.
use vstd::prelude::*;
use crate::text::char_to_string;
use vstd::string::StringExecFns;

verus! {

/// The reasons the scanner can reject input.
///
/// `UnterminatedString` and `UnexpectedCharacter` are the two errors ordinary
/// input can provoke. The underflow/overflow variants are defensive reports
/// for a failed mapping from character counts back to text positions; the
/// scanner in this crate proves its positions in bounds, so it never produces
/// them, but callers may still match on them.
#[derive(Copy, Debug, PartialEq, Eq, Structural)]
pub enum ErrorToken {
    UnterminatedString,
    UnexpectedCharacter(char),
    StringUnderflow,
    StringOverflow,
    NumberUnderflow,
    NumberOverflow,
    IdentifierUnderflow,
    IdentifierOverflow,
    CommentUnderflow,
    CommentOverflow,
}

impl Clone for ErrorToken {
    fn clone(&self) -> (r: ErrorToken)
        ensures
            r == *self,
    {
        *self
    }
}

impl ErrorToken {
    /// The diagnostic text of the error.
    pub open spec fn message_spec(&self) -> Seq<char> {
        match self {
            ErrorToken::UnterminatedString => "unterminated string"@,
            ErrorToken::UnexpectedCharacter(c) => "unexpected character: '"@ + seq![*c] + "'"@,
            ErrorToken::StringUnderflow => "string underflow"@,
            ErrorToken::StringOverflow => "string overflow"@,
            ErrorToken::NumberUnderflow => "number underflow"@,
            ErrorToken::NumberOverflow => "number overflow"@,
            ErrorToken::IdentifierUnderflow => "identifier underflow"@,
            ErrorToken::IdentifierOverflow => "identifier overflow"@,
            ErrorToken::CommentUnderflow => "comment underflow"@,
            ErrorToken::CommentOverflow => "comment overflow"@,
        }
    }

    /// Renders the diagnostic text of the error.
    pub fn message(&self) -> (s: String)
        ensures
            s@ == self.message_spec(),
    {
        match self {
            ErrorToken::UnterminatedString => String::from_str("unterminated string"),
            ErrorToken::UnexpectedCharacter(c) => {
                let mut s = String::from_str("unexpected character: '");
                let mid = char_to_string(*c);
                s.append(mid.as_str());
                s.append("'");
                proof {
                    assert(s@ =~= self.message_spec());
                }
                s
            },
            ErrorToken::StringUnderflow => String::from_str("string underflow"),
            ErrorToken::StringOverflow => String::from_str("string overflow"),
            ErrorToken::NumberUnderflow => String::from_str("number underflow"),
            ErrorToken::NumberOverflow => String::from_str("number overflow"),
            ErrorToken::IdentifierUnderflow => String::from_str("identifier underflow"),
            ErrorToken::IdentifierOverflow => String::from_str("identifier overflow"),
            ErrorToken::CommentUnderflow => String::from_str("comment underflow"),
            ErrorToken::CommentOverflow => String::from_str("comment overflow"),
        }
    }
}

} // verus!
