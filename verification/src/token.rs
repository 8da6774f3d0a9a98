//! The tokens of the wire protocol and their lines.

use crate::decimal::{
    decimal_round_trip, decimal_text, decimal_text_has_no_line_break, format_decimal,
    parse_decimal, read_decimal,
};
use vstd::prelude::*;

verus! {

/// The byte that ends every line on the wire.
pub const LINE_BREAK: u8 = 10;

/// One token of the handshake.
#[derive(Clone, Copy, PartialEq, Eq, Debug, Structural)]
pub enum Token {
    /// The sender wants to read a value.
    Get,
    /// The value that was sent has been accepted.
    Ack,
    /// A request is withdrawn, or a value is declined.
    Nak,
    /// A value.
    Value(i32),
}

/// The line `GET`.
pub open spec fn get_line() -> Seq<u8> {
    seq![71u8, 69u8, 84u8]
}

/// The line `ACK`.
pub open spec fn ack_line() -> Seq<u8> {
    seq![65u8, 67u8, 75u8]
}

/// The line `NAK`.
pub open spec fn nak_line() -> Seq<u8> {
    seq![78u8, 65u8, 75u8]
}

impl Token {
    /// The line of a token, without the line break: one of the three words, or
    /// the value in base 10.
    pub open spec fn line(self) -> Seq<u8> {
        match self {
            Token::Get => get_line(),
            Token::Ack => ack_line(),
            Token::Nak => nak_line(),
            Token::Value(v) => decimal_text(v as int),
        }
    }

    /// The token that a line denotes, if any. A line that is none of the three
    /// words is a value if it reads as a signed 32-bit integer.
    pub open spec fn parse(line: Seq<u8>) -> Option<Token> {
        if line == get_line() {
            Some(Token::Get)
        } else if line == ack_line() {
            Some(Token::Ack)
        } else if line == nak_line() {
            Some(Token::Nak)
        } else {
            match parse_decimal(line) {
                Some(v) => Some(Token::Value(v)),
                None => None,
            }
        }
    }

    /// The bytes to put on the wire for this token: its line and a line break.
    pub fn encode(&self) -> (bytes: Vec<u8>)
        ensures
            bytes@ == self.line().push(LINE_BREAK),
    {
        let mut bytes: Vec<u8> = match self {
            Token::Get => vec![71u8, 69u8, 84u8],
            Token::Ack => vec![65u8, 67u8, 75u8],
            Token::Nak => vec![78u8, 65u8, 75u8],
            Token::Value(v) => format_decimal(*v),
        };
        bytes.push(LINE_BREAK);
        bytes
    }

    /// Reads a line, as it arrives without its line break, as a token.
    pub fn decode(line: &[u8]) -> (token: Option<Token>)
        ensures
            token == Token::parse(line@),
    {
        if is_word(line, 71, 69, 84) {
            Some(Token::Get)
        } else if is_word(line, 65, 67, 75) {
            Some(Token::Ack)
        } else if is_word(line, 78, 65, 75) {
            Some(Token::Nak)
        } else {
            match read_decimal(line) {
                Some(v) => Some(Token::Value(v)),
                None => None,
            }
        }
    }

    /// Every token is read back from its own line, and the line holds no line
    /// break, so the end of a token on the wire is never in doubt.
    pub proof fn line_round_trip(token: Token)
        ensures
            Token::parse(token.line()) == Some(token),
            token.line().len() >= 1,
            forall|i: int| 0 <= i < token.line().len() ==> #[trigger] token.line()[i] != 10,
    {
        match token {
            Token::Value(v) => {
                decimal_round_trip(v);
                decimal_text_has_no_line_break(v as int);
                let text = decimal_text(v as int);
                // A value starts with a sign or a digit, a word with a letter.
                assert(text[0] != 71 && text[0] != 65 && text[0] != 78) by {
                    words_are_no_values();
                    if text[0] == 71 || text[0] == 65 || text[0] == 78 {
                        first_byte_of_value(text);
                    }
                }
            },
            _ => {},
        }
    }
}

/// The first byte of a line that reads as a value is a sign or a digit.
proof fn first_byte_of_value(line: Seq<u8>)
    requires
        parse_decimal(line) is Some,
    ensures
        line.len() >= 1,
        line[0] == 45 || line[0] == 43 || 48 <= line[0] <= 57,
{
}

/// None of the three words reads as a value.
proof fn words_are_no_values()
    ensures
        parse_decimal(get_line()) is None,
        parse_decimal(ack_line()) is None,
        parse_decimal(nak_line()) is None,
{
    if parse_decimal(get_line()) is Some {
        first_byte_of_value(get_line());
    }
    if parse_decimal(ack_line()) is Some {
        first_byte_of_value(ack_line());
    }
    if parse_decimal(nak_line()) is Some {
        first_byte_of_value(nak_line());
    }
}

/// Whether a line is exactly the three given bytes.
fn is_word(line: &[u8], a: u8, b: u8, c: u8) -> (same: bool)
    ensures
        same == (line@ == seq![a, b, c]),
{
    if line.len() == 3 && line[0] == a && line[1] == b && line[2] == c {
        assert(line@ =~= seq![a, b, c]);
        true
    } else {
        false
    }
}

} // verus!
