//! The screen resolution as it is written in the configuration and on the
//! command line: one token, `WIDTHxHEIGHT`.

use crate::text::{
    chars_of, decimal, decimal_text, failure_view, find_char, first_index, is_digit, is_plain_decimal,
    lemma_decimal_of_decimal_value, lemma_decimal_value_of_decimal, lemma_first_index,
    lemma_first_index_bounds, number_u16, parse_u16, unsigned_digits,
};
use vstd::prelude::*;
use vstd::string::*;

verus! {

/// The resolution that a token spells. The token is cut at its first `x`; the
/// part before it is the width and the part after it the height, each a
/// 16-bit number greater than zero. Any other token spells no resolution.
pub open spec fn resolution_of(token: Seq<char>) -> Option<(u16, u16)> {
    let at = first_index(token, 'x');
    if 0 <= at < token.len() {
        match (number_u16(token.take(at)), number_u16(token.skip(at + 1))) {
            (Some(width), Some(height)) => if width > 0 && height > 0 {
                Some((width, height))
            } else {
                None
            },
            _ => None,
        }
    } else {
        None
    }
}

/// The token under which a resolution is written.
pub open spec fn resolution_token(resolution: (u16, u16)) -> Seq<char> {
    decimal(resolution.0 as nat) + seq!['x'] + decimal(resolution.1 as nat)
}

/// What `parse_resolution` answers to a token that spells no resolution.
pub open spec fn resolution_message() -> Seq<char> {
    "Incorrect resolution format, should be WIDTHxHEIGHT."@
}

/// The resolution that a token spells, or the message that it spells none.
pub open spec fn resolution_read(token: Seq<char>) -> Result<(u16, u16), Seq<char>> {
    match resolution_of(token) {
        Some(resolution) => Ok(resolution),
        None => Err(resolution_message()),
    }
}

/// A token as `resolution_token` writes it: two plain numerals around one `x`,
/// with no sign and no zero in front of another digit.
pub open spec fn is_plain_token(token: Seq<char>) -> bool {
    let at = first_index(token, 'x');
    &&& 0 <= at < token.len()
    &&& is_plain_decimal(token.take(at))
    &&& is_plain_decimal(token.skip(at + 1))
}

/// Reads a resolution from its token.
pub fn parse_resolution(token: &str) -> (resolution: Result<(u16, u16), String>)
    ensures
        failure_view(resolution) == resolution_read(token@),
{
    let chars = chars_of(token);
    let at = find_char(&chars, 0, 'x');
    proof {
        assert(chars@.skip(0) =~= chars@);
        assert(chars@.subrange(0, at as int) =~= token@.take(at as int));
    }
    if at < chars.len() {
        proof {
            assert(chars@.subrange(at + 1, chars.len() as int) =~= token@.skip(at + 1));
        }
        let width = parse_u16(&chars, 0, at);
        let height = parse_u16(&chars, at + 1, chars.len());
        match (width, height) {
            (Some(width), Some(height)) => {
                if width > 0 && height > 0 {
                    return Ok((width, height));
                }
            },
            _ => {},
        }
    }
    Err("Incorrect resolution format, should be WIDTHxHEIGHT.".to_owned())
}

/// Writes a resolution as its token.
pub fn resolution_text(resolution: (u16, u16)) -> (token: String)
    ensures
        token@ == resolution_token(resolution),
{
    proof {
        reveal_strlit("x");
    }
    let mut token = decimal_text(resolution.0 as u64);
    token.append("x");
    let height = decimal_text(resolution.1 as u64);
    token.append(height.as_str());
    assert(token@ =~= resolution_token(resolution));
    token
}

/// A written resolution with both sides above zero is read back as itself.
pub proof fn lemma_resolution_written_then_read(resolution: (u16, u16))
    requires
        resolution.0 > 0,
        resolution.1 > 0,
    ensures
        resolution_of(resolution_token(resolution)) == Some(resolution),
        is_plain_token(resolution_token(resolution)),
{
    let width = decimal(resolution.0 as nat);
    let height = decimal(resolution.1 as nat);
    let token = resolution_token(resolution);
    lemma_decimal_value_of_decimal(resolution.0 as nat);
    lemma_decimal_value_of_decimal(resolution.1 as nat);
    assert forall|j: int| 0 <= j < width.len() implies token[j] != 'x' by {
        assert(token[j] == width[j]);
        assert(is_digit(width[j]));
    }
    assert(token[width.len() as int] == 'x');
    lemma_first_index(token, 'x', width.len() as int);
    assert(token.take(width.len() as int) =~= width);
    assert(token.skip(width.len() as int + 1) =~= height);
    assert(is_digit(width[0]));
    assert(is_digit(height[0]));
    assert(unsigned_digits(width) == width);
    assert(unsigned_digits(height) == height);
}

/// Every plain token that spells a resolution is written back, character for
/// character, when that resolution is written.
pub proof fn lemma_resolution_read_then_written(token: Seq<char>)
    requires
        resolution_of(token) is Some,
        is_plain_token(token),
    ensures
        resolution_token(resolution_of(token).unwrap()) == token,
{
    let at = first_index(token, 'x');
    let width = token.take(at);
    let height = token.skip(at + 1);
    lemma_first_index_bounds(token, 'x');
    assert(is_digit(width[0]));
    assert(is_digit(height[0]));
    assert(unsigned_digits(width) == width);
    assert(unsigned_digits(height) == height);
    lemma_decimal_of_decimal_value(width);
    lemma_decimal_of_decimal_value(height);
    assert(width + seq!['x'] + height =~= token);
}

} // verus!
