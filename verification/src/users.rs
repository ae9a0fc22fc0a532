//! Users: their displayed tag, and reading a user id from a command argument
//! (a mention such as `<@123>` or a bare number).

use vstd::prelude::*;
use vstd::string::*;
use crate::text::{decimal, parse_u64, parse_u64_spec, push_zero_padded4, zero_padded};

verus! {

/// A user's tag: the name, `#`, and the discriminator on at least four digits.
pub open spec fn user_tag_spec(name: Seq<char>, discriminator: u16) -> Seq<char> {
    name + "#"@ + zero_padded(decimal(discriminator as nat), 4)
}

/// A user's tag, such as `AceFifi#2000` or `name#0042`.
pub fn user_tag(name: &str, discriminator: u16) -> (r: String)
    ensures
        r@ == user_tag_spec(name@, discriminator),
{
    let mut s = String::from_str(name);
    s.append("#");
    push_zero_padded4(&mut s, discriminator as u64);
    s
}

/// Inputs on which `serenity::utils::parse_username` panics: it cuts off the
/// last byte of a string that starts with `<@`, which splits a last
/// character that takes more than one byte.
pub open spec fn mention_parse_panics(s: Seq<char>) -> bool {
    s.len() >= 3 && s[0] == '<' && s[1] == '@' && (s.last() as u32) >= 128
}

/// Whether `serenity::utils::parse_username` would panic on `s` (see
/// `mention_parse_panics`); callers test this before reading a user id.
pub fn mention_breaks_parser(s: &str) -> (r: bool)
    ensures
        r == mention_parse_panics(s@),
{
    let len = s.unicode_len();
    if len < 3 {
        return false;
    }
    s.get_char(0) == '<' && s.get_char(1) == '@' && (s.get_char(len - 1) as u32) >= 128
}

/// The user id in a mention: `<@!` or `<@`, then the digits of the id, then
/// one more character (normally `>`), at least four characters in all.
pub open spec fn mention_value(s: Seq<char>) -> Option<u64> {
    if s.len() >= 4 && s[0] == '<' && s[1] == '@' && s[2] == '!' {
        parse_u64_spec(s.subrange(3, s.len() - 1))
    } else if s.len() >= 4 && s[0] == '<' && s[1] == '@' {
        parse_u64_spec(s.subrange(2, s.len() - 1))
    } else {
        None
    }
}

/// `serenity::utils::parse_username`: the id in a user mention (see
/// `mention_value`), on the inputs where it does not panic.
#[verifier::external_body]
fn parse_username(mention: &str) -> (r: Option<u64>)
    requires
        !mention_parse_panics(mention@),
    ensures
        r == mention_value(mention@),
{
    serenity::utils::parse_username(mention)
}

/// The user id that a command argument names: the id of a mention, or else
/// the argument read as a number.
pub open spec fn user_id_of_arg(arg: Seq<char>) -> Option<u64> {
    match mention_value(arg) {
        Some(id) => Some(id),
        None => parse_u64_spec(arg),
    }
}

/// Why no user id could be read.
#[derive(Clone, Copy, Debug, PartialEq, Eq, Structural)]
pub enum UserArgError {
    /// There was no argument, or it names no user id.
    InvalidId,
}

impl UserArgError {
    /// The text of the error.
    pub fn message(&self) -> (r: &'static str)
        ensures
            r@ == "[UTIL] Failed to convert id"@,
    {
        "[UTIL] Failed to convert id"
    }
}

/// The user id named by the next command argument, if there is one.
pub fn user_id_from_arg(arg: Option<&str>) -> (r: Result<u64, UserArgError>)
    requires
        arg is Some ==> !mention_parse_panics(arg->0@),
    ensures
        match arg {
            None => r == Err::<u64, UserArgError>(UserArgError::InvalidId),
            Some(a) => match user_id_of_arg(a@) {
                Some(id) => r == Ok::<u64, UserArgError>(id),
                None => r == Err::<u64, UserArgError>(UserArgError::InvalidId),
            },
        },
{
    let a = match arg {
        Some(a) => a,
        None => return Err(UserArgError::InvalidId),
    };
    match parse_username(a) {
        Some(id) => Ok(id),
        None => match parse_u64(a) {
            Some(id) => Ok(id),
            None => Err(UserArgError::InvalidId),
        },
    }
}

/// A mention of a user id, as Discord writes it, reads back as that id; so
/// does its nickname form `<@!id>`, and the bare number.
pub proof fn lemma_mention_round_trip(id: u64)
    ensures
        user_id_of_arg("<@"@ + decimal(id as nat) + ">"@) == Some(id),
        user_id_of_arg("<@!"@ + decimal(id as nat) + ">"@) == Some(id),
        user_id_of_arg(decimal(id as nat)) == Some(id),
{
    reveal_strlit("<@");
    reveal_strlit("<@!");
    reveal_strlit(">");
    crate::text::lemma_decimal_digits(id as nat);
    crate::text::lemma_parse_decimal(id);
    let d = decimal(id as nat);
    let m1 = "<@"@ + d + ">"@;
    assert(m1.subrange(2, m1.len() - 1) =~= d);
    assert(crate::text::is_digit(d[0]));
    assert(m1[2] == d[0]);
    let m2 = "<@!"@ + d + ">"@;
    assert(m2.subrange(3, m2.len() - 1) =~= d);
    assert(d[0] != '<');
    assert(mention_value(d) is None);
}

} // verus!
