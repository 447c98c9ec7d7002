//! Reading the caller's credentials from the headers of a request.
//!
//! A request names its user in the header `user_id` and carries a bearer
//! token in the header `Authorization`, whose value is the word `Bearer`, white
//! space, and the token.

use vstd::prelude::*;
use crate::routes::session::ProtocolError;
use crate::text::{chars_of, spells};

verus! {

/// The credentials of a caller: a bearer token and the user it speaks for.
#[derive(Debug, Clone)]
pub struct AuthPayload {
    pub token: String,
    pub user_id: String,
}

/// Whether `c` is white space: a character with the Unicode property
/// `White_Space`.
pub open spec fn is_space(c: char) -> bool {
    let n = c as u32;
    ||| 0x09 <= n <= 0x0D
    ||| n == 0x20
    ||| n == 0x85
    ||| n == 0xA0
    ||| n == 0x1680
    ||| 0x2000 <= n <= 0x200A
    ||| n == 0x2028
    ||| n == 0x2029
    ||| n == 0x202F
    ||| n == 0x205F
    ||| n == 0x3000
}

/// Index of the first character of `s` at or after `from` that is no white
/// space; the length of `s` if there is none.
pub open spec fn word_start(s: Seq<char>, from: int) -> int
    decreases s.len() - from,
{
    if 0 <= from < s.len() && is_space(s[from]) {
        word_start(s, from + 1)
    } else {
        from
    }
}

/// Index of the first character of `s` at or after `from` that is white
/// space; the length of `s` if there is none.
pub open spec fn word_end(s: Seq<char>, from: int) -> int
    decreases s.len() - from,
{
    if 0 <= from < s.len() && !is_space(s[from]) {
        word_end(s, from + 1)
    } else {
        from
    }
}

/// The first word of `s` at or after `from`: the longest run of characters
/// other than white space that begins where the white space at `from` ends.
/// Empty if only white space is left.
pub open spec fn word(s: Seq<char>, from: int) -> Seq<char> {
    let start = word_start(s, from);
    s.subrange(start, word_end(s, start))
}

/// The first word of an `Authorization` header: the kind of token.
pub open spec fn token_type(header: Seq<char>) -> Seq<char> {
    word(header, 0)
}

/// The second word of an `Authorization` header: the token.
pub open spec fn bearer_token(header: Seq<char>) -> Seq<char> {
    word(header, word_end(header, word_start(header, 0)))
}

/// The credentials that the two headers carry, if they carry any: the token
/// and the user. There are none unless the `Authorization` header is present,
/// begins with the word `Bearer` and goes on with a token, and the `user_id`
/// header is present and not empty.
pub open spec fn credentials(authorization: Option<Seq<char>>, user_id: Option<Seq<char>>) -> Option<
    (Seq<char>, Seq<char>),
> {
    match (authorization, user_id) {
        (Some(header), Some(user)) => if token_type(header) == "Bearer"@ && bearer_token(
            header,
        ).len() > 0 && user.len() > 0 {
            Some((bearer_token(header), user))
        } else {
            None
        },
        _ => None,
    }
}

/// The view of an optional string.
pub open spec fn optional_view(s: Option<&str>) -> Option<Seq<char>> {
    match s {
        Some(s) => Some(s@),
        None => None,
    }
}

/// Whether `c` is white space.
pub fn is_whitespace(c: char) -> (b: bool)
    ensures
        b == is_space(c),
{
    let n: u32 = c as u32;
    (0x09 <= n && n <= 0x0D) || n == 0x20 || n == 0x85 || n == 0xA0 || n == 0x1680 || (0x2000 <= n
        && n <= 0x200A) || n == 0x2028 || n == 0x2029 || n == 0x202F || n == 0x205F || n == 0x3000
}

/// Index of the first character at or after `from` that is no white space.
fn skip_spaces(v: &Vec<char>, from: usize) -> (i: usize)
    requires
        from <= v.len(),
    ensures
        i == word_start(v@, from as int),
        from <= i <= v.len(),
{
    let mut i = from;
    while i < v.len() && is_whitespace(v[i])
        invariant
            from <= i <= v.len(),
            word_start(v@, from as int) == word_start(v@, i as int),
        decreases v.len() - i,
    {
        i += 1;
    }
    i
}

/// Index of the first character at or after `from` that is white space.
fn skip_word(v: &Vec<char>, from: usize) -> (i: usize)
    requires
        from <= v.len(),
    ensures
        i == word_end(v@, from as int),
        from <= i <= v.len(),
{
    let mut i = from;
    while i < v.len() && !is_whitespace(v[i])
        invariant
            from <= i <= v.len(),
            word_end(v@, from as int) == word_end(v@, i as int),
        decreases v.len() - i,
    {
        i += 1;
    }
    i
}

impl AuthPayload {
    /// Reads the credentials of a caller from the value of the `Authorization`
    /// header and the value of the `user_id` header of its request, each absent
    /// or present. The caller is unauthorized unless both carry what they
    /// should.
    pub fn from_request(authorization: Option<&str>, user_id: Option<&str>) -> (r: Result<
        AuthPayload,
        ProtocolError,
    >)
        ensures
            match r {
                Ok(payload) => credentials(optional_view(authorization), optional_view(user_id))
                    == Some((payload.token@, payload.user_id@)),
                Err(e) => e == ProtocolError::Unauthorized && credentials(
                    optional_view(authorization),
                    optional_view(user_id),
                ) is None,
            },
    {
        let header = match authorization {
            Some(header) => header,
            None => return Err(ProtocolError::Unauthorized),
        };
        let v = chars_of(header);
        let type_start = skip_spaces(&v, 0);
        let type_end = skip_word(&v, type_start);
        if !spells(&v, type_start, type_end, "Bearer") {
            return Err(ProtocolError::Unauthorized);
        }
        let token_start = skip_spaces(&v, type_end);
        let token_end = skip_word(&v, token_start);
        let user = match user_id {
            Some(user) => user,
            None => return Err(ProtocolError::Unauthorized),
        };
        if token_start == token_end || user.unicode_len() == 0 {
            return Err(ProtocolError::Unauthorized);
        }
        let token = header.substring_char(token_start, token_end);
        Ok(AuthPayload { token: String::from_str(token), user_id: String::from_str(user) })
    }
}

} // verus!
