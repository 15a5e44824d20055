//! Who may change the posts: the bearer of a token that names an administrator.

use crate::util::chars_of;
use vstd::prelude::*;
use vstd::string::*;

verus! {

/// What a token claims of its bearer.
#[derive(Debug)]
pub struct TokenClaims {
    pub name: String,
    pub role: String,
    pub iat: usize,
    pub exp: usize,
}

/// What stands before the token in an authorization header.
pub open spec fn bearer_prefix() -> Seq<char> {
    seq!['B', 'e', 'a', 'r', 'e', 'r', ' ']
}

/// The token that an authorization header carries, if it carries one.
pub open spec fn bearer_token_of(header: Seq<char>) -> Option<Seq<char>> {
    if header.len() >= 7 && header.subrange(0, 7) == bearer_prefix() {
        Some(header.subrange(7, header.len() as int))
    } else {
        None
    }
}

/// The token of an authorization header: what follows `Bearer `. A header that
/// does not begin so carries none.
pub fn bearer_token(header: &str) -> (token: Option<String>)
    ensures
        match token {
            Some(token) => bearer_token_of(header@) == Some(token@),
            None => bearer_token_of(header@) is None,
        },
{
    let chars = chars_of(header);
    let len: usize = chars.len();
    if len >= 7 && chars[0] == 'B' && chars[1] == 'e' && chars[2] == 'a' && chars[3] == 'r'
        && chars[4] == 'e' && chars[5] == 'r' && chars[6] == ' ' {
        assert(header@.subrange(0, 7) =~= bearer_prefix());
        Some(header.substring_char(7, len).to_owned())
    } else {
        assert(header@.len() >= 7 ==> header@.subrange(0, 7) != bearer_prefix()) by {
            if header@.len() >= 7 && header@.subrange(0, 7) == bearer_prefix() {
                assert(forall|i: int| 0 <= i < 7 ==> header@[i] == header@.subrange(0, 7)[i]);
                assert(header@[0] == bearer_prefix()[0]);
                assert(header@[1] == bearer_prefix()[1]);
                assert(header@[2] == bearer_prefix()[2]);
                assert(header@[3] == bearer_prefix()[3]);
                assert(header@[4] == bearer_prefix()[4]);
                assert(header@[5] == bearer_prefix()[5]);
                assert(header@[6] == bearer_prefix()[6]);
            }
        }
        None
    }
}

/// The authorization header that carries `token`.
pub fn bearer_header(token: &str) -> (header: String)
    ensures
        header@ == bearer_prefix() + token@,
{
    proof {
        reveal_strlit("Bearer ");
    }
    let mut header = String::from_str("Bearer ");
    assert(header@ =~= bearer_prefix());
    header.append(token);
    header
}

/// A header made for a token carries that token.
pub proof fn lemma_bearer_round_trip(token: Seq<char>)
    ensures
        bearer_token_of(bearer_prefix() + token) == Some(token),
{
    let header = bearer_prefix() + token;
    assert(header.subrange(0, 7) =~= bearer_prefix());
    assert(header.subrange(7, header.len() as int) =~= token);
}

impl TokenClaims {
    /// Whether the claims name an administrator.
    pub fn is_admin(&self) -> (admin: bool)
        ensures
            admin == (self.role@ == "admin"@),
    {
        let admin = "admin".to_owned();
        self.role == admin
    }
}

/// Whether a request may pass: its token was read, and names an administrator.
/// `claims` is what decoding the token gave, `None` where it was refused.
pub fn auth_jwt(claims: Option<&TokenClaims>) -> (allowed: bool)
    ensures
        allowed == (claims matches Some(claims) && claims.role@ == "admin"@),
{
    match claims {
        Some(claims) => claims.is_admin(),
        None => false,
    }
}

} // verus!
