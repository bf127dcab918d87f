//! Classification of Codewen access tokens.

use vstd::prelude::*;
use crate::text::{has_prefix, str_starts_with};

verus! {

/// Prefix that marks a personal access token.
pub const PERSONAL_ACCESS_TOKEN_PREFIX: &'static str = "at-";

/// The prefix of personal access tokens, as characters.
pub open spec fn personal_access_token_prefix() -> Seq<char> {
    seq!['a', 't', '-']
}

/// An access token, tagged with its kind. Both kinds borrow the token text.
pub enum CodewenAccessToken<'a> {
    PersonalAccessToken(&'a str),
    AgentIdentityJwt(&'a str),
}

/// A token is a personal access token exactly when it starts with `at-`;
/// every other token is taken to be an agent identity JWT. The token text
/// is carried unchanged in either case.
pub fn classify_codewen_access_token(access_token: &str) -> (res: CodewenAccessToken<'_>)
    ensures
        has_prefix(access_token@, personal_access_token_prefix()) ==> res
            == CodewenAccessToken::PersonalAccessToken(access_token),
        !has_prefix(access_token@, personal_access_token_prefix()) ==> res
            == CodewenAccessToken::AgentIdentityJwt(access_token),
{
    proof {
        reveal_strlit("at-");
    }
    assert(PERSONAL_ACCESS_TOKEN_PREFIX@ =~= personal_access_token_prefix());
    if str_starts_with(access_token, PERSONAL_ACCESS_TOKEN_PREFIX) {
        CodewenAccessToken::PersonalAccessToken(access_token)
    } else {
        CodewenAccessToken::AgentIdentityJwt(access_token)
    }
}

/// Which tokens are personal access tokens, over every token: exactly those
/// of at least three characters that begin with `a`, `t`, `-`.
pub proof fn lemma_personal_access_token_prefix(token: Seq<char>)
    ensures
        has_prefix(token, personal_access_token_prefix()) <==> token.len() >= 3 && token[0] == 'a'
            && token[1] == 't' && token[2] == '-',
{
    if token.len() >= 3 {
        let head = token.subrange(0, 3);
        if token[0] == 'a' && token[1] == 't' && token[2] == '-' {
            assert(head =~= personal_access_token_prefix());
        } else {
            assert(head[0] == token[0] && head[1] == token[1] && head[2] == token[2]);
        }
    }
}
} // verus!
