//! Classification of Antex access tokens by their prefix.

use vstd::prelude::*;

verus! {

/// The prefix that marks a personal access token.
pub open spec fn personal_access_token_prefix() -> Seq<char> {
    seq!['a', 't', '-']
}

/// An access token, by the kind of credential it is.
#[derive(Debug)]
pub enum AntexAccessToken<'a> {
    PersonalAccessToken(&'a str),
    AgentIdentityJwt(&'a str),
}

/// Tokens starting with `at-` are personal access tokens; anything else is
/// taken as an agent identity JWT.
pub fn classify_antex_access_token(access_token: &str) -> (r: AntexAccessToken<'_>)
    ensures
        match r {
            AntexAccessToken::PersonalAccessToken(t) => t@ == access_token@
                && personal_access_token_prefix().is_prefix_of(access_token@),
            AntexAccessToken::AgentIdentityJwt(t) => t@ == access_token@
                && !personal_access_token_prefix().is_prefix_of(access_token@),
        },
{
    let chars = crate::text::str_chars(access_token);
    let prefix = ['a', 't', '-'];
    proof {
        assert(prefix@ =~= personal_access_token_prefix());
    }
    let is_personal = chars.len() >= 3 && crate::text::has_prefix_at(&chars, 0, &prefix);
    proof {
        if chars@.len() >= 3 {
            assert(chars@.subrange(0, 3) == chars@.take(3));
        }
    }
    if is_personal {
        AntexAccessToken::PersonalAccessToken(access_token)
    } else {
        AntexAccessToken::AgentIdentityJwt(access_token)
    }
}

} // verus!
