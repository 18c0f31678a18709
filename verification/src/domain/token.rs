//! Bearer tokens as the web layer hands them over.

use vstd::prelude::*;

use crate::errors::AppError;

verus! {

/// A bearer token: the secret and its type tag.
#[derive(Debug, Default)]
pub struct Token {
    pub secret: String,
    pub token_type: String,
}

/// The authenticated caller of a request.
#[derive(Debug, Clone)]
pub struct CurrentUser {
    pub address: String,
}

impl Token {
    /// A token around the given secret, typed `Bearer`.
    fn new(secret: String) -> (r: Self)
        ensures
            r.secret@ == secret@,
            r.token_type@ == "Bearer"@,
    {
        Token { secret, token_type: "Bearer".to_owned() }
    }

    /// Splits a `Bearer <secret>` access token.
    ///
    /// Succeeds exactly when the text starts with `Bearer `; the secret is
    /// everything after that prefix.  Anything else is
    /// [`AppError::InvalidToken`].
    pub fn parse_from_access_token(access_token: String) -> (r: Result<Token, AppError>)
        ensures
            (r is Ok <==> (access_token@.len() >= 7 && access_token@.subrange(0, 7)
                == "Bearer "@)),
            (r is Ok ==> r->Ok_0.secret@ == access_token@.subrange(
                7,
                access_token@.len() as int,
            )),
            r is Ok ==> r->Ok_0.token_type@ == "Bearer"@,
            r is Err ==> r->Err_0 == AppError::InvalidToken,
    {
        let n = access_token.as_str().unicode_len();
        if n >= 7 {
            let prefix = access_token.as_str().substring_char(0, 7).to_owned();
            let bearer: String = "Bearer ".to_owned();
            if prefix == bearer {
                let secret = access_token.as_str().substring_char(7, n).to_owned();
                Ok(Token::new(secret))
            } else {
                Err(AppError::InvalidToken)
            }
        } else {
            Err(AppError::InvalidToken)
        }
    }
}

} // verus!
