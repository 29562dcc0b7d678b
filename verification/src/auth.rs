use vstd::prelude::*;
use crate::error::{Error, ErrorKind, ErrorView, error_of};

verus! {

/// Proof that a request carried the expected secret key.
#[derive(Debug)]
pub struct AuthHeader;

/// Whether a request with the given secret is let through, and with what error it is not.
pub open spec fn auth_decision(provided: Option<Seq<char>>, expected: Seq<char>) -> Result<
    (),
    ErrorView,
> {
    match provided {
        None => Err(error_of(ErrorKind::Unauthorized, "missing secret key"@)),
        Some(secret) => if secret == expected {
            Ok(())
        } else {
            Err(error_of(ErrorKind::Unauthorized, "invalid secret key"@))
        },
    }
}

/// Lets a request through when the secret it carried (in its `x-auth` header) equals the
/// expected secret key; a missing or different secret is unauthorized.
pub fn authorize(provided: Option<String>, expected: &String) -> (r: Result<AuthHeader, Error>)
    ensures
        match auth_decision(
            match provided {
                Some(s) => Some(s@),
                None => None,
            },
            expected@,
        ) {
            Ok(_) => r is Ok,
            Err(e) => r matches Err(err) && err@ == e,
        },
{
    match provided {
        None => Err(Error::Unauthorized("missing secret key".to_owned())),
        Some(secret) => if secret == *expected {
            Ok(AuthHeader)
        } else {
            Err(Error::Unauthorized("invalid secret key".to_owned()))
        },
    }
}

} // verus!
