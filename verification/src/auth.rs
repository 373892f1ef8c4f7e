use vstd::prelude::*;

verus! {

/// Configuration of the authentication layer: the secret the API tokens are
/// signed with.  Token checking itself lives with the web layer; the engine
/// only ever receives an already-authenticated staff id.
pub struct JwtMiddleware {
    secret: String,
}

impl JwtMiddleware {
    /// The signing secret this middleware was built with.
    pub closed spec fn spec_secret(&self) -> Seq<char> {
        self.secret@
    }

    pub fn new(secret: String) -> (r: Self)
        ensures
            r.spec_secret() == secret@,
    {
        JwtMiddleware { secret }
    }

    /// Hands the signing secret to the web layer.
    pub fn secret(&self) -> (r: &String)
        ensures
            r@ == self.spec_secret(),
    {
        &self.secret
    }
}

} // verus!
