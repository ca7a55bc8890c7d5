//! Credentials offered during the handshake.
use vstd::prelude::*;

verus! {

/// Produces the tokens of the authentication exchange.
pub trait Authenticator {
    /// The token sent in the first AUTH_RESPONSE.
    fn auth_token(&self) -> Vec<u8>;

    /// The token that answers an AUTH_CHALLENGE carrying `challenge`.
    fn challenge_response(&self, challenge: &Vec<u8>) -> Vec<u8>;
}

/// Offers no credentials: for servers that ask for none.
#[derive(Clone, Copy, Debug)]
pub struct NoneAuthenticator;

impl Authenticator for NoneAuthenticator {
    fn auth_token(&self) -> Vec<u8> {
        Vec::new()
    }

    fn challenge_response(&self, _challenge: &Vec<u8>) -> Vec<u8> {
        Vec::new()
    }
}

/// Offers a user name and password in the PLAIN form: `\0user\0password`.
#[derive(Clone, Debug)]
pub struct PasswordAuthenticator {
    username: Vec<u8>,
    password: Vec<u8>,
}

/// The PLAIN token of a user name and password.
pub open spec fn plain_token(user: Seq<u8>, password: Seq<u8>) -> Seq<u8> {
    seq![0u8] + user + seq![0u8] + password
}

impl PasswordAuthenticator {
    pub closed spec fn spec_token(&self) -> Seq<u8> {
        plain_token(self.username@, self.password@)
    }

    pub fn new(username: Vec<u8>, password: Vec<u8>) -> (r: PasswordAuthenticator)
        ensures
            r.spec_token() == plain_token(username@, password@),
    {
        PasswordAuthenticator { username, password }
    }

    /// The PLAIN token.
    pub fn token(&self) -> (r: Vec<u8>)
        ensures
            r@ == self.spec_token(),
    {
        let mut r: Vec<u8> = Vec::new();
        r.push(0u8);
        let mut i: usize = 0;
        while i < self.username.len()
            invariant
                i <= self.username@.len(),
                r@ == seq![0u8] + self.username@.subrange(0, i as int),
            decreases self.username@.len() - i,
        {
            r.push(self.username[i]);
            i = i + 1;
            assert(r@ =~= seq![0u8] + self.username@.subrange(0, i as int));
        }
        r.push(0u8);
        let mut j: usize = 0;
        while j < self.password.len()
            invariant
                j <= self.password@.len(),
                r@ == seq![0u8] + self.username@ + seq![0u8] + self.password@.subrange(0, j as int),
            decreases self.password@.len() - j,
        {
            r.push(self.password[j]);
            j = j + 1;
            assert(r@ =~= seq![0u8] + self.username@ + seq![0u8] + self.password@.subrange(0, j as int));
        }
        assert(r@ =~= self.spec_token());
        r
    }
}

impl Authenticator for PasswordAuthenticator {
    fn auth_token(&self) -> Vec<u8> {
        self.token()
    }

    fn challenge_response(&self, _challenge: &Vec<u8>) -> Vec<u8> {
        self.token()
    }
}

} // verus!
