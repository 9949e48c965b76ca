use vstd::prelude::*;

verus! {

/// An access key issued by the Credinform authorization endpoint.
#[derive(Debug, Clone)]
pub struct AccessToken(String);

impl View for AccessToken {
    type V = Seq<char>;

    closed spec fn view(&self) -> Seq<char> {
        self.0@
    }
}

impl AccessToken {
    /// Wraps the given key text unchanged.
    pub fn new(token: &str) -> (r: Self)
        ensures
            r@ == token@,
    {
        AccessToken(token.to_owned())
    }

    /// The key text, as it is sent in the `accessKey` header.
    pub fn to_string(&self) -> (r: String)
        ensures
            r@ == self@,
    {
        self.0.as_str().to_owned()
    }
}

impl core::str::FromStr for AccessToken {
    type Err = String;

    fn from_str(s: &str) -> (r: Result<Self, Self::Err>)
        ensures
            r matches Ok(t) && t@ == s@,
    {
        Ok(AccessToken::new(s))
    }
}

} // verus!
