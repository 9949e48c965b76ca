use vstd::prelude::*;
use crate::text::{capitalized, char_to_uppercase, char_uppercase};

verus! {

/// Uppercases the first character of `s` and keeps the rest; this is how
/// an endpoint name typed by the user is read.
pub fn capitalize(s: &str) -> (r: String)
    ensures
        r@ == capitalized(s@),
{
    let n: usize = s.unicode_len();
    if n == 0 {
        String::new()
    } else {
        let first = s.get_char(0);
        let mut r = char_to_uppercase(first);
        let rest = s.substring_char(1, n);
        assert(rest@ =~= s@.drop_first());
        r.append(rest);
        r
    }
}

/// Law: capitalizing twice gives what capitalizing once gives, whenever the
/// uppercase form of the first character is not empty and begins with a
/// character that is its own uppercase form (the only inputs it is stated
/// for: the Unicode mapping itself is named, not written out).
pub proof fn law_capitalize_idempotent(s: Seq<char>)
    requires
        s.len() > 0 ==> char_uppercase(s[0]).len() > 0 && char_uppercase(char_uppercase(s[0])[0])
            == seq![char_uppercase(s[0])[0]],
    ensures
        capitalized(capitalized(s)) == capitalized(s),
{
    if s.len() > 0 {
        let u = char_uppercase(s[0]);
        let once = capitalized(s);
        assert(once == u + s.drop_first());
        assert(once[0] == u[0]);
        assert(once.drop_first() =~= u.drop_first() + s.drop_first());
        assert(seq![u[0]] + (u.drop_first() + s.drop_first()) =~= once);
    }
}

/// The name of a Credinform `CompanyInformation` endpoint, such as
/// `BasicInformation` or `Trademarks`.
#[derive(Debug, Clone)]
pub struct Address(String);

impl View for Address {
    type V = Seq<char>;

    closed spec fn view(&self) -> Seq<char> {
        self.0@
    }
}

impl Address {
    /// Wraps the given endpoint name unchanged.
    pub fn new(address: &str) -> (r: Self)
        ensures
            r@ == address@,
    {
        Address(address.to_owned())
    }

    /// One address per entry of `addresses`, in the same order.
    pub fn from_vec(addresses: &Vec<String>) -> (r: Vec<Self>)
        ensures
            r.len() == addresses.len(),
            forall|i: int| 0 <= i < addresses.len() ==> #[trigger] r@[i]@ == addresses@[i]@,
    {
        let mut r: Vec<Self> = Vec::new();
        let mut i: usize = 0;
        while i < addresses.len()
            invariant
                i <= addresses.len(),
                r.len() == i,
                forall|j: int| 0 <= j < i ==> #[trigger] r@[j]@ == addresses@[j]@,
            decreases addresses.len() - i,
        {
            r.push(Address::new(addresses[i].as_str()));
            i = i + 1;
        }
        r
    }

    /// The endpoint name.
    pub fn to_string(&self) -> (r: String)
        ensures
            r@ == self@,
    {
        self.0.as_str().to_owned()
    }

    /// The endpoint name, borrowed.
    pub fn as_str(&self) -> (r: &str)
        ensures
            r@ == self@,
    {
        self.0.as_str()
    }
}

impl core::str::FromStr for Address {
    type Err = String;

    fn from_str(s: &str) -> (r: Result<Self, Self::Err>)
        ensures
            r matches Ok(a) && a@ == capitalized(s@),
    {
        Ok(Address(capitalize(s)))
    }
}

} // verus!
