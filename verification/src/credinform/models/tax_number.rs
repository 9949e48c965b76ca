use vstd::prelude::*;

verus! {

/// A company's taxpayer identification number (ИНН), kept as given.
#[derive(Debug, Clone)]
pub struct TaxNumber(String);

impl View for TaxNumber {
    type V = Seq<char>;

    closed spec fn view(&self) -> Seq<char> {
        self.0@
    }
}

impl TaxNumber {
    /// Wraps the given text unchanged.
    pub fn new(tax_number: &str) -> (r: Self)
        ensures
            r@ == tax_number@,
    {
        TaxNumber(tax_number.to_owned())
    }

    /// One tax number per entry of `vec`, in the same order.
    pub fn from_vec(vec: &Vec<String>) -> (r: Vec<Self>)
        ensures
            r.len() == vec.len(),
            forall|i: int| 0 <= i < vec.len() ==> #[trigger] r@[i]@ == vec@[i]@,
    {
        let mut r: Vec<Self> = Vec::new();
        let mut i: usize = 0;
        while i < vec.len()
            invariant
                i <= vec.len(),
                r.len() == i,
                forall|j: int| 0 <= j < i ==> #[trigger] r@[j]@ == vec@[j]@,
            decreases vec.len() - i,
        {
            r.push(TaxNumber::new(vec[i].as_str()));
            i = i + 1;
        }
        r
    }

    /// The number's text.
    pub fn to_string(&self) -> (r: String)
        ensures
            r@ == self@,
    {
        self.0.as_str().to_owned()
    }

    /// The number's text, borrowed.
    pub fn as_str(&self) -> (r: &str)
        ensures
            r@ == self@,
    {
        self.0.as_str()
    }
}

impl core::str::FromStr for TaxNumber {
    type Err = String;

    fn from_str(s: &str) -> (r: Result<Self, Self::Err>)
        ensures
            r matches Ok(t) && t@ == s@,
    {
        Ok(TaxNumber::new(s))
    }
}

} // verus!
