use vstd::prelude::*;

verus! {

/// One entry of the ISO 3166-1 table.
#[derive(Clone, Debug, PartialEq, Eq, Hash)]
pub struct CountryCode {
    /// Two uppercase ASCII letters.
    pub alpha2: String,
    /// Three uppercase ASCII letters.
    pub alpha3: String,
    /// English short name.
    pub name: String,
    /// Three ASCII digits, zero-padded.
    pub num: String,
}

/// The fields of a record as character sequences.
pub struct CountryView {
    pub alpha2: Seq<char>,
    pub alpha3: Seq<char>,
    pub name: Seq<char>,
    pub num: Seq<char>,
}

impl View for CountryCode {
    type V = CountryView;

    open spec fn view(&self) -> CountryView {
        CountryView {
            alpha2: self.alpha2@,
            alpha3: self.alpha3@,
            name: self.name@,
            num: self.num@,
        }
    }
}

} // verus!
