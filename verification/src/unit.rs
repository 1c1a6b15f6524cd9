//! The units a dose may be given or shown in, and the labels that name them.

use vstd::prelude::*;
use vstd::string::{StringExecFns, StringSliceAdditionalSpecFns};
use vstd::utf8::encode_utf8_decode_utf8;

verus! {

/// A unit of mass that the journal accepts and shows.
#[derive(Clone, Copy, Debug, PartialEq, Eq, Structural)]
pub enum Unit {
    Milligram,
    Gram,
    Kilogram,
}

/// Why a dose could not be made.
#[derive(Debug, PartialEq, Eq)]
pub enum DosageError {
    /// The label names no unit; it is kept as it was given.
    UnsupportedUnit(String),
}

/// The lower-case form that `str::to_lowercase` gives a text.
pub uninterp spec fn lowercase(text: Seq<char>) -> Seq<char>;

/// `str::to_lowercase` of the standard library: the lower-case equivalent of
/// a text by Unicode's rules, which depends on the text alone. The contract
/// gives that result a name, [`lowercase`], and claims nothing else of it.
pub assume_specification[ str::to_lowercase ](text: &str) -> (lowered: String)
    ensures
        lowered@ == lowercase(text@),
;

/// Whether two texts hold the same characters.
pub fn same_text(a: &str, b: &str) -> (r: bool)
    ensures
        r == (a@ == b@),
{
    let x = a.as_bytes();
    let y = b.as_bytes();
    proof {
        encode_utf8_decode_utf8(a@);
        encode_utf8_decode_utf8(b@);
    }
    if x.len() != y.len() {
        return false;
    }
    let mut i: usize = 0;
    while i < x.len()
        invariant
            i <= x.len(),
            x.len() == y.len(),
            x@ == a.spec_bytes(),
            y@ == b.spec_bytes(),
            forall|k: int| 0 <= k < i ==> x@[k] == y@[k],
        decreases x.len() - i,
    {
        if x[i] != y[i] {
            return false;
        }
        i += 1;
    }
    assert(x@ =~= y@);
    true
}

impl Unit {
    /// The unit that an alias names. Aliases are written in lower case: the
    /// abbreviation, the full word and its plural.
    pub open spec fn named_by(alias: Seq<char>) -> Option<Unit> {
        if alias == "mg"@ || alias == "milligram"@ || alias == "milligrams"@ {
            Some(Unit::Milligram)
        } else if alias == "g"@ || alias == "gram"@ || alias == "grams"@ {
            Some(Unit::Gram)
        } else if alias == "kg"@ || alias == "kilogram"@ || alias == "kilograms"@ {
            Some(Unit::Kilogram)
        } else {
            None
        }
    }

    /// The abbreviation a unit is shown with.
    pub open spec fn symbol_text(self) -> Seq<char> {
        match self {
            Unit::Milligram => "mg"@,
            Unit::Gram => "g"@,
            Unit::Kilogram => "kg"@,
        }
    }

    /// The abbreviation a unit is shown with is one of the aliases that name
    /// it: what is shown can be read back.
    pub proof fn lemma_symbol_names_unit(self)
        ensures
            Unit::named_by(self.symbol_text()) == Some(self),
    {
        reveal_strlit("mg");
        reveal_strlit("milligram");
        reveal_strlit("milligrams");
        reveal_strlit("g");
        reveal_strlit("gram");
        reveal_strlit("grams");
        reveal_strlit("kg");
        assert("g"@.len() == 1 && "mg"@.len() == 2 && "kg"@.len() == 2);
        assert("milligram"@.len() == 9 && "milligrams"@.len() == 10);
        assert("gram"@.len() == 4 && "grams"@.len() == 5);
        assert("mg"@[0] == 'm' && "kg"@[0] == 'k');
    }

    /// Looks an alias up as it is written, letter case included.
    pub fn from_alias(alias: &str) -> (r: Option<Unit>)
        ensures
            r == Unit::named_by(alias@),
    {
        if same_text(alias, "mg") || same_text(alias, "milligram") || same_text(
            alias,
            "milligrams",
        ) {
            Some(Unit::Milligram)
        } else if same_text(alias, "g") || same_text(alias, "gram") || same_text(alias, "grams") {
            Some(Unit::Gram)
        } else if same_text(alias, "kg") || same_text(alias, "kilogram") || same_text(
            alias,
            "kilograms",
        ) {
            Some(Unit::Kilogram)
        } else {
            None
        }
    }

    /// Resolves a unit label, whatever its letter case.
    ///
    /// The label is put in lower case and looked up among the aliases. A label
    /// that names no unit comes back in the error, unchanged.
    pub fn parse(label: &str) -> (r: Result<Unit, DosageError>)
        ensures
            match r {
                Ok(unit) => Unit::named_by(lowercase(label@)) == Some(unit),
                Err(e) => Unit::named_by(lowercase(label@)) is None && e.label() == label@,
            },
    {
        let lowered = label.to_lowercase();
        match Unit::from_alias(lowered.as_str()) {
            Some(unit) => Ok(unit),
            None => Err(DosageError::UnsupportedUnit(label.to_owned())),
        }
    }

    /// The abbreviation a unit is shown with: `mg`, `g` or `kg`.
    pub fn symbol(self) -> (r: &'static str)
        ensures
            r@ == self.symbol_text(),
    {
        match self {
            Unit::Milligram => "mg",
            Unit::Gram => "g",
            Unit::Kilogram => "kg",
        }
    }
}

impl DosageError {
    /// The label that was refused.
    pub open spec fn label(self) -> Seq<char> {
        match self {
            DosageError::UnsupportedUnit(label) => label@,
        }
    }

    /// The error in words: `Unsupported unit: ` and the label.
    pub fn message(&self) -> (r: String)
        ensures
            r@ == "Unsupported unit: "@ + self.label(),
    {
        match self {
            DosageError::UnsupportedUnit(label) => {
                String::from_str("Unsupported unit: ").concat(label.as_str())
            },
        }
    }
}

} // verus!
