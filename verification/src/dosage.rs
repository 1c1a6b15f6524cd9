//! A dose: one mass, kept as a single canonical magnitude.
//!
//! The magnitude is a binary64 number of kilograms, held as its bit pattern.
//! No unit is kept beside it: a unit is chosen when a dose is read in or
//! shown, never stored.

use crate::binary64::{decode, is_at_least_one, numerically_equal, Number};
use crate::unit::Unit;
use vstd::arithmetic::power2::lemma_pow2_pos;
use vstd::prelude::*;
use vstd::std_specs::cmp::PartialEqSpec;
use vstd::string::StringExecFns;

verus! {

/// A mass, as its canonical magnitude in kilograms.
///
/// Any magnitude is a dose: negative ones, zero, the infinities and NaN are
/// all carried as they are.
#[derive(Clone, Copy, Debug)]
pub struct Dosage {
    kilograms: u64,
}

impl View for Dosage {
    type V = u64;

    /// The bit pattern of the canonical magnitude.
    closed spec fn view(&self) -> u64 {
        self.kilograms
    }
}

impl Dosage {
    /// The number of kilograms that the dose amounts to.
    pub open spec fn magnitude(self) -> Number {
        decode(self@)
    }

    /// The dose with the given canonical magnitude. This is how a stored dose
    /// is read back: no unit label is involved.
    pub fn from_canonical(kilograms: u64) -> (dose: Dosage)
        ensures
            dose@ == kilograms,
    {
        Dosage { kilograms }
    }

    /// The canonical magnitude: the one number that is stored for a dose.
    pub fn canonical(&self) -> (kilograms: u64)
        ensures
            kilograms == self@,
    {
        self.kilograms
    }

    /// A dose is its canonical magnitude and nothing more: two doses with the
    /// same pattern are the same dose.
    pub proof fn lemma_same_pattern(self, other: Dosage)
        requires
            self@ == other@,
        ensures
            self == other,
    {
    }

    /// Storing a dose and reading it back gives the dose that was stored.
    ///
    /// `back` is what `from_canonical` makes of what `canonical` gave for
    /// `self`. It is the same dose, pattern for pattern, and compares equal
    /// to it unless the magnitude is a NaN, which equals nothing.
    pub proof fn lemma_round_trip(self, back: Dosage)
        requires
            back@ == self@,
        ensures
            back == self,
            back.eq_spec(&self) <==> !(self.magnitude() is NotANumber),
    {
    }

    /// Equality of doses is symmetric.
    pub proof fn lemma_eq_symmetric(self, other: Dosage)
        ensures
            self.eq_spec(&other) == other.eq_spec(&self),
    {
    }

    /// Equality of doses is transitive.
    pub proof fn lemma_eq_transitive(self, middle: Dosage, other: Dosage)
        requires
            self.eq_spec(&middle),
            middle.eq_spec(&other),
        ensures
            self.eq_spec(&other),
    {
    }
}

impl PartialEq for Dosage {
    /// Two doses are equal when their canonical magnitudes are equal numbers.
    fn eq(&self, other: &Dosage) -> (r: bool) {
        numerically_equal(self.kilograms, other.kilograms)
    }
}

impl vstd::std_specs::cmp::PartialEqSpecImpl for Dosage {
    open spec fn obeys_eq_spec() -> bool {
        true
    }

    open spec fn eq_spec(&self, other: &Dosage) -> bool {
        self.magnitude().equals(other.magnitude())
    }
}

/// The unit a dose is shown in, given how many kilograms and how many grams
/// it amounts to: the largest unit of which it is one or more, milligrams
/// where there is none.
pub open spec fn shown_in(kilograms: Number, grams: Number) -> Unit {
    if kilograms.at_least_one() {
        Unit::Kilogram
    } else if grams.at_least_one() {
        Unit::Gram
    } else {
        Unit::Milligram
    }
}

/// Equal readings are shown in the same unit: the choice goes by the numbers,
/// not by the patterns that encode them.
pub proof fn lemma_equal_readings_shown_alike(
    kilograms: Number,
    grams: Number,
    other_kilograms: Number,
    other_grams: Number,
)
    requires
        kilograms.equals(other_kilograms),
        grams.equals(other_grams),
    ensures
        shown_in(kilograms, grams) == shown_in(other_kilograms, other_grams),
{
    lemma_pow2_pos(1074);
}

/// Chooses the unit to show a dose in from its readings in kilograms and in
/// grams, each a binary64 pattern.
///
/// Kilograms where the first reading is one or more, else grams where the
/// second is, else milligrams: so for zero, for anything negative and for NaN.
pub fn display_unit(kilograms: u64, grams: u64) -> (unit: Unit)
    ensures
        unit == shown_in(decode(kilograms), decode(grams)),
{
    if is_at_least_one(kilograms) {
        Unit::Kilogram
    } else if is_at_least_one(grams) {
        Unit::Gram
    } else {
        Unit::Milligram
    }
}

/// Puts a shown dose together: the value as it was formatted, a space, and
/// the unit's abbreviation.
///
/// The value is the reading in `unit`, which the caller has written out with
/// two decimal places; it is taken as it is.
pub fn render(value: &str, unit: Unit) -> (text: String)
    ensures
        text@ == value@ + " "@ + unit.symbol_text(),
{
    String::from_str(value).concat(" ").concat(unit.symbol())
}

} // verus!
