//! Masses and distances in the units a person reads: kilograms or pounds,
//! kilometres or miles, each shown with two decimal places.
use crate::errors::Error;
use crate::formats::numerals::{
    fit64, fixed_text, lemma_pow10_add, lemma_pow10_positive, lemma_pow10_small,
    lemma_pow10_up_to_18, lemma_scaled_of_fixed_text, parse_scaled_chars, pow10, push_fixed,
    round_half_even, scale_up, scaled_of_text,
};
use crate::si::{Kilogram, Meter};
use crate::strings::chars_of;
use vstd::prelude::*;
use vstd::string::StringExecFns;

verus! {

/// Units of mass in a hundredth of a kilogram.
pub const KILOGRAM_STEP: u64 = 100_000_000;

/// Units of mass in a hundredth of a pound.
pub const POUND_STEP: u64 = 45_359_237;

/// Units of length in a hundredth of a kilometre.
pub const KILOMETER_STEP: u64 = 1_000_000;

/// Units of length in a hundredth of a mile.
pub const MILE_STEP: u64 = 1_609_344;

/// The decimals to which a mass is read.
pub const MASS_PLACES: u32 = 10;

/// The decimals to which a distance is read.
pub const DISTANCE_PLACES: u32 = 8;

/// The system of units that quantities are shown and entered in.
#[derive(Clone, Copy, Debug, PartialEq, Eq, Structural)]
pub enum UnitSystem {
    SI,
    USA,
}

/// The text of a quantity of `units` in a display unit whose hundredth is
/// `step` units: the nearest hundredth (ties to even), with two decimals.
pub open spec fn quantity_text(units: nat, step: nat) -> Seq<char> {
    fixed_text(round_half_even(units, step), 2)
}

/// The quantity, in units, that a text in a display unit stands for, where
/// a hundredth of the display unit is `step` units: a decimal numeral, read
/// to `places` decimals and then to the nearest unit, each time with a tie
/// going to the even side. `None` for text that is no decimal numeral or a
/// quantity beyond 64 bits.
pub open spec fn quantity_of_text(s: Seq<char>, step: nat, places: nat) -> Option<u64> {
    match scaled_of_text(s, places) {
        Some(n) => fit64(round_half_even(n * (step * 100), pow10(places))),
        None => None,
    }
}

/// The mass that a text in a display unit stands for: masses are read to
/// ten decimals, which is every unit of a kilogram.
pub open spec fn mass_of_text(s: Seq<char>, step: nat) -> Option<u64> {
    quantity_of_text(s, step, MASS_PLACES as nat)
}

/// The distance that a text in a display unit stands for: distances are
/// read to eight decimals, which is every unit of a kilometre.
pub open spec fn distance_of_text(s: Seq<char>, step: nat) -> Option<u64> {
    quantity_of_text(s, step, DISTANCE_PLACES as nat)
}

/// The unit system that a name stands for: `SI` or `USA`, nothing else.
pub open spec fn unit_system_of_text(s: Seq<char>) -> Option<UnitSystem> {
    if s == seq!['S', 'I'] {
        Some(UnitSystem::SI)
    } else if s == seq!['U', 'S', 'A'] {
        Some(UnitSystem::USA)
    } else {
        None
    }
}

/// `n / q` rounded to the nearest whole number, a tie going to the even one.
pub fn round_to_step(n: u64, q: u64) -> (r: u64)
    requires
        q > 0,
    ensures
        r == round_half_even(n as nat, q as nat),
{
    let floor = n / q;
    let rest = n % q;
    let other = q - rest;
    if rest < other {
        floor
    } else if rest > other || floor % 2 == 1 {
        assert(q >= 2);
        assert(floor < u64::MAX) by (nonlinear_arith)
            requires
                floor == n / q,
                q >= 2,
                n <= u64::MAX,
        ;
        floor + 1
    } else {
        floor
    }
}

/// Appends the two-decimal text of `units` in a display unit of hundredth `step`.
pub fn push_quantity(out: &mut String, units: u64, step: u64)
    requires
        step > 0,
    ensures
        final(out)@ == old(out)@ + quantity_text(units as nat, step as nat),
{
    push_fixed(out, round_to_step(units, step), 2);
}

/// `n / q` rounded to the nearest whole number, a tie going to the even one.
pub fn round_div(n: u128, q: u128) -> (r: u128)
    requires
        q > 0,
    ensures
        r == round_half_even(n as nat, q as nat),
{
    let floor = n / q;
    let rest = n % q;
    let other = q - rest;
    if rest < other {
        floor
    } else if rest > other || floor % 2 == 1 {
        assert(q >= 2);
        assert(floor < u128::MAX) by (nonlinear_arith)
            requires
                floor == n / q,
                q >= 2,
                n <= u128::MAX,
        ;
        floor + 1
    } else {
        floor
    }
}

/// A quantity whose count in shown units is beyond 128 bits is beyond 64
/// bits in storage units.
pub proof fn lemma_beyond(product: nat, places: nat)
    requires
        product > u128::MAX,
        places <= 18,
    ensures
        round_half_even(product, pow10(places)) > u64::MAX,
{
    lemma_pow10_up_to_18(places);
    let q = pow10(places);
    let bound: nat = 0x1_0000_0000_0000_0000;
    assert(bound * q <= product) by (nonlinear_arith)
        requires
            bound == 0x1_0000_0000_0000_0000,
            q <= 1_000_000_000_000_000_000,
            product > 0xffff_ffff_ffff_ffff_ffff_ffff_ffff_ffff,
    ;
    assert(product / q >= bound) by (nonlinear_arith)
        requires
            bound * q <= product,
            q > 0,
    ;
}

/// Reads a text in a display unit of hundredth `step`, to `places` decimals
/// and then to the nearest unit.
pub fn parse_quantity(inp: &str, step: u64, places: u32) -> (r: Option<u64>)
    requires
        step > 0,
        places <= 18,
    ensures
        r == quantity_of_text(inp@, step as nat, places as nat),
{
    let v = chars_of(inp);
    assert(v@.subrange(0, v@.len() as int) =~= inp@);
    let ghost reading = scaled_of_text(inp@, places as nat);
    let per: u128 = step as u128 * 100;
    proof {
        lemma_pow10_up_to_18(places as nat);
        assert(1 * pow10(places as nat) == pow10(places as nat)) by (nonlinear_arith);
        if let Some(m) = reading {
            if m > u128::MAX {
                assert(m * (step * 100) > u128::MAX) by (nonlinear_arith)
                    requires
                        m > u128::MAX,
                        step >= 1,
                ;
                lemma_beyond(m * (step as nat * 100), places as nat);
            }
        }
    }
    let n = match parse_scaled_chars(&v, 0, v.len(), places) {
        Some(n) => n,
        None => {
            return None;
        },
    };
    if n > u128::MAX / per {
        proof {
            assert(n * per > u128::MAX) by (nonlinear_arith)
                requires
                    n > u128::MAX / per,
                    per > 0,
            ;
            lemma_beyond(n as nat * (step as nat * 100), places as nat);
        }
        return None;
    }
    assert(n * per <= u128::MAX) by (nonlinear_arith)
        requires
            n <= u128::MAX / per,
            per > 0,
    ;
    let unit = match scale_up(1, places) {
        Some(unit) => unit,
        None => unreached(),
    };
    let units = round_div(n * per, unit);
    if units <= u64::MAX as u128 {
        Some(units as u64)
    } else {
        None
    }
}

/// A quantity that is a whole number of hundredths of its display unit
/// survives being written and read back.
pub proof fn lemma_quantity_round_trip(units: u64, step: u64, places: nat)
    requires
        step > 0,
        units % step == 0,
        2 <= places,
    ensures
        quantity_of_text(quantity_text(units as nat, step as nat), step as nat, places) == Some(
            units,
        ),
{
    let h = (units / step) as nat;
    assert(units == step * h) by {
        vstd::arithmetic::div_mod::lemma_fundamental_div_mod(units as int, step as int);
    }
    assert(round_half_even(units as nat, step as nat) == h);
    lemma_scaled_of_fixed_text(h, 2, places);
    lemma_pow10_add((places - 2) as nat, 2);
    lemma_pow10_small();
    lemma_pow10_positive(places);
    let q = pow10(places);
    let n = h * pow10((places - 2) as nat);
    assert(n * (step as nat * 100) == units as nat * q) by (nonlinear_arith)
        requires
            n == h * pow10((places - 2) as nat),
            q == pow10((places - 2) as nat) * 100,
            units == step * h,
    ;
    vstd::arithmetic::div_mod::lemma_div_multiples_vanish(units as int, q as int);
    vstd::arithmetic::div_mod::lemma_mod_multiples_basic(units as int, q as int);
    assert((units as nat * q) / q == units);
    assert((units as nat * q) % q == 0);
}

impl UnitSystem {
    /// The name under which the system is stored: `SI` or `USA`.
    pub open spec fn name_text(self) -> Seq<char> {
        match self {
            UnitSystem::SI => seq!['S', 'I'],
            UnitSystem::USA => seq!['U', 'S', 'A'],
        }
    }

    /// The name under which the system is stored.
    pub fn name(&self) -> (text: String)
        ensures
            text@ == self.name_text(),
    {
        proof {
            reveal_strlit("SI");
            reveal_strlit("USA");
        }
        let text = match self {
            UnitSystem::SI => String::from_str("SI"),
            UnitSystem::USA => String::from_str("USA"),
        };
        assert(text@ =~= self.name_text());
        text
    }

    /// Reads a stored name; fails with `ParseUnitsError` on any other text.
    pub fn try_from(s: &str) -> (r: Result<UnitSystem, Error>)
        ensures
            r == (match unit_system_of_text(s@) {
                Some(units) => Ok::<UnitSystem, Error>(units),
                None => Err(Error::ParseUnitsError),
            }),
    {
        let v = chars_of(s);
        if v.len() == 2 && v[0] == 'S' && v[1] == 'I' {
            assert(s@ =~= seq!['S', 'I']);
            Ok(UnitSystem::SI)
        } else if v.len() == 3 && v[0] == 'U' && v[1] == 'S' && v[2] == 'A' {
            assert(s@ =~= seq!['U', 'S', 'A']);
            Ok(UnitSystem::USA)
        } else {
            Err(Error::ParseUnitsError)
        }
    }

    /// Units of mass in a hundredth of this system's unit of mass.
    pub open spec fn mass_step(self) -> nat {
        match self {
            UnitSystem::SI => KILOGRAM_STEP as nat,
            UnitSystem::USA => POUND_STEP as nat,
        }
    }

    /// Units of length in a hundredth of this system's unit of distance.
    pub open spec fn distance_step(self) -> nat {
        match self {
            UnitSystem::SI => KILOMETER_STEP as nat,
            UnitSystem::USA => MILE_STEP as nat,
        }
    }

    /// A mass in kilograms or pounds, with two decimals.
    pub fn render_mass(&self, inp: Kilogram) -> (text: String)
        ensures
            text@ == quantity_text(inp.units as nat, self.mass_step()),
    {
        match self {
            UnitSystem::SI => Kilograms::new(inp).render(),
            UnitSystem::USA => Pounds::new(inp).render(),
        }
    }

    /// Reads a mass in kilograms or pounds; `ParseMassError` on failure.
    pub fn parse_mass(&self, inp: &str) -> (r: Result<Kilogram, Error>)
        ensures
            r == (match mass_of_text(inp@, self.mass_step()) {
                Some(units) => Ok::<Kilogram, Error>(Kilogram { units }),
                None => Err(Error::ParseMassError),
            }),
    {
        match self {
            UnitSystem::SI => match Kilograms::try_from(inp) {
                Ok(v) => Ok(v.extract()),
                Err(e) => Err(e),
            },
            UnitSystem::USA => match Pounds::try_from(inp) {
                Ok(v) => Ok(v.extract()),
                Err(e) => Err(e),
            },
        }
    }

    /// A distance in kilometres or miles, with two decimals.
    pub fn render_distance(&self, inp: Meter) -> (text: String)
        ensures
            text@ == quantity_text(inp.units as nat, self.distance_step()),
    {
        match self {
            UnitSystem::SI => Kilometers::new(inp).render(),
            UnitSystem::USA => Miles::new(inp).render(),
        }
    }

    /// Reads a distance in kilometres or miles; `ParseDistanceError` on failure.
    pub fn parse_distance(&self, inp: &str) -> (r: Result<Meter, Error>)
        ensures
            r == (match distance_of_text(inp@, self.distance_step()) {
                Some(units) => Ok::<Meter, Error>(Meter { units }),
                None => Err(Error::ParseDistanceError),
            }),
    {
        match self {
            UnitSystem::SI => match Kilometers::try_from(inp) {
                Ok(v) => Ok(v.extract()),
                Err(e) => Err(e),
            },
            UnitSystem::USA => match Miles::try_from(inp) {
                Ok(v) => Ok(v.extract()),
                Err(e) => Err(e),
            },
        }
    }
}

/// A mass shown in kilograms.
#[derive(Clone, Copy, Debug, PartialEq, Eq, Structural)]
pub struct Kilograms {
    pub val: Kilogram,
    pub with_units: bool,
}

/// A mass shown in pounds.
#[derive(Clone, Copy, Debug, PartialEq, Eq, Structural)]
pub struct Pounds {
    pub val: Kilogram,
    pub with_units: bool,
}

/// A distance shown in kilometres.
#[derive(Clone, Copy, Debug, PartialEq, Eq, Structural)]
pub struct Kilometers {
    pub val: Meter,
    pub with_units: bool,
}

/// A distance shown in miles.
#[derive(Clone, Copy, Debug, PartialEq, Eq, Structural)]
pub struct Miles {
    pub val: Meter,
    pub with_units: bool,
}

impl Kilograms {
    /// The text of the mass: the number, then ` kg` where the unit is shown.
    pub open spec fn text(self) -> Seq<char> {
        quantity_text(self.val.units as nat, KILOGRAM_STEP as nat) + (if self.with_units {
            seq![' ', 'k', 'g']
        } else {
            Seq::<char>::empty()
        })
    }

    /// A mass to show in kilograms, without the unit's name.
    pub fn new(val: Kilogram) -> (k: Kilograms)
        ensures
            k.val == val,
            !k.with_units,
    {
        Kilograms { val, with_units: false }
    }

    /// The mass inside.
    pub fn extract(self) -> (val: Kilogram)
        ensures
            val == self.val,
    {
        self.val
    }

    /// The mass in kilograms, with two decimals.
    pub fn render(&self) -> (text: String)
        ensures
            text@ == self.text(),
    {
        let mut out = String::new();
        push_quantity(&mut out, self.val.units, KILOGRAM_STEP);
        if self.with_units {
            proof {
                reveal_strlit(" kg");
            }
            out.append(" kg");
        }
        assert(out@ =~= self.text());
        out
    }

    /// Reads a mass in kilograms; fails with `ParseMassError` on text that is
    /// no decimal numeral.
    pub fn try_from(inp: &str) -> (r: Result<Kilograms, Error>)
        ensures
            r == (match mass_of_text(inp@, KILOGRAM_STEP as nat) {
                Some(units) => Ok::<Kilograms, Error>(
                    (Kilograms { val: Kilogram { units }, with_units: false }),
                ),
                None => Err(Error::ParseMassError),
            }),
    {
        match parse_quantity(inp, KILOGRAM_STEP, MASS_PLACES) {
            Some(units) => Ok(Kilograms::new(Kilogram { units })),
            None => Err(Error::ParseMassError),
        }
    }
}

impl Pounds {
    /// The text of the mass: the number, then ` lbs` where the unit is shown.
    pub open spec fn text(self) -> Seq<char> {
        quantity_text(self.val.units as nat, POUND_STEP as nat) + (if self.with_units {
            seq![' ', 'l', 'b', 's']
        } else {
            Seq::<char>::empty()
        })
    }

    /// A mass to show in pounds, without the unit's name.
    pub fn new(val: Kilogram) -> (p: Pounds)
        ensures
            p.val == val,
            !p.with_units,
    {
        Pounds { val, with_units: false }
    }

    /// The mass inside.
    pub fn extract(self) -> (val: Kilogram)
        ensures
            val == self.val,
    {
        self.val
    }

    /// The mass in pounds, with two decimals.
    pub fn render(&self) -> (text: String)
        ensures
            text@ == self.text(),
    {
        let mut out = String::new();
        push_quantity(&mut out, self.val.units, POUND_STEP);
        if self.with_units {
            proof {
                reveal_strlit(" lbs");
            }
            out.append(" lbs");
        }
        assert(out@ =~= self.text());
        out
    }

    /// Reads a mass in pounds; fails with `ParseMassError` on text that is no
    /// decimal numeral.
    pub fn try_from(inp: &str) -> (r: Result<Pounds, Error>)
        ensures
            r == (match mass_of_text(inp@, POUND_STEP as nat) {
                Some(units) => Ok::<Pounds, Error>(
                    (Pounds { val: Kilogram { units }, with_units: false }),
                ),
                None => Err(Error::ParseMassError),
            }),
    {
        match parse_quantity(inp, POUND_STEP, MASS_PLACES) {
            Some(units) => Ok(Pounds::new(Kilogram { units })),
            None => Err(Error::ParseMassError),
        }
    }
}

impl Kilometers {
    /// The text of the distance: the number, then ` km` where the unit is shown.
    pub open spec fn text(self) -> Seq<char> {
        quantity_text(self.val.units as nat, KILOMETER_STEP as nat) + (if self.with_units {
            seq![' ', 'k', 'm']
        } else {
            Seq::<char>::empty()
        })
    }

    /// A distance to show in kilometres, without the unit's name.
    pub fn new(val: Meter) -> (k: Kilometers)
        ensures
            k.val == val,
            !k.with_units,
    {
        Kilometers { val, with_units: false }
    }

    /// The distance inside.
    pub fn extract(self) -> (val: Meter)
        ensures
            val == self.val,
    {
        self.val
    }

    /// The distance in kilometres, with two decimals.
    pub fn render(&self) -> (text: String)
        ensures
            text@ == self.text(),
    {
        let mut out = String::new();
        push_quantity(&mut out, self.val.units, KILOMETER_STEP);
        if self.with_units {
            proof {
                reveal_strlit(" km");
            }
            out.append(" km");
        }
        assert(out@ =~= self.text());
        out
    }

    /// Reads a distance in kilometres; fails with `ParseDistanceError` on text
    /// that is no decimal numeral.
    pub fn try_from(inp: &str) -> (r: Result<Kilometers, Error>)
        ensures
            r == (match distance_of_text(inp@, KILOMETER_STEP as nat) {
                Some(units) => Ok::<Kilometers, Error>(
                    (Kilometers { val: Meter { units }, with_units: false }),
                ),
                None => Err(Error::ParseDistanceError),
            }),
    {
        match parse_quantity(inp, KILOMETER_STEP, DISTANCE_PLACES) {
            Some(units) => Ok(Kilometers::new(Meter { units })),
            None => Err(Error::ParseDistanceError),
        }
    }
}

impl Miles {
    /// The text of the distance: the number, then ` mi` where the unit is shown.
    pub open spec fn text(self) -> Seq<char> {
        quantity_text(self.val.units as nat, MILE_STEP as nat) + (if self.with_units {
            seq![' ', 'm', 'i']
        } else {
            Seq::<char>::empty()
        })
    }

    /// A distance to show in miles, without the unit's name.
    pub fn new(val: Meter) -> (m: Miles)
        ensures
            m.val == val,
            !m.with_units,
    {
        Miles { val, with_units: false }
    }

    /// The distance inside.
    pub fn extract(self) -> (val: Meter)
        ensures
            val == self.val,
    {
        self.val
    }

    /// The distance in miles, with two decimals.
    pub fn render(&self) -> (text: String)
        ensures
            text@ == self.text(),
    {
        let mut out = String::new();
        push_quantity(&mut out, self.val.units, MILE_STEP);
        if self.with_units {
            proof {
                reveal_strlit(" mi");
            }
            out.append(" mi");
        }
        assert(out@ =~= self.text());
        out
    }

    /// Reads a distance in miles; fails with `ParseDistanceError` on text that
    /// is no decimal numeral.
    pub fn try_from(inp: &str) -> (r: Result<Miles, Error>)
        ensures
            r == (match distance_of_text(inp@, MILE_STEP as nat) {
                Some(units) => Ok::<Miles, Error>(
                    (Miles { val: Meter { units }, with_units: false }),
                ),
                None => Err(Error::ParseDistanceError),
            }),
    {
        match parse_quantity(inp, MILE_STEP, DISTANCE_PLACES) {
            Some(units) => Ok(Miles::new(Meter { units })),
            None => Err(Error::ParseDistanceError),
        }
    }
}

impl std::str::FromStr for Kilograms {
    type Err = Error;

    /// Reads a mass in kilograms as [`Kilograms::try_from`] does.
    fn from_str(inp: &str) -> (r: Result<Self, Self::Err>)
        ensures
            r == (match mass_of_text(inp@, KILOGRAM_STEP as nat) {
                Some(units) => Ok::<Kilograms, Error>(
                    (Kilograms { val: Kilogram { units }, with_units: false }),
                ),
                None => Err(Error::ParseMassError),
            }),
    {
        Kilograms::try_from(inp)
    }
}

impl std::str::FromStr for Pounds {
    type Err = Error;

    /// Reads a mass in pounds as [`Pounds::try_from`] does.
    fn from_str(inp: &str) -> (r: Result<Self, Self::Err>)
        ensures
            r == (match mass_of_text(inp@, POUND_STEP as nat) {
                Some(units) => Ok::<Pounds, Error>(
                    (Pounds { val: Kilogram { units }, with_units: false }),
                ),
                None => Err(Error::ParseMassError),
            }),
    {
        Pounds::try_from(inp)
    }
}

impl std::str::FromStr for Kilometers {
    type Err = Error;

    /// Reads a distance in kilometres as [`Kilometers::try_from`] does.
    fn from_str(inp: &str) -> (r: Result<Self, Self::Err>)
        ensures
            r == (match distance_of_text(inp@, KILOMETER_STEP as nat) {
                Some(units) => Ok::<Kilometers, Error>(
                    (Kilometers { val: Meter { units }, with_units: false }),
                ),
                None => Err(Error::ParseDistanceError),
            }),
    {
        Kilometers::try_from(inp)
    }
}

impl std::str::FromStr for Miles {
    type Err = Error;

    /// Reads a distance in miles as [`Miles::try_from`] does.
    fn from_str(inp: &str) -> (r: Result<Self, Self::Err>)
        ensures
            r == (match distance_of_text(inp@, MILE_STEP as nat) {
                Some(units) => Ok::<Miles, Error>(
                    (Miles { val: Meter { units }, with_units: false }),
                ),
                None => Err(Error::ParseDistanceError),
            }),
    {
        Miles::try_from(inp)
    }
}


/// A mass that is a whole number of hundredths of a kilogram reads back
/// from its text as itself.
pub proof fn lemma_kilograms_round_trip(k: Kilograms)
    requires
        !k.with_units,
        k.val.units % KILOGRAM_STEP == 0,
    ensures
        mass_of_text(k.text(), KILOGRAM_STEP as nat) == Some(k.val.units),
{
    lemma_quantity_round_trip(k.val.units, KILOGRAM_STEP, MASS_PLACES as nat);
    assert(k.text() =~= quantity_text(k.val.units as nat, KILOGRAM_STEP as nat));
}

/// A mass that is a whole number of hundredths of a pound reads back from
/// its text as itself.
pub proof fn lemma_pounds_round_trip(p: Pounds)
    requires
        !p.with_units,
        p.val.units % POUND_STEP == 0,
    ensures
        mass_of_text(p.text(), POUND_STEP as nat) == Some(p.val.units),
{
    lemma_quantity_round_trip(p.val.units, POUND_STEP, MASS_PLACES as nat);
    assert(p.text() =~= quantity_text(p.val.units as nat, POUND_STEP as nat));
}

/// A distance that is a whole number of hundredths of a kilometre reads back
/// from its text as itself.
pub proof fn lemma_kilometers_round_trip(k: Kilometers)
    requires
        !k.with_units,
        k.val.units % KILOMETER_STEP == 0,
    ensures
        distance_of_text(k.text(), KILOMETER_STEP as nat) == Some(k.val.units),
{
    lemma_quantity_round_trip(k.val.units, KILOMETER_STEP, DISTANCE_PLACES as nat);
    assert(k.text() =~= quantity_text(k.val.units as nat, KILOMETER_STEP as nat));
}

/// A distance that is a whole number of hundredths of a mile reads back from
/// its text as itself.
pub proof fn lemma_miles_round_trip(m: Miles)
    requires
        !m.with_units,
        m.val.units % MILE_STEP == 0,
    ensures
        distance_of_text(m.text(), MILE_STEP as nat) == Some(m.val.units),
{
    lemma_quantity_round_trip(m.val.units, MILE_STEP, DISTANCE_PLACES as nat);
    assert(m.text() =~= quantity_text(m.val.units as nat, MILE_STEP as nat));
}

/// Reading the name of a unit system gives the system.
pub proof fn lemma_unit_system_round_trip(units: UnitSystem)
    ensures
        unit_system_of_text(units.name_text()) == Some(units),
{
    assert(seq!['S', 'I'].len() == 2);
    assert(seq!['U', 'S', 'A'].len() == 3);
}

} // verus!
