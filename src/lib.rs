use vstd::prelude::*;
use vstd::std_specs::convert::TryFromSpec;

verus! {

/// Smallest value a present multiplier setting may hold.
pub const MIN_SETTING: i32 = -25;

/// Largest value a present multiplier setting may hold.
pub const MAX_SETTING: i32 = 99;

/// Whether a raw setting is acceptable: absent, or present within
/// `MIN_SETTING..=MAX_SETTING`.
pub open spec fn accepts(raw: Option<i32>) -> bool {
    match raw {
        None => true,
        Some(v) => MIN_SETTING <= v <= MAX_SETTING,
    }
}

/// Denominator over which `CritMultiplier::multiplier_fraction` states the
/// multiplier.
pub const MULTIPLIER_DENOM: i32 = 102;

/// `num / den` is the multiplier that `raw` stands for: exactly 1 when absent,
/// `v / 51 + 3 / 2` when present with `v`.
pub open spec fn is_multiplier_of(num: int, den: int, raw: Option<i32>) -> bool {
    den > 0 && match raw {
        None => num == den,
        Some(v) => 102 * num == den * (2 * v + 153),
    }
}

/// Why a raw setting was rejected.
#[derive(Debug, Clone, Copy, PartialEq, Eq, Structural)]
pub enum CritMultiplierErr {
    /// The present value lies outside `MIN_SETTING..=MAX_SETTING`.
    OutOfRange(i32),
}

/// A critical-hit multiplier setting: absent, or an integer in
/// `MIN_SETTING..=MAX_SETTING`.
#[derive(Debug, Clone, Copy)]
pub struct CritMultiplier(Option<i32>);

impl View for CritMultiplier {
    type V = Option<i32>;

    closed spec fn view(&self) -> Option<i32> {
        self.0
    }
}

impl Default for CritMultiplier {
    /// The absent setting, which a missing field stands for.
    fn default() -> (r: Self)
        ensures
            r@ == None::<i32>,
    {
        CritMultiplier(None)
    }
}

impl CritMultiplier {
    #[verifier::type_invariant]
    closed spec fn well_formed(self) -> bool {
        accepts(self.0)
    }

    /// The raw setting held, which is also its scalar serialized form.
    pub fn value(&self) -> (r: Option<i32>)
        ensures
            r == self@,
            accepts(r),
    {
        proof {
            use_type_invariant(self);
        }
        self.0
    }

    /// The multiplier as an exact fraction `(num, den)`, with `den` always
    /// `MULTIPLIER_DENOM`.
    pub fn multiplier_fraction(&self) -> (r: (i32, i32))
        ensures
            r.1 == MULTIPLIER_DENOM,
            is_multiplier_of(r.0 as int, r.1 as int, self@),
    {
        proof {
            use_type_invariant(self);
        }
        match self.0 {
            None => (MULTIPLIER_DENOM, MULTIPLIER_DENOM),
            Some(v) => (2 * v + 153, MULTIPLIER_DENOM),
        }
    }
}

impl TryFrom<Option<i32>> for CritMultiplier {
    type Error = CritMultiplierErr;

    /// Validates a raw setting: absent is always accepted, a present value
    /// only within `MIN_SETTING..=MAX_SETTING`.
    fn try_from(value: Option<i32>) -> (r: Result<Self, Self::Error>)
        ensures
            r is Ok <==> accepts(value),
            r matches Ok(c) ==> c@ == value,
            r matches Err(e) ==> value matches Some(v) && e == CritMultiplierErr::OutOfRange(v),
    {
        match value {
            None => Ok(CritMultiplier(value)),
            Some(x) => {
                if MIN_SETTING <= x && x <= MAX_SETTING {
                    Ok(CritMultiplier(value))
                } else {
                    Err(CritMultiplierErr::OutOfRange(x))
                }
            },
        }
    }
}

impl vstd::std_specs::convert::TryFromSpecImpl<Option<i32>> for CritMultiplier {
    open spec fn obeys_try_from_spec() -> bool {
        true
    }

    closed spec fn try_from_spec(value: Option<i32>) -> Result<Self, CritMultiplierErr> {
        match value {
            Some(v) if !accepts(value) => Err(CritMultiplierErr::OutOfRange(v)),
            _ => Ok(CritMultiplier(value)),
        }
    }
}

/// Every value within range is accepted as it is, and its multiplier is
/// `v / 51 + 3 / 2`.
pub proof fn lemma_in_range_accepted(v: i32)
    requires
        MIN_SETTING <= v <= MAX_SETTING,
    ensures
        accepts(Some(v)),
        CritMultiplier::try_from_spec(Some(v)) matches Ok(c) && c@ == Some(v),
        is_multiplier_of(2 * v + 153, MULTIPLIER_DENOM as int, Some(v)),
{
}

/// Every value out of range is rejected, and the error names that value.
pub proof fn lemma_out_of_range_rejected(v: i32)
    requires
        v < MIN_SETTING || v > MAX_SETTING,
    ensures
        !accepts(Some(v)),
        CritMultiplier::try_from_spec(Some(v)) == Err::<CritMultiplier, _>(
            CritMultiplierErr::OutOfRange(v),
        ),
{
}

/// The absent setting is always accepted, encodes as absent, and its
/// multiplier is exactly 1.
pub proof fn lemma_absent_accepted()
    ensures
        accepts(None),
        CritMultiplier::try_from_spec(None) matches Ok(c) && c@ == None::<i32>,
        is_multiplier_of(MULTIPLIER_DENOM as int, MULTIPLIER_DENOM as int, None),
{
}

/// Decoding the raw setting that a value encodes to gives back that same
/// value, so its multiplier is unchanged.
pub proof fn lemma_round_trip(c: CritMultiplier)
    requires
        accepts(c@),
    ensures
        CritMultiplier::try_from_spec(c@) == Ok::<CritMultiplier, CritMultiplierErr>(c),
{
}

} // verus!
