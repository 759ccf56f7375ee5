use vstd::prelude::*;

verus! {

/// The five temperature tiers, each shown with its own symbol.
#[derive(Clone, Copy, Debug, PartialEq, Eq, Structural)]
pub enum TemperatureTier {
    Freezing,
    Cold,
    Mild,
    Warm,
    Hot,
}

/// The tier of a temperature given in hundredths of a degree Celsius,
/// rounded down. Thresholds are checked in order, first match wins; every
/// threshold is a whole number of degrees, so a temperature rounded down to
/// hundredths lands in the same tier as the exact value.
pub open spec fn tier_of(hundredths: int) -> TemperatureTier {
    if hundredths < 0 {
        TemperatureTier::Freezing
    } else if hundredths < 1000 {
        TemperatureTier::Cold
    } else if hundredths < 2000 {
        TemperatureTier::Mild
    } else if hundredths < 3000 {
        TemperatureTier::Warm
    } else {
        TemperatureTier::Hot
    }
}

/// Picks the tier of a temperature given in hundredths of a degree.
pub fn temperature_tier(hundredths: i64) -> (r: TemperatureTier)
    ensures
        r == tier_of(hundredths as int),
        (r == TemperatureTier::Freezing) <==> hundredths < 0,
        (r == TemperatureTier::Cold) <==> 0 <= hundredths < 1000,
        (r == TemperatureTier::Mild) <==> 1000 <= hundredths < 2000,
        (r == TemperatureTier::Warm) <==> 2000 <= hundredths < 3000,
        (r == TemperatureTier::Hot) <==> 3000 <= hundredths,
{
    if hundredths < 0 {
        TemperatureTier::Freezing
    } else if hundredths < 1000 {
        TemperatureTier::Cold
    } else if hundredths < 2000 {
        TemperatureTier::Mild
    } else if hundredths < 3000 {
        TemperatureTier::Warm
    } else {
        TemperatureTier::Hot
    }
}

impl TemperatureTier {
    /// The symbol printed for this tier.
    pub open spec fn spec_emoji(self) -> Seq<char> {
        match self {
            TemperatureTier::Freezing => "\u{2744}\u{fe0f}"@,
            TemperatureTier::Cold => "\u{2601}\u{fe0f}"@,
            TemperatureTier::Mild => "\u{26c5}"@,
            TemperatureTier::Warm => "\u{1f324}\u{fe0f}"@,
            TemperatureTier::Hot => "\u{1f525}"@,
        }
    }

    pub fn emoji(&self) -> (r: &'static str)
        ensures
            r@ == self.spec_emoji(),
    {
        match self {
            TemperatureTier::Freezing => "\u{2744}\u{fe0f}",
            TemperatureTier::Cold => "\u{2601}\u{fe0f}",
            TemperatureTier::Mild => "\u{26c5}",
            TemperatureTier::Warm => "\u{1f324}\u{fe0f}",
            TemperatureTier::Hot => "\u{1f525}",
        }
    }
}

/// The symbol for a temperature given in hundredths of a degree, rounded down.
pub fn emoji_for_temperature(hundredths: i64) -> (r: &'static str)
    ensures
        r@ == tier_of(hundredths as int).spec_emoji(),
{
    temperature_tier(hundredths).emoji()
}

/// The five symbols differ from one another, so the symbol shown names the tier.
pub proof fn lemma_emoji_distinct(a: TemperatureTier, b: TemperatureTier)
    ensures
        a.spec_emoji() == b.spec_emoji() <==> a == b,
{
    reveal_strlit("\u{2744}\u{fe0f}");
    reveal_strlit("\u{2601}\u{fe0f}");
    reveal_strlit("\u{26c5}");
    reveal_strlit("\u{1f324}\u{fe0f}");
    reveal_strlit("\u{1f525}");
    if a.spec_emoji() == b.spec_emoji() && a != b {
        assert(a.spec_emoji()[0] == b.spec_emoji()[0]);
    }
}

} // verus!
