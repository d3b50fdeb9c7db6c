use vstd::prelude::*;

verus! {

/// Counts down from a 3-bit maximum and reloads, at once when asked to.
#[derive(Clone, Copy, Debug, PartialEq, Eq, Structural)]
pub struct Divider {
    /// 3 bits.
    pub max: u8,
    /// 3 bits.
    pub index: u8,
    pub should_reload: bool,
}

impl Default for Divider {
    fn default() -> (divider: Self)
        ensures divider == (Divider { max: 0, index: 0, should_reload: false }),
    {
        Divider { max: 0, index: 0, should_reload: false }
    }
}

impl Divider {
    /// The maximum and the index fit in 3 bits.
    pub open spec fn inv(self) -> bool {
        self.max < 8 && self.index < 8
    }

    pub fn is_zero(&self) -> (zero: bool)
        ensures zero == (self.index == 0),
    {
        self.index == 0
    }

    pub fn set_max(&mut self, max: u8)
        requires max < 8,
        ensures *final(self) == (Divider { max, ..*old(self) }),
    {
        self.max = max;
    }

    pub fn prepare_to_reload(&mut self)
        ensures *final(self) == (Divider { should_reload: true, ..*old(self) }),
    {
        self.should_reload = true;
    }

    /// Reloads the maximum when at zero or asked to, otherwise counts down.
    pub fn tick(&mut self)
        requires old(self).inv(),
        ensures
            final(self).inv(),
            *final(self) == if old(self).index == 0 || old(self).should_reload {
                Divider { should_reload: false, index: old(self).max, ..*old(self) }
            } else {
                Divider { index: (old(self).index - 1) as u8, ..*old(self) }
            },
    {
        if self.index == 0 || self.should_reload {
            self.should_reload = false;
            self.index = self.max;
        } else {
            self.index = self.index - 1;
        }
    }
}

/// How a sweep negates its change: pulse 1 takes the ones' complement (one more than the
/// change), pulse 2 the two's complement.
#[derive(PartialEq, Eq, Clone, Copy, Debug, Structural)]
pub enum NegateBehavior {
    OnesComplement,
    TwosComplement,
}

impl NegateBehavior {
    /// The amount to subtract for an 11-bit change.
    pub fn magnitude(self, value: u16) -> (magnitude: u16)
        requires
            value < 2048,
            self == NegateBehavior::OnesComplement ==> value < 2047,
        ensures
            magnitude == match self {
                NegateBehavior::OnesComplement => value + 1,
                NegateBehavior::TwosComplement => value as int,
            },
    {
        match self {
            NegateBehavior::OnesComplement => value + 1,
            NegateBehavior::TwosComplement => value,
        }
    }
}

} // verus!
