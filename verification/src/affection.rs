//! The six-dimensional affection vector and the six-dimensional negative
//! emotion vector a role keeps towards the player.

use vstd::prelude::*;

use crate::text::str_eq;

verus! {

/// `i32::saturating_add`.
pub open spec fn sat_add(a: i32, d: i32) -> i32 {
    if a + d > i32::MAX {
        i32::MAX
    } else if a + d < i32::MIN {
        i32::MIN
    } else {
        (a + d) as i32
    }
}

/// Integer division rounding towards zero, as Rust's `/` does.
pub open spec fn div_trunc(a: int, b: int) -> int
    recommends
        b > 0,
{
    if a >= 0 {
        a / b
    } else {
        -((-a) / b)
    }
}

/// A role's feelings towards the player; any value is allowed (above 100
/// means overflowing, negative means estranged).
#[derive(Clone, Copy, Debug, PartialEq, Eq, Structural)]
pub struct AffectionVector {
    pub fondness: i32,
    pub trust: i32,
    pub intimacy: i32,
    pub rapport: i32,
    pub interest: i32,
    pub longing: i32,
}

/// Position of an affection dimension by its key, in declaration order.
pub open spec fn affection_index(d: Seq<char>) -> Option<int> {
    if d == "fondness"@ {
        Some(0)
    } else if d == "trust"@ {
        Some(1)
    } else if d == "intimacy"@ {
        Some(2)
    } else if d == "rapport"@ {
        Some(3)
    } else if d == "interest"@ {
        Some(4)
    } else if d == "longing"@ {
        Some(5)
    } else {
        None
    }
}

impl AffectionVector {
    pub open spec fn spec_values(self) -> Seq<i32> {
        seq![self.fondness, self.trust, self.intimacy, self.rapport, self.interest, self.longing]
    }

    pub open spec fn sum(self) -> int {
        self.fondness + self.trust + self.intimacy + self.rapport + self.interest + self.longing
    }

    /// The starting feelings of a new role.
    pub fn default_value() -> (r: Self)
        ensures
            r.spec_values() == seq![10i32, 5, 0, 5, 15, 0],
    {
        AffectionVector { fondness: 10, trust: 5, intimacy: 0, rapport: 5, interest: 15, longing: 0 }
    }

    /// Mean of the six dimensions, rounded towards zero.
    pub fn average(&self) -> (r: i32)
        requires
            i32::MIN <= self.sum() <= i32::MAX,
        ensures
            r == div_trunc(self.sum(), 6),
    {
        let s: i64 = self.fondness as i64 + self.trust as i64 + self.intimacy as i64
            + self.rapport as i64 + self.interest as i64 + self.longing as i64;
        let q: i64 = if s >= 0 {
            s / 6
        } else {
            -((-s) / 6)
        };
        q as i32
    }

    pub fn get(&self, dimension: &str) -> (r: Option<i32>)
        ensures
            r == (match affection_index(dimension@) {
                Some(i) => Some(self.spec_values()[i]),
                None => None,
            }),
    {
        if str_eq(dimension, "fondness") {
            Some(self.fondness)
        } else if str_eq(dimension, "trust") {
            Some(self.trust)
        } else if str_eq(dimension, "intimacy") {
            Some(self.intimacy)
        } else if str_eq(dimension, "rapport") {
            Some(self.rapport)
        } else if str_eq(dimension, "interest") {
            Some(self.interest)
        } else if str_eq(dimension, "longing") {
            Some(self.longing)
        } else {
            None
        }
    }

    /// Adds `delta` to one dimension, saturating at the `i32` bounds and
    /// never clamping to 0..=100; an unknown key changes nothing.
    pub fn add_delta(&mut self, dimension: &str, delta: i32) -> (r: bool)
        ensures
            r == (affection_index(dimension@) is Some),
            match affection_index(dimension@) {
                Some(i) => final(self).spec_values() == old(self).spec_values().update(
                    i,
                    sat_add(old(self).spec_values()[i], delta),
                ),
                None => *final(self) == *old(self),
            },
    {
        if str_eq(dimension, "fondness") {
            self.fondness = saturating_add(self.fondness, delta);
        } else if str_eq(dimension, "trust") {
            self.trust = saturating_add(self.trust, delta);
        } else if str_eq(dimension, "intimacy") {
            self.intimacy = saturating_add(self.intimacy, delta);
        } else if str_eq(dimension, "rapport") {
            self.rapport = saturating_add(self.rapport, delta);
        } else if str_eq(dimension, "interest") {
            self.interest = saturating_add(self.interest, delta);
        } else if str_eq(dimension, "longing") {
            self.longing = saturating_add(self.longing, delta);
        } else {
            return false;
        }
        proof {
            assert(self.spec_values() =~= old(self).spec_values().update(
                affection_index(dimension@)->0,
                sat_add(old(self).spec_values()[affection_index(dimension@)->0], delta),
            ));
        }
        true
    }
}

/// How strongly a role resents the player along six dimensions; never
/// negative once adjusted, unbounded above.
#[derive(Clone, Copy, Debug, PartialEq, Eq, Structural)]
pub struct NegativeVector {
    pub anger: i32,
    pub hurt: i32,
    pub disappointment: i32,
    pub indifference: i32,
    pub jealousy: i32,
    pub estrangement: i32,
}

pub open spec fn negative_index(d: Seq<char>) -> Option<int> {
    if d == "anger"@ {
        Some(0)
    } else if d == "hurt"@ {
        Some(1)
    } else if d == "disappointment"@ {
        Some(2)
    } else if d == "indifference"@ {
        Some(3)
    } else if d == "jealousy"@ {
        Some(4)
    } else if d == "estrangement"@ {
        Some(5)
    } else {
        None
    }
}

/// `saturating_add` followed by a floor of 0.
pub open spec fn floor_add(a: i32, d: i32) -> i32 {
    if sat_add(a, d) < 0 {
        0
    } else {
        sat_add(a, d)
    }
}

impl NegativeVector {
    pub open spec fn spec_values(self) -> Seq<i32> {
        seq![
            self.anger,
            self.hurt,
            self.disappointment,
            self.indifference,
            self.jealousy,
            self.estrangement,
        ]
    }

    /// All six at zero.
    pub fn default_value() -> (r: Self)
        ensures
            r.spec_values() == seq![0i32, 0, 0, 0, 0, 0],
    {
        NegativeVector {
            anger: 0,
            hurt: 0,
            disappointment: 0,
            indifference: 0,
            jealousy: 0,
            estrangement: 0,
        }
    }

    /// The strongest of the six (0 when there is no negative feeling).
    pub fn peak(&self) -> (r: i32)
        ensures
            exists|i: int| 0 <= i < 6 && r == self.spec_values()[i],
            forall|i: int| 0 <= i < 6 ==> self.spec_values()[i] <= r,
    {
        let mut m = self.anger;
        if self.hurt > m {
            m = self.hurt;
        }
        if self.disappointment > m {
            m = self.disappointment;
        }
        if self.indifference > m {
            m = self.indifference;
        }
        if self.jealousy > m {
            m = self.jealousy;
        }
        if self.estrangement > m {
            m = self.estrangement;
        }
        proof {
            let v = self.spec_values();
            assert(v[0] == self.anger && v[1] == self.hurt && v[2] == self.disappointment && v[3]
                == self.indifference && v[4] == self.jealousy && v[5] == self.estrangement);
        }
        m
    }

    pub fn get(&self, dimension: &str) -> (r: Option<i32>)
        ensures
            r == (match negative_index(dimension@) {
                Some(i) => Some(self.spec_values()[i]),
                None => None,
            }),
    {
        if str_eq(dimension, "anger") {
            Some(self.anger)
        } else if str_eq(dimension, "hurt") {
            Some(self.hurt)
        } else if str_eq(dimension, "disappointment") {
            Some(self.disappointment)
        } else if str_eq(dimension, "indifference") {
            Some(self.indifference)
        } else if str_eq(dimension, "jealousy") {
            Some(self.jealousy)
        } else if str_eq(dimension, "estrangement") {
            Some(self.estrangement)
        } else {
            None
        }
    }

    /// Adds `delta` to one dimension, saturating above and flooring at 0;
    /// an unknown key changes nothing.
    pub fn add_delta(&mut self, dimension: &str, delta: i32) -> (r: bool)
        ensures
            r == (negative_index(dimension@) is Some),
            match negative_index(dimension@) {
                Some(i) => final(self).spec_values() == old(self).spec_values().update(
                    i,
                    floor_add(old(self).spec_values()[i], delta),
                ),
                None => *final(self) == *old(self),
            },
    {
        if str_eq(dimension, "anger") {
            self.anger = clamp_low(saturating_add(self.anger, delta));
        } else if str_eq(dimension, "hurt") {
            self.hurt = clamp_low(saturating_add(self.hurt, delta));
        } else if str_eq(dimension, "disappointment") {
            self.disappointment = clamp_low(saturating_add(self.disappointment, delta));
        } else if str_eq(dimension, "indifference") {
            self.indifference = clamp_low(saturating_add(self.indifference, delta));
        } else if str_eq(dimension, "jealousy") {
            self.jealousy = clamp_low(saturating_add(self.jealousy, delta));
        } else if str_eq(dimension, "estrangement") {
            self.estrangement = clamp_low(saturating_add(self.estrangement, delta));
        } else {
            return false;
        }
        proof {
            assert(self.spec_values() =~= old(self).spec_values().update(
                negative_index(dimension@)->0,
                floor_add(old(self).spec_values()[negative_index(dimension@)->0], delta),
            ));
        }
        true
    }
}

/// `i32::saturating_add`.
pub fn saturating_add(a: i32, d: i32) -> (r: i32)
    ensures
        r == sat_add(a, d),
{
    let s: i64 = a as i64 + d as i64;
    if s > i32::MAX as i64 {
        i32::MAX
    } else if s < i32::MIN as i64 {
        i32::MIN
    } else {
        s as i32
    }
}

fn clamp_low(v: i32) -> (r: i32)
    ensures
        r == if v < 0 {
            0
        } else {
            v
        },
{
    if v < 0 {
        0
    } else {
        v
    }
}

// ---------------------------------------------------------------------------
// Laws
// ---------------------------------------------------------------------------

/// Adding to an affection dimension changes that dimension by the
/// saturated sum and leaves the other five as they were.
pub proof fn law_affection_add_is_local(v: Seq<i32>, i: int, delta: i32, j: int)
    requires
        v.len() == 6,
        0 <= i < 6,
        0 <= j < 6,
    ensures
        v.update(i, sat_add(v[i], delta))[j] == if j == i {
            sat_add(v[i], delta)
        } else {
            v[j]
        },
{
}

/// Two additions to one affection dimension that do not reach the `i32`
/// bounds add up.
pub proof fn law_affection_adds_compose(a: i32, d1: i32, d2: i32)
    requires
        i32::MIN <= a + d1 <= i32::MAX,
        i32::MIN <= a + d1 + d2 <= i32::MAX,
        i32::MIN <= d1 + d2 <= i32::MAX,
    ensures
        sat_add(sat_add(a, d1), d2) == sat_add(a, (d1 + d2) as i32),
{
}

/// Affection is never clamped to 0..=100: within the `i32` range an
/// addition lands exactly on the sum, however large or negative.
pub proof fn law_affection_not_clamped(a: i32, delta: i32)
    requires
        i32::MIN <= a + delta <= i32::MAX,
    ensures
        sat_add(a, delta) == a + delta,
{
}

/// A negative emotion never drops below zero, whatever is added.
pub proof fn law_negative_never_below_zero(a: i32, delta: i32)
    ensures
        floor_add(a, delta) >= 0,
{
}

/// Adding zero to a negative emotion that is not below zero keeps it.
pub proof fn law_negative_zero_delta_keeps(a: i32)
    requires
        a >= 0,
    ensures
        floor_add(a, 0) == a,
{
}

} // verus!
