//! Dimensional algebra over the seven-dimensional SI exponent basis.
//!
//! A `Dimension` is an integer exponent vector over (length, mass, time,
//! current, temperature, amount, luminous intensity). Products add
//! exponent vectors, quotients subtract them, and integer powers scale
//! them; a quantity is dimensionless exactly when its vector is zero.

use vstd::prelude::*;

verus! {

/// The 7-dimensional SI basis vector of integer exponents.
/// Indices: 0 length, 1 mass, 2 time, 3 current, 4 temperature, 5 amount,
/// 6 luminous intensity.
#[derive(Debug, Clone, Copy, PartialEq, Eq, Hash)]
pub struct Dimension {
    pub basis: [i32; 7],
}

/// A dimension is the zero vector.
pub open spec fn spec_dimensionless(d: Dimension) -> bool {
    forall|i: int| 0 <= i < 7 ==> d.basis[i] == 0
}

impl Dimension {
    /// Constructs a dimensional vector from its seven exponents.
    pub fn new(l: i32, m: i32, t: i32, i: i32, theta: i32, n: i32, j: i32) -> (d: Dimension)
        ensures
            d.basis@ =~= seq![l, m, t, i, theta, n, j],
    {
        Dimension { basis: [l, m, t, i, theta, n, j] }
    }

    /// The dimensionless (all-zero) vector.
    pub fn dimensionless() -> (d: Dimension)
        ensures
            spec_dimensionless(d),
    {
        Dimension::new(0, 0, 0, 0, 0, 0, 0)
    }

    /// Whether every exponent is zero.
    pub fn is_dimensionless(&self) -> (r: bool)
        ensures
            r == spec_dimensionless(*self),
    {
        let mut i: usize = 0;
        while i < 7
            invariant
                0 <= i <= 7,
                forall|k: int| 0 <= k < i ==> self.basis[k] == 0,
            decreases 7 - i,
        {
            if self.basis[i] != 0 {
                return false;
            }
            i = i + 1;
        }
        true
    }

    /// Multiplicative dimensional mapping: exponents add.
    pub fn mul(&self, other: &Self) -> (d: Dimension)
        requires
            forall|i: int| 0 <= i < 7 ==> i32::MIN <= #[trigger] (self.basis[i]
                + other.basis[i]) <= i32::MAX,
        ensures
            forall|i: int| 0 <= i < 7 ==> #[trigger] d.basis[i] == self.basis[i]
                + other.basis[i],
    {
        Dimension::new(
            self.basis[0] + other.basis[0],
            self.basis[1] + other.basis[1],
            self.basis[2] + other.basis[2],
            self.basis[3] + other.basis[3],
            self.basis[4] + other.basis[4],
            self.basis[5] + other.basis[5],
            self.basis[6] + other.basis[6],
        )
    }

    /// Divisional dimensional mapping: exponents subtract.
    pub fn div(&self, other: &Self) -> (d: Dimension)
        requires
            forall|i: int| 0 <= i < 7 ==> i32::MIN <= #[trigger] (self.basis[i]
                - other.basis[i]) <= i32::MAX,
        ensures
            forall|i: int| 0 <= i < 7 ==> #[trigger] d.basis[i] == self.basis[i]
                - other.basis[i],
    {
        Dimension::new(
            self.basis[0] - other.basis[0],
            self.basis[1] - other.basis[1],
            self.basis[2] - other.basis[2],
            self.basis[3] - other.basis[3],
            self.basis[4] - other.basis[4],
            self.basis[5] - other.basis[5],
            self.basis[6] - other.basis[6],
        )
    }

    /// Power dimensional mapping for an integer exponent: exponents scale.
    pub fn powi(&self, n: i32) -> (d: Dimension)
        requires
            forall|i: int| 0 <= i < 7 ==> i32::MIN <= #[trigger] (self.basis[i] * n)
                <= i32::MAX,
        ensures
            forall|i: int| 0 <= i < 7 ==> #[trigger] d.basis[i] == self.basis[i] * n,
    {
        Dimension::new(
            self.basis[0] * n,
            self.basis[1] * n,
            self.basis[2] * n,
            self.basis[3] * n,
            self.basis[4] * n,
            self.basis[5] * n,
            self.basis[6] * n,
        )
    }
}

} // verus!
