//! The attribute model: a small value type carrying the three independent
//! property facets (writable / enumerable / configurable), with combinators
//! and membership predicates in place of raw bit masks.

use vstd::prelude::*;

verus! {

/// The attributes of one property: three independent boolean facets.
#[derive(Clone, Copy, Debug, PartialEq, Eq, Structural)]
pub struct AttributeSet {
    pub writable: bool,
    pub enumerable: bool,
    pub configurable: bool,
}

impl AttributeSet {
    /// The empty attribute set: none of the three facets.
    pub fn empty() -> (r: Self)
        ensures
            r == (AttributeSet { writable: false, enumerable: false, configurable: false }),
    {
        AttributeSet { writable: false, enumerable: false, configurable: false }
    }

    /// The set holding exactly the writable facet.
    pub fn writable() -> (r: Self)
        ensures
            r == (AttributeSet { writable: true, enumerable: false, configurable: false }),
    {
        AttributeSet { writable: true, enumerable: false, configurable: false }
    }

    /// The set holding exactly the enumerable facet.
    pub fn enumerable() -> (r: Self)
        ensures
            r == (AttributeSet { writable: false, enumerable: true, configurable: false }),
    {
        AttributeSet { writable: false, enumerable: true, configurable: false }
    }

    /// The set holding exactly the configurable facet.
    pub fn configurable() -> (r: Self)
        ensures
            r == (AttributeSet { writable: false, enumerable: false, configurable: true }),
    {
        AttributeSet { writable: false, enumerable: false, configurable: true }
    }

    /// Facet-wise union: a facet is present in the result exactly when it is
    /// present in either operand.
    pub fn union(self, other: Self) -> (r: Self)
        ensures
            r == (AttributeSet {
                writable: self.writable || other.writable,
                enumerable: self.enumerable || other.enumerable,
                configurable: self.configurable || other.configurable,
            }),
    {
        AttributeSet {
            writable: self.writable || other.writable,
            enumerable: self.enumerable || other.enumerable,
            configurable: self.configurable || other.configurable,
        }
    }

    /// Membership test for the writable facet.
    pub fn is_writable(&self) -> (r: bool)
        ensures
            r == self.writable,
    {
        self.writable
    }

    /// Membership test for the enumerable facet.
    pub fn is_enumerable(&self) -> (r: bool)
        ensures
            r == self.enumerable,
    {
        self.enumerable
    }

    /// Membership test for the configurable facet.
    pub fn is_configurable(&self) -> (r: bool)
        ensures
            r == self.configurable,
    {
        self.configurable
    }
}

/// The attribute combination the native constructors declare for the
/// spec-mandated data properties of their prototypes: writable and
/// configurable, not enumerable.
pub fn writable_configurable() -> (r: AttributeSet)
    ensures
        r == (AttributeSet { writable: true, enumerable: false, configurable: true }),
{
    AttributeSet::writable().union(AttributeSet::configurable())
}

} // verus!
