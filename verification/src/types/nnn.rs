use vstd::prelude::*;

verus! {

/// A 12-bit address value: the lowest 12 bits of an instruction word.
/// The stored value is always below 4096.
#[allow(non_camel_case_types)]
#[derive(Clone, Copy, Debug, PartialEq, Eq, Structural)]
pub struct nnn(u16);

impl nnn {
    /// The stored 12-bit value, for use in contracts.
    pub closed spec fn spec_value(self) -> u16 {
        self.0
    }

    /// Well-formedness: the value fits in 12 bits. Established by `new`
    /// and preserved by `set`.
    pub open spec fn wf(self) -> bool {
        self.spec_value() < 4096
    }

    /// Whether `value` fits in the 12-bit range.
    pub fn is_valid(value: u16) -> (r: bool)
        ensures
            r == (value < 4096),
    {
        value < 4096
    }

    /// Builds a 12-bit address; rejects a value that needs more than 12 bits.
    pub fn new(value: u16) -> (r: Option<Self>)
        ensures
            value < 4096 ==> (r matches Some(a) && a.spec_value() == value),
            value >= 4096 ==> r is None,
    {
        if nnn::is_valid(value) {
            Some(nnn(value))
        } else {
            None
        }
    }

    /// The stored value.
    pub fn value(&self) -> (r: u16)
        ensures
            r == self.spec_value(),
            self.wf() ==> r < 4096,
    {
        self.0
    }

    /// Replaces the stored value; rejects (and leaves the old value in
    /// place) when the new one needs more than 12 bits.
    pub fn set(&mut self, value: u16) -> (r: Result<(), &'static str>)
        ensures
            value < 4096 ==> (r is Ok && final(self).spec_value() == value),
            value >= 4096 ==> (r is Err && *final(self) == *old(self)),
    {
        if nnn::is_valid(value) {
            self.0 = value;
            Ok(())
        } else {
            Err("Value exceeds 12-bit range")
        }
    }
}

} // verus!
