//! Control descriptors: the static metadata of one adjustable parameter.

use vstd::prelude::*;

verus! {

/// The closed set of control kinds the engine distinguishes.
#[derive(Clone, Copy, Debug, PartialEq, Eq, Structural)]
pub enum ControlKind {
    /// An integer with inclusive bounds.
    IntegerRange,
    /// A toggle, packed as 0 or 1.
    Boolean,
    /// A choice among listed indices.
    Menu,
    /// A section marker without a value; it is never written.
    ClassHeader,
    /// Any kind the engine has no encoding for; it is never written.
    Unsupported,
}

/// One choice of a menu control.
#[derive(Clone, Debug)]
pub struct MenuEntry {
    pub index: u32,
    pub label: String,
}

/// Static metadata of one control, as the device reported it.
#[derive(Clone, Debug)]
pub struct ControlDescriptor {
    /// Stable identifier the device knows the control by.
    pub id: u32,
    /// Name shown to the operator.
    pub name: String,
    pub kind: ControlKind,
    /// Inclusive lower bound; meaningful for `IntegerRange`.
    pub minimum: i64,
    /// Inclusive upper bound; meaningful for `IntegerRange`.
    pub maximum: i64,
    /// Integer-encoded default, whatever the kind.
    pub default: i64,
    /// The listed choices; meaningful for `Menu`.
    pub items: Vec<MenuEntry>,
}

impl ControlDescriptor {
    /// `value` is one of the indices that the descriptor lists.
    pub open spec fn lists(&self, value: int) -> bool {
        exists|j: int| 0 <= j < self.items@.len() && (#[trigger] self.items@[j]).index == value
    }

    /// The default fits the kind: inside the bounds of a range, 0 or 1 for a
    /// toggle, a listed index for a menu.
    pub open spec fn valid(&self) -> bool {
        match self.kind {
            ControlKind::IntegerRange => self.minimum <= self.default <= self.maximum,
            ControlKind::Boolean => self.default == 0 || self.default == 1,
            ControlKind::Menu => self.lists(self.default as int),
            ControlKind::ClassHeader => true,
            ControlKind::Unsupported => true,
        }
    }

    /// Whether `value` is one of the listed menu indices.
    pub fn offers(&self, value: i64) -> (found: bool)
        ensures
            found == self.lists(value as int),
    {
        let mut j: usize = 0;
        while j < self.items.len()
            invariant
                j <= self.items@.len(),
                forall|k: int| 0 <= k < j ==> (#[trigger] self.items@[k]).index != value,
            decreases self.items@.len() - j,
        {
            if self.items[j].index as i64 == value {
                return true;
            }
            j += 1;
        }
        false
    }

    /// Whether the default fits the kind.
    pub fn is_valid(&self) -> (ok: bool)
        ensures
            ok == self.valid(),
    {
        match self.kind {
            ControlKind::IntegerRange => self.minimum <= self.default && self.default <= self.maximum,
            ControlKind::Boolean => self.default == 0 || self.default == 1,
            ControlKind::Menu => self.offers(self.default),
            ControlKind::ClassHeader => true,
            ControlKind::Unsupported => true,
        }
    }
}

} // verus!
