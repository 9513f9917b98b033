use vstd::prelude::*;

verus! {

/// The kind of device a hook observes. Each kind has its own hook slot in the
/// operating system and its own table of live callbacks.
#[derive(Clone, Copy, Debug, PartialEq, Eq, Structural)]
pub enum HidType {
    Keyboard,
    Mouse,
}

impl HidType {
    /// The other device kind.
    pub open spec fn other(self) -> HidType {
        match self {
            HidType::Keyboard => HidType::Mouse,
            HidType::Mouse => HidType::Keyboard,
        }
    }
}

} // verus!
