use vstd::prelude::*;

verus! {

/// Which kinds of content the clipboard currently offers.
#[derive(Debug, Clone, Copy, PartialEq, Eq, Structural)]
pub struct AvailableTypes {
    pub text: bool,
    pub html: bool,
    pub rtf: bool,
    pub image: bool,
    pub files: bool,
}

} // verus!
