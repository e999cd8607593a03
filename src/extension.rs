//! Extensions of the core protocol.

pub mod xinerama;

use vstd::prelude::*;

verus! {

/// The extensions that this library speaks.
#[derive(Debug, Clone, Copy, PartialEq, Eq, Structural)]
pub enum Extension {
    Xinerama,
}

impl Extension {
    /// The name under which the server knows the extension.
    pub fn name(&self) -> (r: &'static str)
        ensures
            r@ == seq!['X', 'I', 'N', 'E', 'R', 'A', 'M', 'A'],
            r.is_ascii(),
    {
        proof {
            reveal_strlit("XINERAMA");
        }
        match self {
            Extension::Xinerama => "XINERAMA",
        }
    }

    /// The length of the name in bytes.
    pub fn len(&self) -> (r: usize)
        ensures
            r == 8,
    {
        let name = self.name();
        proof {
            vstd::string::is_ascii_spec_bytes(name);
        }
        name.len()
    }
}

} // verus!
