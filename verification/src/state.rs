//! The classification of one managed path, and its fixed display order.

use vstd::prelude::*;

verus! {

/// The observed condition of one managed path in the home directory.
///
/// The variants are listed in their fixed priority order, used when
/// sorting a report: `Fine < Missing < Broken < BadLink < Conflict <
/// Error`.
#[derive(Debug, PartialEq, Eq)]
pub enum PathState {
    /// A link exists and resolves to the expected repository target.
    Fine,
    /// Nothing exists at the location, not even a dangling link.
    Missing,
    /// A link exists at the location but its target does not resolve.
    Broken,
    /// A link exists and resolves, but to somewhere other than the
    /// expected repository target.
    BadLink,
    /// A real (non-link) file or directory occupies the location.
    Conflict,
    /// A filesystem probe or mutation failed; the payload is the
    /// human-readable failure message.
    Error(String),
}

impl PathState {
    /// The position of this state in the fixed priority order.
    pub open spec fn rank_spec(self) -> int {
        match self {
            PathState::Fine => 0,
            PathState::Missing => 1,
            PathState::Broken => 2,
            PathState::BadLink => 3,
            PathState::Conflict => 4,
            PathState::Error(_) => 5,
        }
    }

    /// The priority rank as a machine integer, for sorting.
    pub fn rank(&self) -> (r: u8)
        ensures
            r as int == self.rank_spec(),
    {
        match self {
            PathState::Fine => 0,
            PathState::Missing => 1,
            PathState::Broken => 2,
            PathState::BadLink => 3,
            PathState::Conflict => 4,
            PathState::Error(_) => 5,
        }
    }

    /// The characters of this state's display name.
    pub open spec fn label_spec(self) -> Seq<char> {
        match self {
            PathState::Fine => seq!['F', 'i', 'n', 'e'],
            PathState::Missing => seq!['M', 'i', 's', 's', 'i', 'n', 'g'],
            PathState::Broken => seq!['B', 'r', 'o', 'k', 'e', 'n'],
            PathState::BadLink => seq!['B', 'a', 'd', 'L', 'i', 'n', 'k'],
            PathState::Conflict => seq!['C', 'o', 'n', 'f', 'l', 'i', 'c', 't'],
            PathState::Error(_) => seq!['E', 'r', 'r', 'o', 'r'],
        }
    }

    /// The display name of this state, without any error payload.
    pub fn label(&self) -> (r: String)
        ensures
            r@ == self.label_spec(),
    {
        match self {
            PathState::Fine => {
                let s = "Fine";
                proof {
                    reveal_strlit("Fine");
                }
                String::from_str(s)
            },
            PathState::Missing => {
                let s = "Missing";
                proof {
                    reveal_strlit("Missing");
                }
                String::from_str(s)
            },
            PathState::Broken => {
                let s = "Broken";
                proof {
                    reveal_strlit("Broken");
                }
                String::from_str(s)
            },
            PathState::BadLink => {
                let s = "BadLink";
                proof {
                    reveal_strlit("BadLink");
                }
                String::from_str(s)
            },
            PathState::Conflict => {
                let s = "Conflict";
                proof {
                    reveal_strlit("Conflict");
                }
                String::from_str(s)
            },
            PathState::Error(_) => {
                let s = "Error";
                proof {
                    reveal_strlit("Error");
                }
                String::from_str(s)
            },
        }
    }
}

} // verus!
