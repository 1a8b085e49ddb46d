use vstd::prelude::*;

verus! {

/// Why the set of tracked files could not be computed.
#[derive(Debug, Clone, Copy, PartialEq, Eq, Structural)]
pub enum RerunError {
    /// A caller pattern begins with the negation marker `!`, which is
    /// reserved for the translation into override rules.
    InvalidPattern,
    /// A pattern could not be compiled into an override rule (for example,
    /// malformed glob syntax).
    InvalidOverride,
}

} // verus!
