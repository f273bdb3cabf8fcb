use vstd::prelude::*;

verus! {

/// The low-order part of a port that a node keeps when it is redirected.
pub const PORT_SUFFIX_MODULUS: u16 = 10000;

/// The port that a redirect with `base` gives a node configured with `original`:
/// the base plus the original's last four decimal digits, wrapping at 2^16.
pub open spec fn rebased_port_spec(base: u16, original: u16) -> u16 {
    ((base as int + original as int % 10000) % 65536) as u16
}

/// The part of `original` that survives a redirect.
pub fn port_suffix(original: u16) -> (r: u16)
    ensures
        r as int == original as int % 10000,
{
    original % PORT_SUFFIX_MODULUS
}

/// Combines a redirect's port base with the node's own port suffix.
/// A sum past 65535 wraps around.
pub fn rebase_port(base: u16, original: u16) -> (r: u16)
    ensures
        r == rebased_port_spec(base, original),
        base as int + original as int % 10000 <= u16::MAX ==> r as int == base as int
            + original as int % 10000,
{
    let suffix = port_suffix(original);
    base.wrapping_add(suffix)
}

} // verus!
