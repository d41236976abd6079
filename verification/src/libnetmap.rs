//! Constants of the port-specification parser of the netmap user library:
//! how many keys an option may have, and the flags of keys and parsers.
use vstd::prelude::*;

verus! {

/// Largest number of keys that one option recognizes.
pub const NMREQ_OPT_MAXKEYS: u16 = 16;

/// The `=value` part of the key may be left out.
pub const NMREQ_OPTK_ALLOWEMPTY: u16 = 1 << 0;

/// The key must be given.
pub const NMREQ_OPTK_MUSTSET: u16 = 1 << 1;

/// The key that a single-key form of the option assigns.
pub const NMREQ_OPTK_DEFAULT: u16 = 1 << 2;

/// The option is disabled: meeting it is an error.
pub const NMREQ_OPTF_DISABLED: u16 = 1 << 0;

/// The `=value` part of the option may be left out.
pub const NMREQ_OPTF_ALLOWEMPTY: u16 = 1 << 1;

} // verus!
