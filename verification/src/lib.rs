//! Definitions of the netmap kernel interface: request headers, rings, slots,
//! interface descriptors and the constants that go with them.
#![allow(non_camel_case_types)]
#![allow(non_upper_case_globals)]

pub mod libnetmap;
pub mod netmap;
