# netmap_sys

Definitions of the netmap interface, verified with Verus.

- `src/netmap.rs`: request headers and bodies, rings, slots, interface
  descriptors, the flag, mode and ioctl constants, `nm_ring_empty`, and the
  proofs that each packed field (slot flags and port, ring id, register mode
  and flags) gives back what was packed into it.
- `src/libnetmap.rs`: constants of the user library's option parser.
- `app/`: the `#[repr(C)]` forms of the types with conversions to and from
  the library's, the per-OS sync ioctl numbers, and the user library's
  functions and pointer-holding structures.
