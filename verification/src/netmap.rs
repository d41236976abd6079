//! The netmap kernel interface: request headers and bodies, rings, slots,
//! interface descriptors, and the flag and mode constants that fill them.
use libc::{c_char, c_int, c_ulong, ssize_t, timeval};
use vstd::prelude::*;

verus! {

/// The C `struct timeval` carried by every ring; opaque here, it is only
/// stored and copied.
#[verifier::external_type_specification]
#[verifier::external_body]
pub struct ExTimeval(timeval);

pub const IFNAMSIZ: usize = 16;

pub const NETMAP_REQ_IFNAMSIZ: usize = 64;

pub const NETMAP_API: c_int = 11;

pub const NETMAP_MIN_API: c_int = 11;

pub const NETMAP_MAX_API: c_int = 15;

pub const NM_CACHE_ALIGN: c_int = 128;

/// Header shared by all request options.
#[derive(Copy, Clone)]
pub struct nmreq_option {
    /// Address of the next option in the list, zero at its end.
    pub nro_next: u64,
    /// Which option this is.
    pub nro_reqtype: u32,
    /// Filled in by the kernel: zero when the option was recognized and
    /// processed, an errno value otherwise.
    pub nro_status: u32,
    /// Size of options whose size varies (they hold arrays); zero for
    /// fixed-size options.
    pub nro_size: u64,
}

/// Header shared by all requests. The order of the fields is part of the
/// interface: the kernel reads `nr_reqtype` to know how much to copy.
#[derive(Copy, Clone)]
pub struct nmreq_header {
    /// Interface version.
    pub nr_version: u16,
    /// Kind of request.
    pub nr_reqtype: u16,
    /// Reserved, must be zero.
    pub nr_reserved: u32,
    /// Name of the port.
    pub nr_name: [c_char; NETMAP_REQ_IFNAMSIZ],
    /// Address of the first option.
    pub nr_options: u64,
    /// Address of the request body.
    pub nr_body: u64,
}

/// Body of a request that binds (registers) a port to a control device.
#[derive(Copy, Clone)]
pub struct nmreq_register {
    /// Offset of the interface descriptor in the shared region.
    pub nr_offset: u64,
    /// Size of the shared region.
    pub nr_memsize: u64,
    /// Slots in each tx ring.
    pub nr_tx_slots: u32,
    /// Slots in each rx ring.
    pub nr_rx_slots: u32,
    /// Number of tx rings.
    pub nr_tx_rings: u16,
    /// Number of rx rings.
    pub nr_rx_rings: u16,
    /// Number of host tx rings.
    pub nr_host_tx_rings: u16,
    /// Number of host rx rings.
    pub nr_host_rx_rings: u16,
    /// Identifier of the memory allocator.
    pub nr_mem_id: u16,
    /// The ring or rings of interest.
    pub nr_ringid: u16,
    /// One of the `NR_REG_*` modes.
    pub nr_mode: u32,
    /// Number of extra buffers asked for.
    pub nr_extra_bufs: u32,
    /// Further `NR_*` flags.
    pub nr_flags: u64,
}

/// One slot of a ring: which buffer it refers to, how many bytes of it are
/// used, and its `NS_*` flags.
#[derive(Copy, Clone)]
pub struct netmap_slot {
    pub buf_idx: u32,
    pub len: u16,
    pub flags: u16,
    pub ptr: u64,
}

pub const NS_BUF_CHANGED: u16 = 0x0001;

pub const NS_REPORT: u16 = 0x0002;

pub const NS_FORWARD: u16 = 0x0004;

pub const NS_NO_LEARN: u16 = 0x0008;

pub const NS_INDIRECT: u16 = 0x0010;

pub const NS_MOREFRAG: u16 = 0x0020;

pub const NS_PORT_SHIFT: c_int = 8;

pub const NS_PORT_MASK: c_int = (0xff << NS_PORT_SHIFT);

/// All the `NS_*` slot flags together.
pub open spec fn slot_flag_bits() -> u16 {
    NS_BUF_CHANGED | NS_REPORT | NS_FORWARD | NS_NO_LEARN | NS_INDIRECT | NS_MOREFRAG
}

/// The `flags` field of a slot holds a port number in its upper byte and the
/// `NS_*` flags below it: packing a port and any set of flags into one field
/// loses neither, each `NS_*` flag is a bit of its own, and the port mask
/// covers exactly the upper byte.
pub proof fn lemma_slot_flags_hold_port_and_flags(port: u16, flags: u16)
    requires
        port < 256,
        flags & !slot_flag_bits() == 0,
    ensures
        NS_PORT_MASK == 0xff00,
        ({
            let packed: u16 = (port << (NS_PORT_SHIFT as u16)) | flags;
            &&& (packed & (NS_PORT_MASK as u16)) >> (NS_PORT_SHIFT as u16) == port
            &&& packed & slot_flag_bits() == flags
        }),
        NS_BUF_CHANGED & NS_REPORT == 0,
        (NS_BUF_CHANGED | NS_REPORT) & NS_FORWARD == 0,
        (NS_BUF_CHANGED | NS_REPORT | NS_FORWARD) & NS_NO_LEARN == 0,
        (NS_BUF_CHANGED | NS_REPORT | NS_FORWARD | NS_NO_LEARN) & NS_INDIRECT == 0,
        (NS_BUF_CHANGED | NS_REPORT | NS_FORWARD | NS_NO_LEARN | NS_INDIRECT) & NS_MOREFRAG == 0,
{
    assert(NS_PORT_MASK == 0xff00) by (bit_vector);
    let shift: u16 = 8;
    let mask: u16 = 0xff00;
    let bits: u16 = 0x003f;
    assert(NS_BUF_CHANGED | NS_REPORT | NS_FORWARD | NS_NO_LEARN | NS_INDIRECT | NS_MOREFRAG
        == 0x003f) by (bit_vector);
    assert({
        &&& NS_BUF_CHANGED & NS_REPORT == 0
        &&& (NS_BUF_CHANGED | NS_REPORT) & NS_FORWARD == 0
        &&& (NS_BUF_CHANGED | NS_REPORT | NS_FORWARD) & NS_NO_LEARN == 0
        &&& (NS_BUF_CHANGED | NS_REPORT | NS_FORWARD | NS_NO_LEARN) & NS_INDIRECT == 0
        &&& (NS_BUF_CHANGED | NS_REPORT | NS_FORWARD | NS_NO_LEARN | NS_INDIRECT) & NS_MOREFRAG
            == 0
    }) by (bit_vector);
    assert((((port << shift) | flags) & mask) >> shift == port && ((port << shift) | flags) & bits
        == flags) by (bit_vector)
        requires
            port < 256,
            flags & !bits == 0,
            shift == 8,
            mask == 0xff00,
            bits == 0x003f,
    ;
}

/// A ring shared with the kernel. The slots follow the header in memory.
#[derive(Copy)]
pub struct netmap_ring {
    pub buf_ofs: i64,
    pub num_slots: u32,
    pub nr_buf_size: u32,
    pub ringid: u16,
    pub dir: u16,
    pub head: u32,
    pub cur: u32,
    pub tail: u32,
    pub flags: u32,
    pub ts: timeval,
    pub offset_mask: u64,
    pub buf_align: u64,
    pub sem: [u8; 128],
    pub slot: [netmap_slot; 0],
}

impl Clone for netmap_ring {
    fn clone(&self) -> (res: netmap_ring)
        ensures
            res == *self,
    {
        *self
    }
}

pub const NR_TIMESTAMP: u32 = 0x0002;

pub const NR_FORWARD: u32 = 0x0004;

/// Descriptor of an interface as seen through the shared region. The ring
/// offsets follow it in memory.
#[derive(Clone, Copy)]
pub struct netmap_if {
    pub ni_name: [c_char; IFNAMSIZ],
    pub ni_version: u32,
    pub ni_flags: u32,
    pub ni_tx_rings: u32,
    pub ni_rx_rings: u32,
    pub ni_bufs_head: u32,
    /// Number of host (software) tx rings.
    pub ni_host_tx_rings: u32,
    /// Number of host (software) rx rings.
    pub ni_host_rx_rings: u32,
    pub ni_spare1: [u32; 3],
    pub ring_ofs: [ssize_t; 0],
}

pub const NI_PRIV_MEM: c_int = 0x1;

/// The request of the legacy interface.
#[derive(Clone, Copy)]
pub struct nmreq {
    pub nr_name: [c_char; IFNAMSIZ],
    pub nr_version: u32,
    pub nr_offset: u32,
    pub nr_memsize: u32,
    pub nr_tx_slots: u32,
    pub nr_rx_slots: u32,
    pub nr_tx_rings: u16,
    pub nr_rx_rings: u16,
    pub nr_ringid: u16,
    pub nr_cmd: u16,
    pub nr_arg1: u16,
    pub nr_arg2: u16,
    pub nr_arg3: u32,
    pub nr_flags: u32,
    pub spare2: [u32; 1],
}

/// Body of a request for the layout of the pools of a memory allocator,
/// named by the port in the header and by `nr_mem_id`.
#[derive(Copy, Clone)]
pub struct nmreq_pools_info {
    pub nr_memsize: u64,
    /// Read and written by the request.
    pub nr_mem_id: u16,
    pub pad1: [u16; 3],
    pub nr_if_pool_offset: u64,
    pub nr_if_pool_objtotal: u32,
    pub nr_if_pool_objsize: u32,
    pub nr_ring_pool_offset: u64,
    pub nr_ring_pool_objtotal: u32,
    pub nr_ring_pool_objsize: u32,
    pub nr_buf_pool_offset: u64,
    pub nr_buf_pool_objtotal: u32,
    pub nr_buf_pool_objsize: u32,
}

/// Option that selects the mode of the kernel sync loop.
#[derive(Copy, Clone)]
pub struct nmreq_opt_sync_kloop_mode {
    pub nro_opt: nmreq_option,
    pub mode: u32,
}

/// Option that hands the kernel memory allocated by the user.
#[derive(Copy, Clone)]
pub struct nmreq_opt_extmem {
    pub nro_opt: nmreq_option,
    /// Address of the user memory.
    pub nro_usrptr: u64,
    /// Layout of that memory; read and written by the request.
    pub nro_info: nmreq_pools_info,
}

pub const NETMAP_HW_RING: c_int = 0x4000;

pub const NETMAP_SW_RING: c_int = 0x2000;

pub const NETMAP_RING_MASK: c_int = 0x0fff;

pub const NETMAP_NO_TX_POLL: c_int = 0x1000;

pub const NETMAP_DO_RX_POLL: c_int = 0x8000;

/// All the flags that share a ring id with the ring index.
pub open spec fn ringid_flag_bits() -> u16 {
    (NETMAP_HW_RING | NETMAP_SW_RING | NETMAP_NO_TX_POLL | NETMAP_DO_RX_POLL) as u16
}

/// A ring id holds a ring index under `NETMAP_RING_MASK` and the
/// `NETMAP_HW_RING`, `NETMAP_SW_RING`, `NETMAP_NO_TX_POLL` and
/// `NETMAP_DO_RX_POLL` flags above it: each flag is a bit of its own, and
/// combining an index with any set of flags loses neither.
pub proof fn lemma_ringid_holds_index_and_flags(index: u16, flags: u16)
    requires
        index & !(NETMAP_RING_MASK as u16) == 0,
        flags & !ringid_flag_bits() == 0,
    ensures
        (index | flags) & (NETMAP_RING_MASK as u16) == index,
        (index | flags) & ringid_flag_bits() == flags,
        NETMAP_HW_RING & NETMAP_SW_RING == 0,
        (NETMAP_HW_RING | NETMAP_SW_RING) & NETMAP_NO_TX_POLL == 0,
        (NETMAP_HW_RING | NETMAP_SW_RING | NETMAP_NO_TX_POLL) & NETMAP_DO_RX_POLL == 0,
{
    assert(NETMAP_RING_MASK as u16 == 0x0fff) by (bit_vector);
    assert((NETMAP_HW_RING | NETMAP_SW_RING | NETMAP_NO_TX_POLL | NETMAP_DO_RX_POLL) as u16
        == 0xf000) by (bit_vector);
    assert({
        &&& NETMAP_HW_RING & NETMAP_SW_RING == 0
        &&& (NETMAP_HW_RING | NETMAP_SW_RING) & NETMAP_NO_TX_POLL == 0
        &&& (NETMAP_HW_RING | NETMAP_SW_RING | NETMAP_NO_TX_POLL) & NETMAP_DO_RX_POLL == 0
    }) by (bit_vector);
    assert((index | flags) & 0x0fff == index && (index | flags) & 0xf000 == flags) by (bit_vector)
        requires
            index & !0x0fffu16 == 0,
            flags & !0xf000u16 == 0,
    ;
}

pub const NETMAP_BDG_ATTACH: c_int = 1;

pub const NETMAP_BDG_DETACH: c_int = 2;

pub const NETMAP_BDG_REGOPS: c_int = 3;

pub const NETMAP_BDG_LIST: c_int = 4;

pub const NETMAP_BDG_VNET_HDR: c_int = 5;

pub const NETMAP_BDG_OFFSET: c_int = NETMAP_BDG_VNET_HDR;

pub const NETMAP_BDG_NEWIF: c_int = 6;

pub const NETMAP_BDG_DELIF: c_int = 7;

pub const NETMAP_BDG_HOST: c_int = 1;

pub const NR_REG_MASK: c_int = 0xf;

pub const NR_REG_DEFAULT: u32 = 0;

pub const NR_REG_ALL_NIC: u32 = 1;

pub const NR_REG_SW: u32 = 2;

pub const NR_REG_NIC_SW: u32 = 3;

pub const NR_REG_ONE_NIC: u32 = 4;

pub const NR_REG_PIPE_MASTER: u32 = 5;

pub const NR_REG_PIPE_SLAVE: u32 = 6;

pub const NR_MONITOR_TX: u32 = 0x100;

pub const NR_MONITOR_RX: u32 = 0x200;

pub const NR_ZCOPY_MON: u32 = 0x400;

pub const NR_EXCLUSIVE: u32 = 0x800;

pub const NR_PTNETMAP_HOST: u32 = 0x1000;

pub const NR_RX_RINGS_ONLY: u32 = 0x2000;

pub const NR_TX_RINGS_ONLY: u32 = 0x4000;

pub const NR_ACCEPT_VNET_HDR: u32 = 0x8000;

pub const NR_DO_RX_POLL: u32 = 0x10000;

pub const NR_NO_TX_POLL: u32 = 0x20000;

/// Whether `mode` is one of the `NR_REG_*` register modes.
pub open spec fn is_register_mode(mode: u32) -> bool {
    ||| mode == NR_REG_DEFAULT
    ||| mode == NR_REG_ALL_NIC
    ||| mode == NR_REG_SW
    ||| mode == NR_REG_NIC_SW
    ||| mode == NR_REG_ONE_NIC
    ||| mode == NR_REG_PIPE_MASTER
    ||| mode == NR_REG_PIPE_SLAVE
}

/// All the `NR_*` register flags, from `NR_MONITOR_TX` to `NR_NO_TX_POLL`.
pub open spec fn register_flag_bits() -> u32 {
    NR_MONITOR_TX | NR_MONITOR_RX | NR_ZCOPY_MON | NR_EXCLUSIVE | NR_PTNETMAP_HOST
        | NR_RX_RINGS_ONLY | NR_TX_RINGS_ONLY | NR_ACCEPT_VNET_HDR | NR_DO_RX_POLL
        | NR_NO_TX_POLL
}

/// Every register mode fits under `NR_REG_MASK`, and the register flags lie
/// above it, each a bit of its own: a mode combined with any set of flags
/// gives both back.
pub proof fn lemma_register_mode_and_flags(mode: u32, flags: u32)
    requires
        is_register_mode(mode),
        flags & !register_flag_bits() == 0,
    ensures
        (mode | flags) & (NR_REG_MASK as u32) == mode,
        (mode | flags) & register_flag_bits() == flags,
        NR_MONITOR_TX & NR_MONITOR_RX == 0,
        (NR_MONITOR_TX | NR_MONITOR_RX) & NR_ZCOPY_MON == 0,
        (NR_MONITOR_TX | NR_MONITOR_RX | NR_ZCOPY_MON) & NR_EXCLUSIVE == 0,
        (NR_MONITOR_TX | NR_MONITOR_RX | NR_ZCOPY_MON | NR_EXCLUSIVE) & NR_PTNETMAP_HOST == 0,
        (NR_MONITOR_TX | NR_MONITOR_RX | NR_ZCOPY_MON | NR_EXCLUSIVE | NR_PTNETMAP_HOST)
            & NR_RX_RINGS_ONLY == 0,
        (NR_MONITOR_TX | NR_MONITOR_RX | NR_ZCOPY_MON | NR_EXCLUSIVE | NR_PTNETMAP_HOST
            | NR_RX_RINGS_ONLY) & NR_TX_RINGS_ONLY == 0,
        (NR_MONITOR_TX | NR_MONITOR_RX | NR_ZCOPY_MON | NR_EXCLUSIVE | NR_PTNETMAP_HOST
            | NR_RX_RINGS_ONLY | NR_TX_RINGS_ONLY) & NR_ACCEPT_VNET_HDR == 0,
        (NR_MONITOR_TX | NR_MONITOR_RX | NR_ZCOPY_MON | NR_EXCLUSIVE | NR_PTNETMAP_HOST
            | NR_RX_RINGS_ONLY | NR_TX_RINGS_ONLY | NR_ACCEPT_VNET_HDR) & NR_DO_RX_POLL == 0,
        (NR_MONITOR_TX | NR_MONITOR_RX | NR_ZCOPY_MON | NR_EXCLUSIVE | NR_PTNETMAP_HOST
            | NR_RX_RINGS_ONLY | NR_TX_RINGS_ONLY | NR_ACCEPT_VNET_HDR | NR_DO_RX_POLL)
            & NR_NO_TX_POLL == 0,
{
    assert(NR_REG_MASK as u32 == 0xf) by (bit_vector);
    assert(NR_MONITOR_TX | NR_MONITOR_RX | NR_ZCOPY_MON | NR_EXCLUSIVE | NR_PTNETMAP_HOST
        | NR_RX_RINGS_ONLY | NR_TX_RINGS_ONLY | NR_ACCEPT_VNET_HDR | NR_DO_RX_POLL
        | NR_NO_TX_POLL == 0x3ff00) by (bit_vector);
    assert({
        &&& NR_MONITOR_TX & NR_MONITOR_RX == 0
        &&& (NR_MONITOR_TX | NR_MONITOR_RX) & NR_ZCOPY_MON == 0
        &&& (NR_MONITOR_TX | NR_MONITOR_RX | NR_ZCOPY_MON) & NR_EXCLUSIVE == 0
        &&& (NR_MONITOR_TX | NR_MONITOR_RX | NR_ZCOPY_MON | NR_EXCLUSIVE) & NR_PTNETMAP_HOST == 0
        &&& (NR_MONITOR_TX | NR_MONITOR_RX | NR_ZCOPY_MON | NR_EXCLUSIVE | NR_PTNETMAP_HOST)
            & NR_RX_RINGS_ONLY == 0
        &&& (NR_MONITOR_TX | NR_MONITOR_RX | NR_ZCOPY_MON | NR_EXCLUSIVE | NR_PTNETMAP_HOST
            | NR_RX_RINGS_ONLY) & NR_TX_RINGS_ONLY == 0
        &&& (NR_MONITOR_TX | NR_MONITOR_RX | NR_ZCOPY_MON | NR_EXCLUSIVE | NR_PTNETMAP_HOST
            | NR_RX_RINGS_ONLY | NR_TX_RINGS_ONLY) & NR_ACCEPT_VNET_HDR == 0
        &&& (NR_MONITOR_TX | NR_MONITOR_RX | NR_ZCOPY_MON | NR_EXCLUSIVE | NR_PTNETMAP_HOST
            | NR_RX_RINGS_ONLY | NR_TX_RINGS_ONLY | NR_ACCEPT_VNET_HDR) & NR_DO_RX_POLL == 0
        &&& (NR_MONITOR_TX | NR_MONITOR_RX | NR_ZCOPY_MON | NR_EXCLUSIVE | NR_PTNETMAP_HOST
            | NR_RX_RINGS_ONLY | NR_TX_RINGS_ONLY | NR_ACCEPT_VNET_HDR | NR_DO_RX_POLL)
            & NR_NO_TX_POLL == 0
    }) by (bit_vector);
    assert((mode | flags) & 0xf == mode && (mode | flags) & 0x3ff00 == flags) by (bit_vector)
        requires
            mode <= 6,
            flags & !0x3ff00u32 == 0,
    ;
}

pub const NIOCGINFO: c_ulong = 3225184657;

pub const NIOCREGIF: c_ulong = 3225184658;

pub const NIOCCONFIG: c_ulong = 3239078294;

/// A ring is empty exactly when its `head` and `tail` coincide: no slot lies
/// between them.
pub fn nm_ring_empty(ring: &netmap_ring) -> (empty: bool)
    ensures
        empty == (ring.head == ring.tail),
{
    ring.head == ring.tail
}

pub const NM_IFRDATA_LEN: usize = 256;

/// Request that carries opaque data to or from a named port.
#[derive(Copy)]
pub struct nm_ifreq {
    pub nifr_name: [c_char; IFNAMSIZ],
    pub data: [c_char; NM_IFRDATA_LEN],
}

impl Clone for nm_ifreq {
    fn clone(&self) -> (res: nm_ifreq)
        ensures
            res == *self,
    {
        *self
    }
}

} // verus!
