use netmap_sys::libnetmap::{
    NMREQ_OPTF_ALLOWEMPTY, NMREQ_OPTF_DISABLED, NMREQ_OPTK_ALLOWEMPTY, NMREQ_OPTK_DEFAULT,
    NMREQ_OPTK_MUSTSET, NMREQ_OPT_MAXKEYS,
};
use netmap_sys::netmap::{
    netmap_ring, netmap_slot, nm_ifreq, nm_ring_empty, nmreq_option, nmreq_opt_extmem,
    nmreq_pools_info, IFNAMSIZ, NETMAP_API, NETMAP_BDG_OFFSET, NETMAP_BDG_VNET_HDR,
    NETMAP_DO_RX_POLL, NETMAP_HW_RING, NETMAP_MAX_API, NETMAP_MIN_API, NETMAP_NO_TX_POLL,
    NETMAP_RING_MASK, NETMAP_SW_RING, NIOCCONFIG, NIOCGINFO, NIOCREGIF, NM_IFRDATA_LEN,
    NR_MONITOR_RX, NR_MONITOR_TX, NR_NO_TX_POLL, NR_REG_MASK, NR_REG_ONE_NIC, NR_REG_PIPE_SLAVE,
    NS_BUF_CHANGED, NS_FORWARD, NS_INDIRECT, NS_MOREFRAG, NS_NO_LEARN, NS_PORT_MASK,
    NS_PORT_SHIFT, NS_REPORT,
};

fn ring(head: u32, cur: u32, tail: u32) -> netmap_ring {
    netmap_ring {
        buf_ofs: 4096,
        num_slots: 1024,
        nr_buf_size: 2048,
        ringid: 3,
        dir: 0,
        head,
        cur,
        tail,
        flags: 0,
        ts: libc::timeval { tv_sec: 7, tv_usec: 9 },
        offset_mask: 0,
        buf_align: 0,
        sem: [5u8; 128],
        slot: [],
    }
}

#[test]
fn ring_with_head_at_tail_is_empty() {
    assert!(nm_ring_empty(&ring(0, 0, 0)));
    assert!(nm_ring_empty(&ring(17, 20, 17)));
    assert!(nm_ring_empty(&ring(1023, 1023, 1023)));
}

#[test]
fn ring_with_head_before_or_after_tail_is_not_empty() {
    assert!(!nm_ring_empty(&ring(0, 0, 1)));
    assert!(!nm_ring_empty(&ring(5, 5, 4)));
    // cur has no part in it
    assert!(!nm_ring_empty(&ring(10, 12, 12)));
}

#[test]
fn ring_clone_keeps_every_field() {
    let r = ring(3, 4, 9);
    let c = r.clone();
    assert_eq!(c.buf_ofs, 4096);
    assert_eq!(c.num_slots, 1024);
    assert_eq!(c.nr_buf_size, 2048);
    assert_eq!(c.ringid, 3);
    assert_eq!((c.head, c.cur, c.tail), (3, 4, 9));
    assert_eq!(c.ts.tv_sec, 7);
    assert_eq!(c.ts.tv_usec, 9);
    assert_eq!(c.sem, [5u8; 128]);
    assert_eq!(nm_ring_empty(&c), nm_ring_empty(&r));
}

#[test]
fn ifreq_clone_keeps_name_and_data() {
    let mut name = [0 as libc::c_char; IFNAMSIZ];
    name[0] = b'e' as libc::c_char;
    name[1] = b'm' as libc::c_char;
    let mut data = [0 as libc::c_char; NM_IFRDATA_LEN];
    data[255] = 42;
    let q = nm_ifreq { nifr_name: name, data };
    let c = q.clone();
    assert_eq!(c.nifr_name, name);
    assert_eq!(c.data[255], 42);
    assert_eq!(c.data[..255], [0 as libc::c_char; 255][..]);
}

#[test]
fn api_versions_are_in_range() {
    assert_eq!(NETMAP_API, 11);
    assert!(NETMAP_MIN_API <= NETMAP_API && NETMAP_API <= NETMAP_MAX_API);
}

#[test]
fn bridge_offset_is_vnet_header() {
    assert_eq!(NETMAP_BDG_OFFSET, NETMAP_BDG_VNET_HDR);
    assert_eq!(NETMAP_BDG_OFFSET, 5);
}

#[test]
fn slot_port_and_flags_share_the_flags_field() {
    assert_eq!(NS_PORT_MASK, 0xff00);
    let all = NS_BUF_CHANGED | NS_REPORT | NS_FORWARD | NS_NO_LEARN | NS_INDIRECT | NS_MOREFRAG;
    assert_eq!(all, 0x3f);
    let port: u16 = 0xab;
    let packed: u16 = (port << NS_PORT_SHIFT) | NS_FORWARD | NS_MOREFRAG;
    assert_eq!((packed & NS_PORT_MASK as u16) >> NS_PORT_SHIFT, 0xab);
    assert_eq!(packed & all, NS_FORWARD | NS_MOREFRAG);
    let slot = netmap_slot { buf_idx: 2, len: 60, flags: packed, ptr: 0 };
    assert_eq!(slot.flags, 0xab24);
}

#[test]
fn ring_id_holds_index_and_flags() {
    let flags = (NETMAP_HW_RING | NETMAP_SW_RING | NETMAP_NO_TX_POLL | NETMAP_DO_RX_POLL) as u16;
    assert_eq!(flags, 0xf000);
    let id: u16 = 0x123 | NETMAP_NO_TX_POLL as u16;
    assert_eq!(id & NETMAP_RING_MASK as u16, 0x123);
    assert_eq!(id & flags, 0x1000);
}

#[test]
fn register_mode_and_flags_share_a_field() {
    let v: u32 = NR_REG_ONE_NIC | NR_MONITOR_TX | NR_NO_TX_POLL;
    assert_eq!(v & NR_REG_MASK as u32, NR_REG_ONE_NIC);
    assert_eq!(v & !(NR_REG_MASK as u32), NR_MONITOR_TX | NR_NO_TX_POLL);
    assert!(NR_REG_PIPE_SLAVE <= NR_REG_MASK as u32);
    assert_eq!(NR_MONITOR_TX & NR_MONITOR_RX, 0);
}

#[test]
fn ioctl_numbers() {
    assert_eq!(NIOCGINFO, 3225184657);
    assert_eq!(NIOCREGIF, 3225184658);
    assert_eq!(NIOCCONFIG, 3239078294);
}

#[test]
fn option_parser_flags_are_distinct_bits() {
    assert_eq!(NMREQ_OPT_MAXKEYS, 16);
    assert_eq!(NMREQ_OPTK_ALLOWEMPTY | NMREQ_OPTK_MUSTSET | NMREQ_OPTK_DEFAULT, 0b111);
    assert_eq!(NMREQ_OPTF_DISABLED | NMREQ_OPTF_ALLOWEMPTY, 0b11);
}

#[test]
fn extmem_option_nests_header_and_pool_info() {
    let info = nmreq_pools_info {
        nr_memsize: 1 << 20,
        nr_mem_id: 2,
        pad1: [0; 3],
        nr_if_pool_offset: 0,
        nr_if_pool_objtotal: 1,
        nr_if_pool_objsize: 1024,
        nr_ring_pool_offset: 1024,
        nr_ring_pool_objtotal: 2,
        nr_ring_pool_objsize: 4096,
        nr_buf_pool_offset: 9216,
        nr_buf_pool_objtotal: 100,
        nr_buf_pool_objsize: 2048,
    };
    let opt = nmreq_opt_extmem {
        nro_opt: nmreq_option { nro_next: 0, nro_reqtype: 1, nro_status: 0, nro_size: 0 },
        nro_usrptr: 0x1000,
        nro_info: info,
    };
    let copy = opt;
    assert_eq!(copy.nro_info.nr_mem_id, 2);
    assert_eq!(copy.nro_opt.nro_reqtype, 1);
}
