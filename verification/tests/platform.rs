use uniedge::dtb::{compatible_reg, fdt_search_is_safe};
use uniedge::platform::{
    first_virtio_mmio, is_virtio_net, scan_virtio_mmio, DeviceSearch, VirtioMmioDevice,
    DEVICE_ID_OFFSET, MAGIC_OFFSET, VERSION_OFFSET, VIRTIO_DEVICE_ID_NET, VIRTIO_MAGIC,
    VIRTIO_MMIO_END, VIRTIO_MMIO_START, VIRTIO_MMIO_STRIDE,
};

fn safe(dtb: &[u8]) -> bool {
    fdt_search_is_safe(dtb, "virtio,mmio")
}

fn be(v: u32) -> [u8; 4] {
    v.to_be_bytes()
}

fn pad4(buf: &mut Vec<u8>) {
    while buf.len() % 4 != 0 {
        buf.push(0);
    }
}

struct Strings {
    block: Vec<u8>,
}

impl Strings {
    fn offset(&mut self, name: &str) -> u32 {
        let off = self.block.len() as u32;
        self.block.extend_from_slice(name.as_bytes());
        self.block.push(0);
        off
    }
}

fn prop(structs: &mut Vec<u8>, strings: &mut Strings, name: &str, value: &[u8]) {
    structs.extend_from_slice(&be(3));
    structs.extend_from_slice(&be(value.len() as u32));
    structs.extend_from_slice(&be(strings.offset(name)));
    structs.extend_from_slice(value);
    pad4(structs);
}

fn begin_node(structs: &mut Vec<u8>, name: &str) {
    structs.extend_from_slice(&be(1));
    structs.extend_from_slice(name.as_bytes());
    structs.push(0);
    pad4(structs);
}

fn blob(structs: &[u8], strings: &[u8]) -> Vec<u8> {
    let off_rsv = 40u32;
    let off_struct = off_rsv + 16;
    let off_strings = off_struct + structs.len() as u32;
    let total = off_strings + strings.len() as u32;
    let mut out = Vec::new();
    for word in [
        0xd00d_feed,
        total,
        off_struct,
        off_strings,
        off_rsv,
        17,
        16,
        0,
        strings.len() as u32,
        structs.len() as u32,
    ] {
        out.extend_from_slice(&be(word));
    }
    out.extend_from_slice(&[0u8; 16]);
    out.extend_from_slice(structs);
    out.extend_from_slice(strings);
    out
}

/// A device tree with one node of the given `compatible` string and a `reg`
/// entry `(base, size)`; `size_cells` is the parent's `#size-cells`.
fn dtb_with(compatible: &str, base: u64, size: u64, size_cells: u32) -> Vec<u8> {
    let mut strings = Strings { block: Vec::new() };
    let mut structs = Vec::new();
    begin_node(&mut structs, "");
    prop(&mut structs, &mut strings, "#address-cells", &be(2));
    prop(&mut structs, &mut strings, "#size-cells", &be(size_cells));
    begin_node(&mut structs, "virtio_mmio@a000000");
    let mut compat = compatible.as_bytes().to_vec();
    compat.push(0);
    prop(&mut structs, &mut strings, "compatible", &compat);
    let mut reg = Vec::new();
    reg.extend_from_slice(&base.to_be_bytes());
    if size_cells == 2 {
        reg.extend_from_slice(&size.to_be_bytes());
    }
    prop(&mut structs, &mut strings, "reg", &reg);
    structs.extend_from_slice(&be(2));
    structs.extend_from_slice(&be(2));
    structs.extend_from_slice(&be(9));
    blob(&structs, &strings.block)
}

/// Runs a search against a probe, recording the addresses probed.
fn drive(mut search: DeviceSearch, is_net: impl Fn(usize) -> bool) -> (Option<VirtioMmioDevice>, Vec<usize>) {
    let mut probed = Vec::new();
    while let Some(base) = search.next_probe() {
        probed.push(base);
        search.report(is_net(base));
    }
    (search.result(), probed)
}

fn slots() -> Vec<usize> {
    (0..32).map(|i| VIRTIO_MMIO_START + i * VIRTIO_MMIO_STRIDE).collect()
}

#[test]
fn register_offsets() {
    assert_eq!(MAGIC_OFFSET, 0);
    assert_eq!(VERSION_OFFSET, 4);
    assert_eq!(DEVICE_ID_OFFSET, 8);
}

#[test]
fn virtio_net_needs_magic_version_and_net_id() {
    assert_eq!(VIRTIO_MAGIC, u32::from_le_bytes(*b"virt"));
    assert!(is_virtio_net(VIRTIO_MAGIC, 1, VIRTIO_DEVICE_ID_NET));
    assert!(is_virtio_net(VIRTIO_MAGIC, 2, 1));
    assert!(!is_virtio_net(VIRTIO_MAGIC, 0, 1));
    assert!(!is_virtio_net(VIRTIO_MAGIC, 2, 2));
    assert!(!is_virtio_net(0, 2, 1));
}

#[test]
fn scan_returns_first_matching_slot_and_stops() {
    let (found, probed) = drive(scan_virtio_mmio(), |b| b == 0x0a00_0600 || b == 0x0a00_1000);
    assert_eq!(found, Some(VirtioMmioDevice { base: 0x0a00_0600, size: 0x200 }));
    assert_eq!(probed, vec![0x0a00_0000, 0x0a00_0200, 0x0a00_0400, 0x0a00_0600]);
}

#[test]
fn scan_probes_every_slot_in_order_when_none_matches() {
    let (found, probed) = drive(scan_virtio_mmio(), |_| false);
    assert_eq!(found, None);
    assert_eq!(probed, slots());
    assert_eq!(VIRTIO_MMIO_END, 0x0a00_4000);
}

#[test]
fn scan_finds_the_last_slot() {
    let (found, probed) = drive(scan_virtio_mmio(), |b| b == 0x0a00_3e00);
    assert_eq!(found, Some(VirtioMmioDevice { base: 0x0a00_3e00, size: 0x200 }));
    assert_eq!(probed, slots());
}

#[test]
fn report_after_the_end_changes_nothing() {
    let mut search = scan_virtio_mmio();
    search.report(true);
    assert_eq!(search.next_probe(), None);
    search.report(false);
    assert_eq!(search.result(), Some(VirtioMmioDevice { base: 0x0a00_0000, size: 0x200 }));
}

#[test]
fn confirmed_device_tree_candidate_wins_without_scan() {
    let (found, probed) =
        drive(DeviceSearch::new(Some((0x1000_0000, Some(0x1000)))), |b| b == 0x1000_0000 || b == 0x0a00_0000);
    assert_eq!(found, Some(VirtioMmioDevice { base: 0x1000_0000, size: 0x1000 }));
    assert_eq!(probed, vec![0x1000_0000]);
    let (found, _) = drive(DeviceSearch::new(Some((0x1000_0000, None))), |b| b == 0x1000_0000);
    assert_eq!(found, Some(VirtioMmioDevice { base: 0x1000_0000, size: 0x200 }));
}

#[test]
fn unconfirmed_candidate_falls_back_to_scan() {
    let (found, probed) =
        drive(DeviceSearch::new(Some((0x0900_0000, Some(0x200)))), |b| b == 0x0a00_0200);
    assert_eq!(found, Some(VirtioMmioDevice { base: 0x0a00_0200, size: 0x200 }));
    assert_eq!(probed, vec![0x0900_0000, 0x0a00_0000, 0x0a00_0200]);
}

#[test]
fn device_tree_node_is_found() {
    let dtb = dtb_with("virtio,mmio", 0x0a00_3e00, 0x200, 2);
    assert!(safe(&dtb));
    assert_eq!(compatible_reg(&dtb, "virtio,mmio"), Some((0x0a00_3e00, Some(0x200))));
    let (found, probed) = drive(first_virtio_mmio(&dtb), |b| b == 0x0a00_3e00);
    assert_eq!(found, Some(VirtioMmioDevice { base: 0x0a00_3e00, size: 0x200 }));
    assert_eq!(probed, vec![0x0a00_3e00]);
}

#[test]
fn compatible_string_is_honoured() {
    let dtb = dtb_with("arm,pl011", 0x0900_0000, 0x1000, 2);
    assert_eq!(compatible_reg(&dtb, "arm,pl011"), Some((0x0900_0000, Some(0x1000))));
    assert_eq!(compatible_reg(&dtb, "virtio,mmio"), None);
}

#[test]
fn device_tree_size_is_used() {
    let dtb = dtb_with("virtio,mmio", 0x2000_0000, 0x1000, 2);
    let (found, _) = drive(first_virtio_mmio(&dtb), |b| b == 0x2000_0000);
    assert_eq!(found, Some(VirtioMmioDevice { base: 0x2000_0000, size: 0x1000 }));
}

#[test]
fn device_tree_without_size_cells_uses_stride() {
    let dtb = dtb_with("virtio,mmio", 0x2000_0000, 0, 0);
    assert_eq!(compatible_reg(&dtb, "virtio,mmio"), Some((0x2000_0000, None)));
    let (found, _) = drive(first_virtio_mmio(&dtb), |b| b == 0x2000_0000);
    assert_eq!(found, Some(VirtioMmioDevice { base: 0x2000_0000, size: 0x200 }));
}

#[test]
fn device_tree_without_virtio_node_falls_back_to_scan() {
    let dtb = dtb_with("arm,pl011", 0x0900_0000, 0x1000, 2);
    let (found, probed) = drive(first_virtio_mmio(&dtb), |b| b == 0x0900_0000 || b == 0x0a00_0400);
    assert_eq!(found, Some(VirtioMmioDevice { base: 0x0a00_0400, size: 0x200 }));
    assert_eq!(probed, vec![0x0a00_0000, 0x0a00_0200, 0x0a00_0400]);
}

#[test]
fn bad_magic_falls_back_to_scan() {
    let mut dtb = dtb_with("virtio,mmio", 0x2000_0000, 0x1000, 2);
    dtb[0] = 0;
    assert!(safe(&dtb));
    assert_eq!(compatible_reg(&dtb, "virtio,mmio"), None);
    let (found, _) = drive(first_virtio_mmio(&dtb), |b| b == 0x2000_0000 || b == 0x0a00_0000);
    assert_eq!(found, Some(VirtioMmioDevice { base: 0x0a00_0000, size: 0x200 }));
}

#[test]
fn truncated_blob_falls_back_to_scan() {
    let dtb = dtb_with("virtio,mmio", 0x2000_0000, 0x1000, 2);
    assert!(safe(&dtb[..dtb.len() - 1]));
    assert_eq!(compatible_reg(&dtb[..dtb.len() - 1], "virtio,mmio"), None);
    assert!(safe(&dtb[..10]));
    let (found, _) =
        drive(first_virtio_mmio(&dtb[..10]), |b| b == 0x2000_0000 || b == 0x0a00_0000);
    assert_eq!(found, Some(VirtioMmioDevice { base: 0x0a00_0000, size: 0x200 }));
}

#[test]
fn structure_block_outside_the_blob_is_unsafe() {
    let mut dtb = Vec::new();
    for word in [0xd00d_feedu32, 40, 0x1000, 40, 40, 17, 16, 0, 0, 0] {
        dtb.extend_from_slice(&be(word));
    }
    assert!(!safe(&dtb));
    assert_eq!(compatible_reg(&dtb, "virtio,mmio"), None);
    let (found, _) = drive(first_virtio_mmio(&dtb), |b| b == 0x0a00_0000);
    assert_eq!(found, Some(VirtioMmioDevice { base: 0x0a00_0000, size: 0x200 }));
}

#[test]
fn invalid_utf8_node_name_is_unsafe() {
    let mut structs = Vec::new();
    begin_node(&mut structs, "");
    structs.extend_from_slice(&be(1));
    structs.extend_from_slice(&[0xff, 0xfe, 0x00, 0x00]);
    structs.extend_from_slice(&be(2));
    structs.extend_from_slice(&be(2));
    let dtb = blob(&structs, b"unused\0");
    assert!(!safe(&dtb));
    assert_eq!(compatible_reg(&dtb, "virtio,mmio"), None);
}

#[test]
fn utf8_node_name_is_read() {
    let mut strings = Strings { block: Vec::new() };
    let mut structs = Vec::new();
    begin_node(&mut structs, "");
    prop(&mut structs, &mut strings, "#address-cells", &be(1));
    prop(&mut structs, &mut strings, "#size-cells", &be(1));
    begin_node(&mut structs, "périphérique@9000000");
    prop(&mut structs, &mut strings, "compatible", b"virtio,mmio\0");
    let mut reg = be(0x0900_0000).to_vec();
    reg.extend_from_slice(&be(0x200));
    prop(&mut structs, &mut strings, "reg", &reg);
    structs.extend_from_slice(&be(2));
    structs.extend_from_slice(&be(2));
    let dtb = blob(&structs, &strings.block);
    assert!(safe(&dtb));
    assert_eq!(compatible_reg(&dtb, "virtio,mmio"), Some((0x0900_0000, Some(0x200))));
}

#[test]
fn nesting_deeper_than_63_levels_is_unsafe() {
    let nested = |depth: usize| {
        let mut structs = Vec::new();
        for _ in 0..depth {
            begin_node(&mut structs, "n");
        }
        for _ in 0..depth {
            structs.extend_from_slice(&be(2));
        }
        blob(&structs, &[])
    };
    assert!(safe(&nested(63)));
    assert!(!safe(&nested(64)));
}

#[test]
fn property_past_the_block_is_unsafe() {
    let mut strings = Strings { block: Vec::new() };
    let mut structs = Vec::new();
    begin_node(&mut structs, "");
    structs.extend_from_slice(&be(3));
    structs.extend_from_slice(&be(1000));
    structs.extend_from_slice(&be(strings.offset("reg")));
    structs.extend_from_slice(&be(2));
    assert!(!safe(&blob(&structs, &strings.block)));
}

#[test]
fn property_name_outside_strings_is_unsafe() {
    let mut structs = Vec::new();
    begin_node(&mut structs, "");
    structs.extend_from_slice(&be(3));
    structs.extend_from_slice(&be(0));
    structs.extend_from_slice(&be(50));
    structs.extend_from_slice(&be(2));
    assert!(!safe(&blob(&structs, b"reg\0")));
}

/// A root with the given `#address-cells` value and one child that is
/// compatible with `compatible`.
fn dtb_with_cells(address_cells: &[u8], compatible: &[u8]) -> Vec<u8> {
    let mut strings = Strings { block: Vec::new() };
    let mut structs = Vec::new();
    begin_node(&mut structs, "");
    prop(&mut structs, &mut strings, "#address-cells", address_cells);
    begin_node(&mut structs, "dev");
    prop(&mut structs, &mut strings, "compatible", compatible);
    let mut reg = be(0x0900_0000).to_vec();
    reg.extend_from_slice(&be(0x100));
    prop(&mut structs, &mut strings, "reg", &reg);
    structs.extend_from_slice(&be(2));
    structs.extend_from_slice(&be(2));
    blob(&structs, &strings.block)
}

#[test]
fn short_cell_count_in_parent_of_match_is_unsafe() {
    assert!(!safe(&dtb_with_cells(&[0, 1], b"virtio,mmio\0")));
    assert!(safe(&dtb_with_cells(&[0, 0, 0, 1], b"virtio,mmio\0")));
    assert_eq!(
        compatible_reg(&dtb_with_cells(&[0, 0, 0, 1], b"virtio,mmio\0"), "virtio,mmio"),
        Some((0x0900_0000, Some(0x100)))
    );
}

#[test]
fn short_cell_count_is_harmless_without_match() {
    let dtb = dtb_with_cells(&[0, 1], b"arm,pl011\0");
    assert!(safe(&dtb));
    assert_eq!(compatible_reg(&dtb, "virtio,mmio"), None);
}

#[test]
fn compatible_list_is_searched() {
    let dtb = dtb_with_cells(&[0, 0, 0, 1], b"foo,bar\0virtio,mmio\0");
    assert_eq!(compatible_reg(&dtb, "virtio,mmio"), Some((0x0900_0000, Some(0x100))));
}

#[test]
fn extra_closing_token_is_unsafe_when_reached() {
    let mut structs = Vec::new();
    begin_node(&mut structs, "");
    structs.extend_from_slice(&be(2));
    structs.extend_from_slice(&be(2));
    assert!(!safe(&blob(&structs, &[])));
}

#[test]
fn anything_after_the_matching_node_is_not_read() {
    // A virtio node followed by an unknown token, an extra closing token and
    // garbage: the crate stops at the node, so the lookup is safe and finds it.
    let mut strings = Strings { block: Vec::new() };
    let mut structs = Vec::new();
    begin_node(&mut structs, "");
    prop(&mut structs, &mut strings, "#address-cells", &be(1));
    prop(&mut structs, &mut strings, "#size-cells", &be(1));
    begin_node(&mut structs, "virtio_mmio@a000400");
    prop(&mut structs, &mut strings, "compatible", b"virtio,mmio\0");
    let mut reg = be(0x0a00_0400).to_vec();
    reg.extend_from_slice(&be(0x200));
    prop(&mut structs, &mut strings, "reg", &reg);
    structs.extend_from_slice(&be(0x77));
    structs.extend_from_slice(&be(2));
    structs.extend_from_slice(&be(2));
    structs.extend_from_slice(&be(2));
    let dtb = blob(&structs, &strings.block);
    assert!(safe(&dtb));
    let (found, probed) =
        drive(first_virtio_mmio(&dtb), |b| b == 0x0a00_0400 || b == 0x0a00_0000);
    assert_eq!(found, Some(VirtioMmioDevice { base: 0x0a00_0400, size: 0x200 }));
    assert_eq!(probed, vec![0x0a00_0400]);
}

#[test]
fn property_after_a_child_is_accepted() {
    let mut strings = Strings { block: Vec::new() };
    let mut structs = Vec::new();
    begin_node(&mut structs, "");
    begin_node(&mut structs, "a");
    structs.extend_from_slice(&be(2));
    prop(&mut structs, &mut strings, "model", b"x\0");
    structs.extend_from_slice(&be(2));
    let dtb = blob(&structs, &strings.block);
    assert!(safe(&dtb));
    assert_eq!(compatible_reg(&dtb, "virtio,mmio"), None);
}

#[test]
fn bad_header_is_safe_and_finds_nothing() {
    let mut dtb = dtb_with("virtio,mmio", 0x2000_0000, 0x1000, 2);
    dtb[0] = 0;
    assert!(safe(&dtb));
    assert_eq!(compatible_reg(&dtb, "virtio,mmio"), None);
}

#[test]
fn nop_between_root_properties_ends_the_walk() {
    // The crate stops walking the nodes at a NOP between a node's properties;
    // nothing panics, and no node after it is found.
    let mut strings = Strings { block: Vec::new() };
    let mut structs = Vec::new();
    begin_node(&mut structs, "");
    prop(&mut structs, &mut strings, "#address-cells", &be(1));
    structs.extend_from_slice(&be(4));
    prop(&mut structs, &mut strings, "#size-cells", &be(1));
    begin_node(&mut structs, "dev@9000000");
    prop(&mut structs, &mut strings, "compatible", b"virtio,mmio\0");
    structs.extend_from_slice(&be(2));
    structs.extend_from_slice(&be(2));
    let dtb = blob(&structs, &strings.block);
    assert!(safe(&dtb));
    assert_eq!(compatible_reg(&dtb, "virtio,mmio"), None);
}

#[test]
fn nop_tokens_are_skipped() {
    let mut strings = Strings { block: Vec::new() };
    let mut structs = Vec::new();
    structs.extend_from_slice(&be(4));
    begin_node(&mut structs, "");
    structs.extend_from_slice(&be(4));
    prop(&mut structs, &mut strings, "#address-cells", &be(1));
    prop(&mut structs, &mut strings, "#size-cells", &be(1));
    structs.extend_from_slice(&be(4));
    begin_node(&mut structs, "dev@9000000");
    prop(&mut structs, &mut strings, "compatible", b"virtio,mmio\0");
    structs.extend_from_slice(&be(4));
    let mut reg = be(0x0900_0000).to_vec();
    reg.extend_from_slice(&be(0x400));
    prop(&mut structs, &mut strings, "reg", &reg);
    structs.extend_from_slice(&be(2));
    structs.extend_from_slice(&be(4));
    structs.extend_from_slice(&be(2));
    structs.extend_from_slice(&be(9));
    let dtb = blob(&structs, &strings.block);
    assert!(safe(&dtb));
    assert_eq!(compatible_reg(&dtb, "virtio,mmio"), Some((0x0900_0000, Some(0x400))));
}

#[test]
fn every_safe_mutation_reads_without_panic() {
    let base = dtb_with("virtio,mmio", 0x0a00_3e00, 0x200, 2);
    let mut checked = 0;
    for i in 0..base.len() {
        for v in [0u8, 1, 2, 3, 4, 5, 9, 0x23, 0x7f, 0x80, 0xc3, 0xff] {
            let mut dtb = base.clone();
            dtb[i] = v;
            if safe(&dtb) {
                checked += 1;
                let _ = compatible_reg(&dtb, "virtio,mmio");
            }
        }
        if safe(&base[..i]) {
            let _ = compatible_reg(&base[..i], "virtio,mmio");
        }
    }
    assert!(checked > 0);
}
