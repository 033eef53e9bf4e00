//! Looking a node up in the flattened device tree blob that the firmware
//! hands over.
//!
//! The lookup is done by the `fdt` crate, which trusts the blob's layout: an
//! offset out of range, a name without terminator or not UTF-8, a short
//! `#address-cells` value, a closing token too many or nodes nested too deep
//! make it panic. [`fdt_search_is_safe`] follows the crate's own walk over the
//! blob, up to the first node whose `compatible` property lists the string
//! sought (and the properties of that node's parent), and tells whether that
//! walk reaches its end without one of these panics; the crate is only called
//! when it does. A closing token too many steps the crate's nesting counter
//! below zero, which is counted as a panic, as in a build with overflow
//! checks.
use vstd::prelude::*;
use vstd::string::StringSliceAdditionalSpecFns;
use vstd::utf8::valid_utf8;

verus! {

/// Length in bytes of a flattened device tree header.
pub const FDT_HEADER_LEN: usize = 40;

/// Magic number at the start of a flattened device tree.
pub const FDT_MAGIC: u32 = 0xd00d_feed;

/// Structure-block token that opens a node.
pub const FDT_BEGIN_NODE: u32 = 1;

/// Structure-block token that closes a node.
pub const FDT_END_NODE: u32 = 2;

/// Structure-block token that introduces a property.
pub const FDT_PROP: u32 = 3;

/// Structure-block token that does nothing.
pub const FDT_NOP: u32 = 4;

/// Token at which the `fdt` crate stops walking the nodes.
pub const FDT_END: u32 = 5;

/// Number of nesting levels the `fdt` crate keeps track of; the root is at
/// level 1, so a node may sit at level 63 at most.
pub const FDT_MAX_LEVELS: usize = 64;

/// The big-endian 32-bit word at byte offset `off` of `s`.
pub open spec fn be_u32(s: Seq<u8>, off: int) -> int {
    s[off] * 0x100_0000 + s[off + 1] * 0x1_0000 + s[off + 2] * 0x100 + s[off + 3]
}

/// `n` rounded up to a multiple of 4 (for `n >= 0`).
pub open spec fn align4(n: int) -> int {
    (n + 3) - (n + 3) % 4
}

/// The first NUL of `s` at or after `i`.
pub open spec fn nul_at(s: Seq<u8>, i: int) -> Option<int>
    decreases s.len() - i,
{
    if i < 0 || i >= s.len() {
        None
    } else if s[i] == 0 {
        Some(i)
    } else {
        nul_at(s, i + 1)
    }
}

/// A NUL found by [`nul_at`] lies at or after the start, within `s`.
pub proof fn nul_at_bounds(s: Seq<u8>, i: int)
    ensures
        nul_at(s, i) is Some ==> i <= nul_at(s, i)->0 < s.len() && s[nul_at(s, i)->0] == 0,
    decreases s.len() - i,
{
    if 0 <= i < s.len() && s[i] != 0 {
        nul_at_bounds(s, i + 1);
    }
}

/// The position `n` bytes after `p` in the block `b`, or its end if that lies
/// beyond (skipping past the end leaves nothing to read).
pub open spec fn adv(b: Seq<u8>, p: int, n: int) -> int {
    if p + n <= b.len() {
        p + n
    } else {
        b.len() as int
    }
}

/// The first position at or after `p` of the block `b` that does not hold a
/// NOP token.
pub open spec fn skip_nops(b: Seq<u8>, p: int) -> int
    decreases b.len() - p,
{
    if 0 <= p && p + 4 <= b.len() && be_u32(b, p) == FDT_NOP {
        skip_nops(b, p + 4)
    } else {
        p
    }
}

/// Skipping NOP tokens moves forward and stays within the block.
pub proof fn skip_nops_bounds(b: Seq<u8>, p: int)
    requires
        0 <= p <= b.len(),
    ensures
        p <= skip_nops(b, p) <= b.len(),
    decreases b.len() - p,
{
    if p + 4 <= b.len() && be_u32(b, p) == FDT_NOP {
        skip_nops_bounds(b, p + 4);
    }
}

/// Reads the property whose token is at `q` of the structure block `b`, with
/// `t` the strings block (`t_ok` tells whether the header places it within
/// the blob). The crate panics unless the property header and value lie in
/// the block, the strings block is in place, and the name offset starts a
/// NUL-terminated UTF-8 string within it. The result gives where the block
/// goes on, the name (`t[.1..2]`) and the value (`b[.3..4]`).
pub open spec fn parse_prop(b: Seq<u8>, t: Seq<u8>, t_ok: bool, q: int) -> Option<
    (int, int, int, int, int),
> {
    if q < 0 || q + 12 > b.len() {
        None
    } else {
        let len = be_u32(b, q + 4);
        let off = be_u32(b, q + 8);
        if q + 12 + len > b.len() || !t_ok || off > t.len() {
            None
        } else {
            match nul_at(t, off) {
                Some(j) => if valid_utf8(t.subrange(off, j)) {
                    Some((adv(b, q + 12, align4(len)), off, j, q + 12, q + 12 + len))
                } else {
                    None
                },
                None => None,
            }
        }
    }
}

/// The first NUL at or after `i` is the one at `j` when no byte in between is
/// NUL.
pub proof fn nul_at_first(s: Seq<u8>, i: int, j: int)
    requires
        0 <= i <= j < s.len(),
        s[j] == 0,
        forall|k: int| i <= k < j ==> s[k] != 0,
    ensures
        nul_at(s, i) == Some(j),
    decreases j - i,
{
    if i < j {
        nul_at_first(s, i + 1, j);
    }
}

/// A property is read whenever its 12-byte header and its value lie in the
/// structure block and its name is a NUL-terminated UTF-8 string of the
/// strings block: the value is `b[q + 12 .. q + 12 + len]`, the name
/// `t[off .. j]`, and the walk goes on past the value padded to 4 bytes (or
/// at the end of the block). An empty value is no exception: it is read as
/// the empty range at `q + 12`, and the walk goes on at `q + 12`.
pub proof fn property_is_read(b: Seq<u8>, t: Seq<u8>, q: int, j: int)
    requires
        0 <= q,
        q + 12 <= b.len(),
        q + 12 + be_u32(b, q + 4) <= b.len(),
        be_u32(b, q + 8) <= j < t.len(),
        t[j] == 0,
        forall|k: int| be_u32(b, q + 8) <= k < j ==> t[k] != 0,
        valid_utf8(t.subrange(be_u32(b, q + 8), j)),
    ensures
        ({
            let len = be_u32(b, q + 4);
            let padded = q + 12 + len + (4 - len % 4) % 4;
            parse_prop(b, t, true, q) == Some(
                (
                    if padded <= b.len() {
                        padded
                    } else {
                        b.len() as int
                    },
                    be_u32(b, q + 8),
                    j,
                    q + 12,
                    q + 12 + len,
                ),
            )
        }),
        be_u32(b, q + 4) == 0 ==> parse_prop(b, t, true, q) == Some(
            (q + 12, be_u32(b, q + 8), j, q + 12, q + 12),
        ),
{
    nul_at_first(t, be_u32(b, q + 8), j);
}

/// `compatible` as bytes.
pub open spec fn name_compatible() -> Seq<u8> {
    "compatible".spec_bytes()
}

/// `#address-cells` as bytes.
pub open spec fn name_address_cells() -> Seq<u8> {
    "#address-cells".spec_bytes()
}

/// `#size-cells` as bytes.
pub open spec fn name_size_cells() -> Seq<u8> {
    "#size-cells".spec_bytes()
}

/// What is remembered of a node's properties while reading them: the value
/// of the last `compatible` property, and whether every `#address-cells` and
/// `#size-cells` property has the 4 bytes the crate reads from it.
pub open spec fn note_prop(
    t: Seq<u8>,
    acc: (Option<(int, int)>, bool),
    prop: (int, int, int, int, int),
) -> (Option<(int, int)>, bool) {
    let name = t.subrange(prop.1, prop.2);
    (
        if name == name_compatible() {
            Some((prop.3, prop.4))
        } else {
            acc.0
        },
        acc.1 && !((name == name_address_cells() || name == name_size_cells()) && prop.4 - prop.3
            < 4),
    )
}

/// Reads a node's properties from `p` as the crate's property iterator does
/// (skipping NOP tokens, stopping at the first other token); `None` if the
/// crate panics on one of them.
pub open spec fn scan_props(
    b: Seq<u8>,
    t: Seq<u8>,
    t_ok: bool,
    p: int,
    acc: (Option<(int, int)>, bool),
) -> Option<(Option<(int, int)>, bool)>
    decreases b.len() - p,
{
    if p < 0 || p >= b.len() {
        Some(acc)
    } else {
        let q = skip_nops(b, p);
        if q + 4 > b.len() || be_u32(b, q) != FDT_PROP {
            Some(acc)
        } else {
            match parse_prop(b, t, t_ok, q) {
                Some(pr) => {
                    proof {
                        skip_nops_bounds(b, p);
                    }
                    scan_props(b, t, t_ok, pr.0, note_prop(t, acc, pr))
                },
                None => None,
            }
        }
    }
}

/// The properties the node walk itself reads, from `q`: consecutive property
/// tokens. Gives where the walk goes on, `-1` if the crate panics on one of
/// them, `-2` if the block runs out (which ends the walk).
pub open spec fn walk_props(b: Seq<u8>, t: Seq<u8>, t_ok: bool, q: int) -> int
    decreases b.len() - q,
{
    if q < 0 || q + 4 > b.len() {
        -2
    } else if be_u32(b, q) != FDT_PROP {
        q
    } else {
        match parse_prop(b, t, t_ok, q) {
            Some(pr) => walk_props(b, t, t_ok, pr.0),
            None => -1,
        }
    }
}

/// The walk's property reading moves forward and stays within the block.
pub proof fn walk_props_bounds(b: Seq<u8>, t: Seq<u8>, t_ok: bool, q: int)
    requires
        0 <= q <= b.len(),
    ensures
        walk_props(b, t, t_ok, q) == -1 || walk_props(b, t, t_ok, q) == -2 || q <= walk_props(
            b,
            t,
            t_ok,
            q,
        ) <= b.len(),
    decreases b.len() - q,
{
    if q + 4 <= b.len() && be_u32(b, q) == FDT_PROP {
        if let Some(pr) = parse_prop(b, t, t_ok, q) {
            walk_props_bounds(b, t, t_ok, pr.0);
        }
    }
}

/// Whether a `compatible` value lists `c`, as the crate reads it: its
/// NUL-separated strings in order, the reading stopping at the first that is
/// not UTF-8.
pub open spec fn lists_compatible(data: Seq<u8>, c: Seq<u8>) -> bool
    decreases data.len(),
{
    if data.len() == 0 {
        false
    } else {
        match nul_at(data, 0) {
            Some(i) => {
                proof {
                    nul_at_bounds(data, 0);
                }
                valid_utf8(data.take(i)) && (data.take(i) == c || lists_compatible(
                    data.skip(i + 1),
                    c,
                ))
            },
            None => valid_utf8(data) && data == c,
        }
    }
}

/// Whether the crate's walk over the nodes of structure block `b`, from
/// token position `p` at nesting level `level` (with `parents[k]` where the
/// properties of the current node at level `k` start), looking for the first
/// node compatible with `c` and then reading its `reg`, ends without a panic.
pub open spec fn walk_nodes(
    b: Seq<u8>,
    t: Seq<u8>,
    t_ok: bool,
    c: Seq<u8>,
    p: int,
    level: int,
    parents: Seq<int>,
) -> bool
    decreases b.len() - p,
{
    if p < 0 || p + 4 > b.len() {
        true
    } else if be_u32(b, p) == FDT_END_NODE {
        level > 0 && walk_nodes(b, t, t_ok, c, p + 4, level - 1, parents)
    } else if be_u32(b, p) == FDT_END {
        true
    } else {
        let q = skip_nops(b, p);
        if q + 4 > b.len() || be_u32(b, q) != FDT_BEGIN_NODE {
            true
        } else {
            match nul_at(b, q + 4) {
                None => false,
                Some(j) => valid_utf8(b.subrange(q + 4, j)) && level + 1 < FDT_MAX_LEVELS && {
                    proof {
                        skip_nops_bounds(b, p);
                        nul_at_bounds(b, q + 4);
                    }
                    let r = adv(b, q + 4, align4(j - (q + 4) + 1));
                    proof {
                        skip_nops_bounds(b, r);
                        walk_props_bounds(b, t, t_ok, skip_nops(b, r));
                    }
                    let parents2 = parents.update(level + 1, r);
                    let e = walk_props(b, t, t_ok, skip_nops(b, r));
                    if e == -1 {
                        false
                    } else if e == -2 {
                        true
                    } else {
                        match scan_props(b, t, t_ok, r, (None, true)) {
                            None => false,
                            Some(own) => if (match own.0 {
                                Some(v) => lists_compatible(b.subrange(v.0, v.1), c),
                                None => false,
                            }) {
                                level + 1 == 1 || match scan_props(
                                    b,
                                    t,
                                    t_ok,
                                    parents2[level],
                                    (None, true),
                                ) {
                                    Some(par) => par.1,
                                    None => false,
                                }
                            } else {
                                walk_nodes(b, t, t_ok, c, e, level + 1, parents2)
                            },
                        }
                    }
                },
            }
        }
    }
}

/// Whether `Fdt::new` accepts `dtb`: a whole header, the magic number, and a
/// declared total size within the blob.
pub open spec fn fdt_header_ok(dtb: Seq<u8>) -> bool {
    &&& dtb.len() >= FDT_HEADER_LEN
    &&& be_u32(dtb, 0) == FDT_MAGIC
    &&& dtb.len() >= be_u32(dtb, 4)
}

/// Whether the header places the strings block within the blob.
pub open spec fn strings_in_blob(dtb: Seq<u8>) -> bool {
    be_u32(dtb, 12) + be_u32(dtb, 32) <= dtb.len()
}

/// The structure block of `dtb`, as its header places it.
pub open spec fn struct_block(dtb: Seq<u8>) -> Seq<u8> {
    dtb.subrange(be_u32(dtb, 8), be_u32(dtb, 8) + be_u32(dtb, 36))
}

/// The strings block of `dtb`, as its header places it (empty if it is not
/// within the blob).
pub open spec fn strings_block(dtb: Seq<u8>) -> Seq<u8> {
    if strings_in_blob(dtb) {
        dtb.subrange(be_u32(dtb, 12), be_u32(dtb, 12) + be_u32(dtb, 32))
    } else {
        Seq::empty()
    }
}

/// Whether looking up the first node compatible with `c` (as bytes) in `dtb`,
/// and its first `reg` entry, runs through the `fdt` crate without a panic:
/// either `Fdt::new` refuses the blob, or the structure block lies within it
/// and the crate's walk ([`walk_nodes`]) ends without a panic.
pub open spec fn fdt_search_safe(dtb: Seq<u8>, c: Seq<u8>) -> bool {
    ||| !fdt_header_ok(dtb)
    ||| be_u32(dtb, 8) + be_u32(dtb, 36) <= dtb.len() && walk_nodes(
        struct_block(dtb),
        strings_block(dtb),
        strings_in_blob(dtb),
        c,
        0,
        0,
        Seq::new(FDT_MAX_LEVELS as nat, |i: int| 0int),
    )
}

/// The first `reg` entry of the first node of the device tree `dtb` whose
/// `compatible` property lists `compatible`, as (start address, size if the
/// parent declares size cells); `None` when there is no such node or entry.
pub uninterp spec fn fdt_first_compatible_reg(dtb: Seq<u8>, compatible: Seq<char>) -> Option<
    (usize, Option<usize>),
>;

/// Opens `dtb` with `fdt::Fdt::new`, finds the first node compatible with
/// `compatible` (`Fdt::find_compatible`), and takes the first entry of its
/// `reg` property (`FdtNode::reg`, then `next` on the iterator it returns,
/// whose type cannot be named, so the three calls share this item).
///
/// Claimed: when [`fdt_search_safe`] holds the calls return; `None` when
/// `Fdt::new` refuses the blob, and otherwise [`fdt_first_compatible_reg`] of
/// the bytes and the string.
#[verifier::external_body]
fn fdt_compatible_reg(dtb: &[u8], compatible: &str) -> (r: Option<(usize, Option<usize>)>)
    requires
        fdt_search_safe(dtb@, compatible.spec_bytes()),
    ensures
        r == (if fdt_header_ok(dtb@) {
            fdt_first_compatible_reg(dtb@, compatible@)
        } else {
            None
        }),
{
    let fdt = match fdt::Fdt::new(dtb) {
        Ok(fdt) => fdt,
        Err(_) => return None,
    };
    let regs = match fdt.find_compatible(&[compatible]) {
        Some(node) => node.reg(),
        None => None,
    };
    match regs.and_then(|mut regs| regs.next()) {
        Some(region) => Some((region.starting_address as usize, region.size)),
        None => None,
    }
}

/// Whether `bytes` is valid UTF-8, by `core::str::from_utf8`.
///
/// Claimed: the result is `Ok` exactly for valid UTF-8, as the function's
/// documentation states.
#[verifier::external_body]
fn is_utf8(bytes: &[u8]) -> (r: bool)
    ensures
        r == valid_utf8(bytes@),
{
    core::str::from_utf8(bytes).is_ok()
}

/// What the device tree `dtb` says of the first node compatible with
/// `compatible`: [`fdt_first_compatible_reg`] when `Fdt::new` accepts the
/// blob and the lookup runs without a panic, `None` otherwise.
pub open spec fn dtb_compatible_reg(dtb: Seq<u8>, compatible: &str) -> Option<
    (usize, Option<usize>),
> {
    if fdt_header_ok(dtb) && fdt_search_safe(dtb, compatible.spec_bytes()) {
        fdt_first_compatible_reg(dtb, compatible@)
    } else {
        None
    }
}

/// The first `reg` entry of the first node of `dtb` compatible with
/// `compatible`; `None` when there is none, and when the lookup would make
/// the `fdt` crate panic, in which case the crate is not called.
pub fn compatible_reg(dtb: &[u8], compatible: &str) -> (r: Option<(usize, Option<usize>)>)
    ensures
        r == dtb_compatible_reg(dtb@, compatible),
{
    if fdt_search_is_safe(dtb, compatible) {
        fdt_compatible_reg(dtb, compatible)
    } else {
        None
    }
}

// ---------------------------------------------------------------------------
// The checker
// ---------------------------------------------------------------------------

fn be_word(s: &[u8], i: usize) -> (r: u32)
    requires
        i + 4 <= s@.len(),
    ensures
        r == be_u32(s@, i as int),
{
    (s[i] as u32) * 0x100_0000 + (s[i + 1] as u32) * 0x1_0000 + (s[i + 2] as u32) * 0x100 + (s[i
        + 3] as u32)
}


fn find_nul(s: &[u8], i: usize) -> (r: Option<usize>)
    ensures
        match r {
            Some(j) => nul_at(s@, i as int) == Some(j as int) && i <= j < s@.len(),
            None => nul_at(s@, i as int) is None,
        },
{
    let mut k = i;
    while k < s.len()
        invariant
            i <= k,
            nul_at(s@, i as int) == nul_at(s@, k as int),
        decreases s@.len() - k,
    {
        if s[k] == 0 {
            return Some(k);
        }
        k = k + 1;
    }
    None
}

/// `adv(s, p, align4(n))`, for `p` within `s`.
fn advance_aligned(s: &[u8], p: usize, n: usize) -> (r: usize)
    requires
        p <= s@.len(),
    ensures
        r == adv(s@, p as int, align4(n as int)),
{
    let len = s.len();
    if n > len - p {
        return len;
    }
    let rem: usize = n % 4;
    let pad: usize = if rem == 0 {
        0
    } else {
        4 - rem
    };
    assert(align4(n as int) == n + pad);
    let end = p + n;
    if pad > len - end {
        len
    } else {
        end + pad
    }
}

fn skip_nop_tokens(b: &[u8], p: usize) -> (r: usize)
    requires
        p <= b@.len(),
    ensures
        r == skip_nops(b@, p as int),
        p <= r <= b@.len(),
{
    let mut q = p;
    loop
        invariant
            p <= q <= b@.len(),
            skip_nops(b@, p as int) == skip_nops(b@, q as int),
        decreases b@.len() - q,
    {
        if !(b.len() >= 4 && q <= b.len() - 4) || be_word(b, q) != FDT_NOP {
            return q;
        }
        q = q + 4;
    }
}

fn sub_equal(s: &[u8], lo: usize, hi: usize, other: &[u8]) -> (r: bool)
    requires
        lo <= hi <= s@.len(),
    ensures
        r == (s@.subrange(lo as int, hi as int) == other@),
{
    if hi - lo != other.len() {
        return false;
    }
    let mut k: usize = 0;
    while k < other.len()
        invariant
            hi - lo == other@.len(),
            lo <= hi <= s@.len(),
            k <= other@.len(),
            forall|m: int| 0 <= m < k ==> s@[lo + m] == other@[m],
        decreases other@.len() - k,
    {
        if s[lo + k] != other[k] {
            assert(s@.subrange(lo as int, hi as int)[k as int] != other@[k as int]);
            return false;
        }
        k = k + 1;
    }
    assert(s@.subrange(lo as int, hi as int) =~= other@);
    true
}

fn read_prop(b: &[u8], t: &[u8], t_ok: bool, q: usize) -> (r: Option<
    (usize, usize, usize, usize, usize),
>)
    requires
        q + 4 <= b@.len(),
    ensures
        match r {
            Some(pr) => parse_prop(b@, t@, t_ok, q as int) == Some(
                (pr.0 as int, pr.1 as int, pr.2 as int, pr.3 as int, pr.4 as int),
            ) && pr.1 <= pr.2 <= t@.len() && pr.3 <= pr.4 <= b@.len() && q < pr.0 <= b@.len(),
            None => parse_prop(b@, t@, t_ok, q as int) is None,
        },
{
    if b.len() < 12 || q > b.len() - 12 {
        return None;
    }
    let len = be_word(b, q + 4) as usize;
    let off = be_word(b, q + 8) as usize;
    if len > b.len() - q - 12 || !t_ok || off > t.len() {
        return None;
    }
    match find_nul(t, off) {
        Some(j) => {
            let name = vstd::slice::slice_subrange(t, off, j);
            if is_utf8(name) {
                let next = advance_aligned(b, q + 12, len);
                Some((next, off, j, q + 12, q + 12 + len))
            } else {
                None
            }
        },
        None => None,
    }
}

fn note(t: &[u8], acc: (Option<(usize, usize)>, bool), pr: (usize, usize, usize, usize, usize)) -> (r: (
    Option<(usize, usize)>,
    bool,
))
    requires
        pr.1 <= pr.2 <= t@.len(),
        pr.3 <= pr.4,
    ensures
        r.1 == note_prop(
            t@,
            (
                match acc.0 {
                    Some(v) => Some((v.0 as int, v.1 as int)),
                    None => None,
                },
                acc.1,
            ),
            (pr.0 as int, pr.1 as int, pr.2 as int, pr.3 as int, pr.4 as int),
        ).1,
        match r.0 {
            Some(v) => note_prop(
                t@,
                (
                    match acc.0 {
                        Some(v) => Some((v.0 as int, v.1 as int)),
                        None => None,
                    },
                    acc.1,
                ),
                (pr.0 as int, pr.1 as int, pr.2 as int, pr.3 as int, pr.4 as int),
            ).0 == Some((v.0 as int, v.1 as int)),
            None => note_prop(
                t@,
                (
                    match acc.0 {
                        Some(v) => Some((v.0 as int, v.1 as int)),
                        None => None,
                    },
                    acc.1,
                ),
                (pr.0 as int, pr.1 as int, pr.2 as int, pr.3 as int, pr.4 as int),
            ).0 is None,
        },
{
    let is_compatible = sub_equal(t, pr.1, pr.2, "compatible".as_bytes());
    let is_cells = sub_equal(t, pr.1, pr.2, "#address-cells".as_bytes()) || sub_equal(
        t,
        pr.1,
        pr.2,
        "#size-cells".as_bytes(),
    );
    (
        if is_compatible {
            Some((pr.3, pr.4))
        } else {
            acc.0
        },
        acc.1 && !(is_cells && pr.4 - pr.3 < 4),
    )
}

/// An exec property summary seen as its spec counterpart.
pub open spec fn summary_view(acc: (Option<(usize, usize)>, bool)) -> (Option<(int, int)>, bool) {
    (
        match acc.0 {
            Some(v) => Some((v.0 as int, v.1 as int)),
            None => None,
        },
        acc.1,
    )
}

fn read_props(b: &[u8], t: &[u8], t_ok: bool, p: usize) -> (r: Option<(Option<(usize, usize)>, bool)>)
    requires
        p <= b@.len(),
    ensures
        match r {
            Some(acc) => scan_props(b@, t@, t_ok, p as int, (None, true)) == Some(summary_view(acc))
                && (acc.0 matches Some(v) ==> v.0 <= v.1 <= b@.len()),
            None => scan_props(b@, t@, t_ok, p as int, (None, true)) is None,
        },
{
    let mut pos = p;
    let mut acc: (Option<(usize, usize)>, bool) = (None, true);
    loop
        invariant
            pos <= b@.len(),
            scan_props(b@, t@, t_ok, p as int, (None, true)) == scan_props(
                b@,
                t@,
                t_ok,
                pos as int,
                summary_view(acc),
            ),
            acc.0 matches Some(v) ==> v.0 <= v.1 <= b@.len(),
        decreases b@.len() - pos,
    {
        if pos >= b.len() {
            return Some(acc);
        }
        let q = skip_nop_tokens(b, pos);
        if !(b.len() >= 4 && q <= b.len() - 4) || be_word(b, q) != FDT_PROP {
            return Some(acc);
        }
        match read_prop(b, t, t_ok, q) {
            Some(pr) => {
                let next_acc = note(t, acc, pr);
                assert(summary_view(next_acc) == note_prop(
                    t@,
                    summary_view(acc),
                    (pr.0 as int, pr.1 as int, pr.2 as int, pr.3 as int, pr.4 as int),
                ));
                acc = next_acc;
                pos = pr.0;
            },
            None => return None,
        }
    }
}

/// The node walk's own property reading: `None` on a panic, `Some(None)` if
/// the block runs out, else where the walk goes on.
fn walk_props_exec(b: &[u8], t: &[u8], t_ok: bool, q: usize) -> (r: Option<Option<usize>>)
    requires
        q <= b@.len(),
    ensures
        match r {
            None => walk_props(b@, t@, t_ok, q as int) == -1,
            Some(None) => walk_props(b@, t@, t_ok, q as int) == -2,
            Some(Some(e)) => walk_props(b@, t@, t_ok, q as int) == e && q <= e <= b@.len(),
        },
{
    let mut pos = q;
    loop
        invariant
            q <= pos <= b@.len(),
            walk_props(b@, t@, t_ok, q as int) == walk_props(b@, t@, t_ok, pos as int),
        decreases b@.len() - pos,
    {
        if !(b.len() >= 4 && pos <= b.len() - 4) {
            return Some(None);
        }
        if be_word(b, pos) != FDT_PROP {
            return Some(Some(pos));
        }
        match read_prop(b, t, t_ok, pos) {
            Some(pr) => {
                pos = pr.0;
            },
            None => return None,
        }
    }
}

fn slices_equal(a: &[u8], c: &[u8]) -> (r: bool)
    ensures
        r == (a@ == c@),
{
    assert(a@.subrange(0, a@.len() as int) =~= a@);
    sub_equal(a, 0, a.len(), c)
}

fn lists_compatible_exec(data: &[u8], c: &[u8]) -> (r: bool)
    ensures
        r == lists_compatible(data@, c@),
{
    let mut rest = data;
    loop
        invariant
            lists_compatible(data@, c@) == lists_compatible(rest@, c@),
        decreases rest@.len(),
    {
        if rest.len() == 0 {
            return false;
        }
        match find_nul(rest, 0) {
            Some(i) => {
                let seg = vstd::slice::slice_subrange(rest, 0, i);
                assert(seg@ == rest@.take(i as int));
                if !is_utf8(seg) {
                    return false;
                }
                if slices_equal(seg, c) {
                    return true;
                }
                let tail = vstd::slice::slice_subrange(rest, i + 1, rest.len());
                assert(tail@ == rest@.skip(i + 1));
                rest = tail;
            },
            None => {
                assert(rest@.subrange(0, rest@.len() as int) == rest@);
                return is_utf8(rest) && slices_equal(rest, c);
            },
        }
    }
}

/// Positions held in `usize`, as integers.
pub open spec fn positions(v: Seq<usize>) -> Seq<int> {
    v.map_values(|x: usize| x as int)
}

fn walk_nodes_exec(b: &[u8], t: &[u8], t_ok: bool, c: &[u8]) -> (r: bool)
    ensures
        r == walk_nodes(
            b@,
            t@,
            t_ok,
            c@,
            0,
            0,
            Seq::new(FDT_MAX_LEVELS as nat, |i: int| 0int),
        ),
{
    let mut p: usize = 0;
    let mut level: usize = 0;
    let mut parents: Vec<usize> = vec![0; FDT_MAX_LEVELS];
    assert(positions(parents@) =~= Seq::new(FDT_MAX_LEVELS as nat, |i: int| 0int));
    loop
        invariant
            p <= b@.len(),
            level < FDT_MAX_LEVELS,
            parents@.len() == FDT_MAX_LEVELS,
            forall|k: int| 0 <= k < FDT_MAX_LEVELS ==> parents@[k] <= b@.len(),
            walk_nodes(b@, t@, t_ok, c@, 0, 0, Seq::new(FDT_MAX_LEVELS as nat, |i: int| 0int))
                == walk_nodes(b@, t@, t_ok, c@, p as int, level as int, positions(parents@)),
        decreases b@.len() - p,
    {
        if !(b.len() >= 4 && p <= b.len() - 4) {
            return true;
        }
        let tok = be_word(b, p);
        if tok == FDT_END_NODE {
            if level == 0 {
                return false;
            }
            p = p + 4;
            level = level - 1;
        } else if tok == FDT_END {
            return true;
        } else {
            let q = skip_nop_tokens(b, p);
            if !(b.len() >= 4 && q <= b.len() - 4) || be_word(b, q) != FDT_BEGIN_NODE {
                return true;
            }
            let j = match find_nul(b, q + 4) {
                Some(j) => j,
                None => return false,
            };
            let name = vstd::slice::slice_subrange(b, q + 4, j);
            if !is_utf8(name) || level + 1 >= FDT_MAX_LEVELS {
                return false;
            }
            let r = advance_aligned(b, q + 4, j - (q + 4) + 1);
            let ghost old_parents = parents@;
            parents.set(level + 1, r);
            assert(positions(parents@) =~= positions(old_parents).update(level + 1, r as int));
            let e = match walk_props_exec(b, t, t_ok, skip_nop_tokens(b, r)) {
                None => return false,
                Some(None) => return true,
                Some(Some(e)) => e,
            };
            let own = match read_props(b, t, t_ok, r) {
                Some(own) => own,
                None => return false,
            };
            let matched = match own.0 {
                Some(v) => lists_compatible_exec(vstd::slice::slice_subrange(b, v.0, v.1), c),
                None => false,
            };
            if matched {
                if level + 1 == 1 {
                    return true;
                }
                return match read_props(b, t, t_ok, parents[level]) {
                    Some(par) => par.1,
                    None => false,
                };
            }
            p = e;
            level = level + 1;
        }
    }
}

/// Decides [`fdt_search_safe`]: whether looking up the first node of `dtb`
/// compatible with `compatible`, and its `reg` entry, runs through the `fdt`
/// crate without a panic.
pub fn fdt_search_is_safe(dtb: &[u8], compatible: &str) -> (r: bool)
    ensures
        r == fdt_search_safe(dtb@, compatible.spec_bytes()),
{
    if dtb.len() < FDT_HEADER_LEN || be_word(dtb, 0) != FDT_MAGIC || (be_word(dtb, 4) as usize)
        > dtb.len() {
        return true;
    }
    let struct_off = be_word(dtb, 8) as usize;
    let struct_len = be_word(dtb, 36) as usize;
    if struct_len > dtb.len() || struct_off > dtb.len() - struct_len {
        return false;
    }
    let strings_off = be_word(dtb, 12) as usize;
    let strings_len = be_word(dtb, 32) as usize;
    let t_ok = strings_len <= dtb.len() && strings_off <= dtb.len() - strings_len;
    let b = vstd::slice::slice_subrange(dtb, struct_off, struct_off + struct_len);
    let t = if t_ok {
        vstd::slice::slice_subrange(dtb, strings_off, strings_off + strings_len)
    } else {
        vstd::slice::slice_subrange(dtb, 0, 0)
    };
    assert(t@ == strings_block(dtb@));
    walk_nodes_exec(b, t, t_ok, compatible.as_bytes())
}

} // verus!
