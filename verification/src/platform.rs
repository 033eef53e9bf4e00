//! Locating the virtio-mmio network device.
//!
//! The device tree blob handed over by the firmware is consulted first; if it
//! names no usable `virtio,mmio` node, the fixed window where QEMU `virt`
//! places its virtio-mmio slots is scanned. The search is a [`DeviceSearch`]:
//! it names the next address to probe, the caller reads the identification
//! registers there and reports [`is_virtio_net`] of them, until the search
//! has found the device or run out of candidates.
use vstd::prelude::*;

use crate::dtb::{compatible_reg, dtb_compatible_reg};

verus! {

/// Physical address where the firmware leaves the device tree blob.
pub const DTB_ADDR: usize = 0x4000_0000;

/// Number of bytes of the device tree blob the kernel looks at.
pub const DTB_WINDOW: usize = 0x1_0000;

/// First virtio-mmio slot on QEMU `virt`.
pub const VIRTIO_MMIO_START: usize = 0x0a00_0000;

/// End (exclusive) of the virtio-mmio slot window.
pub const VIRTIO_MMIO_END: usize = 0x0a00_4000;

/// Distance between two virtio-mmio slots, and the size assumed for a slot.
pub const VIRTIO_MMIO_STRIDE: usize = 0x200;

/// Value of the `MagicValue` register of a virtio-mmio device ("virt").
pub const VIRTIO_MAGIC: u32 = 0x7472_6976;

/// Virtio device id of a network card.
pub const VIRTIO_DEVICE_ID_NET: u32 = 1;

/// Offset of the `MagicValue` register.
pub const MAGIC_OFFSET: usize = 0x000;

/// Offset of the `Version` register.
pub const VERSION_OFFSET: usize = 0x004;

/// Offset of the `DeviceID` register.
pub const DEVICE_ID_OFFSET: usize = 0x008;

/// `compatible` string of a virtio-mmio node in the device tree.
pub const VIRTIO_MMIO_COMPATIBLE: &'static str = "virtio,mmio";

/// A virtio-mmio register window.
#[derive(Clone, Copy, Debug, PartialEq, Eq, Structural)]
pub struct VirtioMmioDevice {
    /// Physical address of the window.
    pub base: usize,
    /// Size of the window in bytes.
    pub size: usize,
}

/// Whether identification registers with these values belong to a virtio
/// network device.
pub open spec fn spec_is_virtio_net(magic: u32, version: u32, device_id: u32) -> bool {
    magic == VIRTIO_MAGIC && version >= 1 && device_id == VIRTIO_DEVICE_ID_NET
}

/// Decides from the `MagicValue`, `Version` and `DeviceID` registers of a
/// virtio-mmio slot whether it holds a network device: the magic must be
/// "virt", the version at least 1 and the device id that of a network card.
pub fn is_virtio_net(magic: u32, version: u32, device_id: u32) -> (r: bool)
    ensures
        r == spec_is_virtio_net(magic, version, device_id),
{
    magic == VIRTIO_MAGIC && version >= 1 && device_id == VIRTIO_DEVICE_ID_NET
}

/// Number of virtio-mmio slots in the scanned window.
pub open spec fn scan_slot_count() -> int {
    ((VIRTIO_MMIO_END - VIRTIO_MMIO_START) / (VIRTIO_MMIO_STRIDE as int))
}

/// Address of the `i`-th virtio-mmio slot.
pub open spec fn scan_slot(i: int) -> usize {
    (VIRTIO_MMIO_START + i * VIRTIO_MMIO_STRIDE) as usize
}

/// The slots of the window, in address order, each with the stride as size.
pub open spec fn slot_devices() -> Seq<VirtioMmioDevice> {
    Seq::new(
        scan_slot_count() as nat,
        |i: int| VirtioMmioDevice { base: scan_slot(i), size: VIRTIO_MMIO_STRIDE },
    )
}

/// The device a device-tree `reg` entry describes; without a size, the
/// stride is taken.
pub open spec fn reg_device(reg: (usize, Option<usize>)) -> VirtioMmioDevice {
    VirtioMmioDevice {
        base: reg.0,
        size: match reg.1 {
            Some(s) => s,
            None => VIRTIO_MMIO_STRIDE,
        },
    }
}

/// The devices to try, in order: the device-tree candidate if there is one,
/// then every slot of the window.
pub open spec fn search_plan(candidate: Option<(usize, Option<usize>)>) -> Seq<VirtioMmioDevice> {
    match candidate {
        Some(reg) => seq![reg_device(reg)] + slot_devices(),
        None => slot_devices(),
    }
}

/// The abstract state of a search: the plan, how many of its devices have
/// been answered for, and the device found, if any.
pub struct SearchState {
    /// Devices to try, in order.
    pub plan: Seq<VirtioMmioDevice>,
    /// Number of devices answered for so far.
    pub asked: nat,
    /// The device confirmed, if any.
    pub found: Option<VirtioMmioDevice>,
}

/// Whether the search still waits for an answer.
pub open spec fn pending(s: SearchState) -> bool {
    s.found is None && s.asked < s.plan.len()
}

/// The address the search wants probed next, if any.
pub open spec fn probe_of(s: SearchState) -> Option<usize> {
    if pending(s) {
        Some(s.plan[s.asked as int].base)
    } else {
        None
    }
}

/// The search after an answer: if it was waiting, the device asked about is
/// found when the answer is yes, and the next one is asked about otherwise;
/// an answer when nothing is pending changes nothing.
pub open spec fn answer(s: SearchState, is_net: bool) -> SearchState {
    if pending(s) {
        SearchState {
            asked: s.asked + 1,
            found: if is_net {
                Some(s.plan[s.asked as int])
            } else {
                None
            },
            ..s
        }
    } else {
        s
    }
}

/// The search for the network device.
pub struct DeviceSearch {
    candidate: Option<VirtioMmioDevice>,
    asked: usize,
    found: Option<VirtioMmioDevice>,
}

impl DeviceSearch {
    /// The abstract state of the search.
    pub closed spec fn state(&self) -> SearchState {
        SearchState {
            plan: match self.candidate {
                Some(d) => seq![d] + slot_devices(),
                None => slot_devices(),
            },
            asked: self.asked as nat,
            found: self.found,
        }
    }

    /// A search has asked about no more devices than it plans, and what it
    /// found is the last device it asked about.
    #[verifier::type_invariant]
    spec fn consistent(self) -> bool {
        &&& self.asked <= self.state().plan.len()
        &&& self.found matches Some(d) ==> self.asked >= 1 && d == self.state().plan[self.asked
            - 1]
    }

    /// Starts a search that tries the device-tree candidate first (if any),
    /// then the slots of the window.
    pub fn new(candidate: Option<(usize, Option<usize>)>) -> (r: Self)
        ensures
            r.state() == (SearchState { plan: search_plan(candidate), asked: 0, found: None }),
    {
        let candidate = match candidate {
            Some((base, size)) => Some(
                VirtioMmioDevice {
                    base,
                    size: match size {
                        Some(s) => s,
                        None => VIRTIO_MMIO_STRIDE,
                    },
                },
            ),
            None => None,
        };
        DeviceSearch { candidate, asked: 0, found: None }
    }

    fn planned(&self, k: usize) -> (d: VirtioMmioDevice)
        requires
            k < self.state().plan.len(),
        ensures
            d == self.state().plan[k as int],
    {
        match self.candidate {
            Some(c) => {
                if k == 0 {
                    c
                } else {
                    VirtioMmioDevice {
                        base: VIRTIO_MMIO_START + (k - 1) * VIRTIO_MMIO_STRIDE,
                        size: VIRTIO_MMIO_STRIDE,
                    }
                }
            },
            None => VirtioMmioDevice {
                base: VIRTIO_MMIO_START + k * VIRTIO_MMIO_STRIDE,
                size: VIRTIO_MMIO_STRIDE,
            },
        }
    }

    /// The address whose identification registers are to be read next;
    /// `None` once the device is found or every candidate has been tried.
    pub fn next_probe(&self) -> (r: Option<usize>)
        ensures
            r == probe_of(self.state()),
    {
        proof {
            use_type_invariant(self);
        }
        if self.found.is_none() && self.asked < self.plan_len() {
            Some(self.planned(self.asked).base)
        } else {
            None
        }
    }

    fn plan_len(&self) -> (r: usize)
        ensures
            r == self.state().plan.len(),
    {
        match self.candidate {
            Some(_) => 33,
            None => 32,
        }
    }

    /// Reports whether the address last named by [`DeviceSearch::next_probe`]
    /// holds a network device.
    pub fn report(&mut self, is_net: bool)
        ensures
            final(self).state() == answer(old(self).state(), is_net),
    {
        proof {
            use_type_invariant(&*self);
        }
        if self.found.is_none() && self.asked < self.plan_len() {
            let d = self.planned(self.asked);
            *self = DeviceSearch {
                candidate: self.candidate,
                asked: self.asked + 1,
                found: if is_net {
                    Some(d)
                } else {
                    None
                },
            };
        }
    }

    /// The device found, if any.
    pub fn result(&self) -> (r: Option<VirtioMmioDevice>)
        ensures
            r == self.state().found,
    {
        self.found
    }
}

/// Starts a search of the slot window alone, in address order.
pub fn scan_virtio_mmio() -> (r: DeviceSearch)
    ensures
        r.state() == (SearchState { plan: slot_devices(), asked: 0, found: None }),
{
    DeviceSearch::new(None)
}

/// Starts the search for the network device: the first `virtio,mmio` node of
/// the device tree blob `dtb`, if there is one and the `fdt` crate can look it
/// up without a panic, then the slots of the window.
pub fn first_virtio_mmio(dtb: &[u8]) -> (r: DeviceSearch)
    ensures
        r.state() == (SearchState {
            plan: search_plan(dtb_compatible_reg(dtb@, VIRTIO_MMIO_COMPATIBLE)),
            asked: 0,
            found: None,
        }),
{
    DeviceSearch::new(compatible_reg(dtb, VIRTIO_MMIO_COMPATIBLE))
}

/// The search after each of `answers` in turn.
pub open spec fn run_search(s: SearchState, answers: Seq<bool>) -> SearchState
    decreases answers.len(),
{
    if answers.len() == 0 {
        s
    } else {
        run_search(answer(s, answers[0]), answers.drop_first())
    }
}

/// The addresses probed while the search takes `answers` in turn: before
/// each answer, the address it names, if any.
pub open spec fn probes(s: SearchState, answers: Seq<bool>) -> Seq<usize>
    decreases answers.len(),
{
    if answers.len() == 0 {
        Seq::empty()
    } else {
        let here = match probe_of(s) {
            Some(base) => seq![base],
            None => Seq::empty(),
        };
        here + probes(answer(s, answers[0]), answers.drop_first())
    }
}

/// The bases of a list of devices.
pub open spec fn bases(devices: Seq<VirtioMmioDevice>) -> Seq<usize> {
    devices.map_values(|d: VirtioMmioDevice| d.base)
}

proof fn finished_search_is_fixed(s: SearchState, answers: Seq<bool>)
    requires
        !pending(s),
    ensures
        run_search(s, answers) == s,
        probes(s, answers) == Seq::<usize>::empty(),
    decreases answers.len(),
{
    if answers.len() > 0 {
        finished_search_is_fixed(s, answers.drop_first());
        assert(probes(s, answers) =~= Seq::<usize>::empty());
    }
}

proof fn search_from(s: SearchState, answers: Seq<bool>, k: int)
    requires
        s.found is None,
        s.asked <= s.plan.len(),
        0 <= k <= answers.len(),
        forall|j: int| 0 <= j < k ==> !answers[j],
        k < answers.len() ==> answers[k],
    ensures
        ({
            let k1 = if k < answers.len() {
                k + 1
            } else {
                k
            };
            let m = if k1 < s.plan.len() - s.asked {
                k1
            } else {
                s.plan.len() - s.asked
            };
            &&& probes(s, answers) == bases(s.plan.subrange(s.asked as int, s.asked + m))
            &&& run_search(s, answers).found == (if k < answers.len() && s.asked + k
                < s.plan.len() {
                Some(s.plan[s.asked + k])
            } else {
                None
            })
            &&& run_search(s, answers).plan == s.plan
        }),
    decreases answers.len(),
{
    let a = s.asked as int;
    if answers.len() == 0 {
        assert(bases(s.plan.subrange(a, a)) =~= Seq::<usize>::empty());
    } else if !pending(s) {
        finished_search_is_fixed(s, answers);
        assert(bases(s.plan.subrange(a, a)) =~= Seq::<usize>::empty());
    } else if answers[0] {
        let next = answer(s, true);
        finished_search_is_fixed(next, answers.drop_first());
        assert(probes(s, answers) =~= seq![s.plan[a].base]);
        assert(bases(s.plan.subrange(a, a + 1)) =~= seq![s.plan[a].base]);
    } else {
        let next = answer(s, false);
        assert forall|j: int| 0 <= j < k - 1 implies !answers.drop_first()[j] by {
            assert(answers.drop_first()[j] == answers[j + 1]);
        }
        if k < answers.len() {
            assert(answers.drop_first()[k - 1] == answers[k]);
        }
        search_from(next, answers.drop_first(), k - 1);
        let k1 = if k < answers.len() {
            k + 1
        } else {
            k
        };
        let m = if k1 < s.plan.len() - a {
            k1
        } else {
            s.plan.len() - a
        };
        assert(probes(s, answers) =~= seq![s.plan[a].base] + probes(next, answers.drop_first()));
        assert(bases(s.plan.subrange(a, a + m)) =~= seq![s.plan[a].base] + bases(
            s.plan.subrange(a + 1, a + m),
        ));
    }
}

/// The search probes its plan in order and stops at the first yes: if the
/// first yes among `answers` is at index `k` (or there is none and
/// `k == answers.len()`), the addresses probed are the bases of the first
/// `k + 1` planned devices (`k` if there is no yes), as far as the plan goes;
/// the device found is the `k`-th planned one, if there is a yes within the
/// plan, and none otherwise.
pub proof fn search_probes_plan_in_order(
    candidate: Option<(usize, Option<usize>)>,
    answers: Seq<bool>,
    k: int,
)
    requires
        0 <= k <= answers.len(),
        forall|j: int| 0 <= j < k ==> !answers[j],
        k < answers.len() ==> answers[k],
    ensures
        ({
            let s = SearchState { plan: search_plan(candidate), asked: 0, found: None };
            let k1 = if k < answers.len() {
                k + 1
            } else {
                k
            };
            let m = if k1 < s.plan.len() {
                k1
            } else {
                s.plan.len() as int
            };
            &&& probes(s, answers) == bases(s.plan.take(m))
            &&& run_search(s, answers).found == (if k < answers.len() && k < s.plan.len() {
                Some(s.plan[k])
            } else {
                None
            })
        }),
{
    let s = SearchState { plan: search_plan(candidate), asked: 0, found: None };
    search_from(s, answers, k);
}

/// A device-tree candidate that is confirmed at once ends the search: the
/// candidate's base is the only address probed, and no slot of the window
/// is read.
pub proof fn confirmed_candidate_skips_scan(reg: (usize, Option<usize>), later: Seq<bool>)
    ensures
        ({
            let s = SearchState { plan: search_plan(Some(reg)), asked: 0, found: None };
            &&& probe_of(s) == Some(reg.0)
            &&& run_search(s, seq![true] + later).found == Some(reg_device(reg))
            &&& probes(s, seq![true] + later) == seq![reg.0]
        }),
{
    let s = SearchState { plan: search_plan(Some(reg)), asked: 0, found: None };
    let answers = seq![true] + later;
    assert(answers[0]);
    search_from(s, answers, 0);
    assert(bases(s.plan.subrange(0, 1)) =~= seq![reg.0]);
}

/// Only planned addresses are probed: each is the device-tree candidate's
/// base or a slot of the window, on a stride boundary.
pub proof fn search_probes_only_planned(candidate: Option<(usize, Option<usize>)>, i: int)
    requires
        0 <= i < search_plan(candidate).len(),
    ensures
        (candidate matches Some(reg) && i == 0 && search_plan(candidate)[i].base == reg.0) || (
        VIRTIO_MMIO_START <= search_plan(candidate)[i].base < VIRTIO_MMIO_END && (search_plan(
            candidate,
        )[i].base - VIRTIO_MMIO_START) % (VIRTIO_MMIO_STRIDE as int) == 0
            && search_plan(candidate)[i].size == VIRTIO_MMIO_STRIDE),
{
    let plan = search_plan(candidate);
    let j = match candidate {
        Some(_) => i - 1,
        None => i,
    };
    if j >= 0 {
        assert(plan[i] == slot_devices()[j]);
        assert(plan[i].base - VIRTIO_MMIO_START == j * VIRTIO_MMIO_STRIDE);
        vstd::arithmetic::div_mod::lemma_mod_multiples_basic(j, VIRTIO_MMIO_STRIDE as int);
    }
}

/// Only a network card passes: the identification registers must read the
/// magic "virt" (`0x74726976`), a version of at least 1 and the device id 1;
/// any other device id, an empty transport's 0 among them, fails.
pub proof fn only_network_cards_pass(magic: u32, version: u32, device_id: u32)
    ensures
        spec_is_virtio_net(magic, version, device_id) == (magic == 0x7472_6976u32 && version >= 1
            && device_id == 1),
        spec_is_virtio_net(magic, version, device_id) ==> device_id == 1,
        device_id != 1 ==> !spec_is_virtio_net(magic, version, device_id),
{
}

/// The plan tries the device-tree candidate first, then every one of the 32
/// slots from `0x0a000000` in steps of `0x200`, the last at `0x0a003e00`;
/// without a candidate it is the 32 slots alone.
pub proof fn plan_covers_the_whole_window(reg: (usize, Option<usize>))
    ensures
        search_plan(Some(reg)).len() == 33,
        search_plan(Some(reg))[0] == reg_device(reg),
        search_plan(Some(reg))[0].base == reg.0,
        forall|i: int|
            0 <= i < 32 ==> #[trigger] search_plan(Some(reg))[i + 1].base == 0x0a00_0000 + i
                * 0x200 && search_plan(Some(reg))[i + 1].size == 0x200,
        search_plan(Some(reg))[32].base == 0x0a00_3e00,
        search_plan(None).len() == 32,
        forall|i: int|
            0 <= i < 32 ==> #[trigger] search_plan(None)[i].base == 0x0a00_0000 + i * 0x200
                && search_plan(None)[i].size == 0x200,
        search_plan(None)[31].base == 0x0a00_3e00,
{
    assert forall|i: int| 0 <= i < 32 implies #[trigger] search_plan(Some(reg))[i + 1].base
        == 0x0a00_0000 + i * 0x200 && search_plan(Some(reg))[i + 1].size == 0x200 by {
        assert(search_plan(Some(reg))[i + 1] == slot_devices()[i]);
    }
    assert(search_plan(Some(reg))[32] == slot_devices()[31]);
}

/// The slot window holds 32 slots.
pub proof fn scan_window_has_32_slots()
    ensures
        scan_slot_count() == 32,
        slot_devices().len() == 32,
{
}

} // verus!
