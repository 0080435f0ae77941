//! Choice of the physical device and of its queue families.
//!
//! The application enumerates the devices and hands each one over as plain
//! values: its type code, its queue-family capability table and the names of
//! the extensions it supports. The library discards the devices that lack a
//! needed queue or extension and ranks the rest by type.

use vstd::prelude::*;
use crate::error::SetupError;
use crate::instance::{required_validation_layers, spec_validation_layers};
use crate::ranking::{pick_best, priority_seq, spec_rank};
use crate::vulkan::{
    queue_flags_contain, spec_flags_contain, DEVICE_TYPE_CPU, DEVICE_TYPE_DISCRETE_GPU,
    DEVICE_TYPE_INTEGRATED_GPU, DEVICE_TYPE_VIRTUAL_GPU, QUEUE_COMPUTE, QUEUE_GRAPHICS,
    QUEUE_TRANSFER,
};

verus! {

/// One row of a device's queue-family capability table.
#[derive(Clone, Copy, Debug)]
pub struct QueueFamily {
    /// Capability bits of the family.
    pub flags: u32,
    /// Whether the family can present to the surface.
    pub present_support: bool,
}

/// For each kind of work, the queue family chosen for it, if the device has
/// one.
#[derive(Clone, Copy, Debug)]
pub struct QueueFamilyIndices {
    pub graphics: Option<u32>,
    pub compute: Option<u32>,
    pub transfer: Option<u32>,
    pub present: Option<u32>,
}

/// A physical device as enumeration returned it.
pub struct PhysDevice {
    /// The device's handle.
    pub handle: u64,
    /// Raw code of the device's type.
    pub device_type: i32,
    /// The queue-family capability table, in the order of the family indices.
    pub queue_families: Vec<QueueFamily>,
    /// Names of the extensions that the device supports.
    pub extensions: Vec<String>,
}

/// A device that passed filtering, with the queue families chosen on it.
#[derive(Clone, Copy, Debug)]
pub struct PhysDeviceInfo {
    pub phys_device: u64,
    pub device_type: i32,
    pub queue_family_indices: QueueFamilyIndices,
}

/// Device types from most to least preferred. A type that is not listed
/// ranks behind all of these.
pub open spec fn device_type_table() -> Seq<i32> {
    seq![
        DEVICE_TYPE_DISCRETE_GPU,
        DEVICE_TYPE_INTEGRATED_GPU,
        DEVICE_TYPE_VIRTUAL_GPU,
        DEVICE_TYPE_CPU,
    ]
}

/// The priority of a device type: discrete 1, integrated 2, virtual 3, CPU 4,
/// any other 5. Lower is better.
pub open spec fn spec_device_type_priority(type_: i32) -> int {
    if type_ == DEVICE_TYPE_DISCRETE_GPU {
        1
    } else if type_ == DEVICE_TYPE_INTEGRATED_GPU {
        2
    } else if type_ == DEVICE_TYPE_VIRTUAL_GPU {
        3
    } else if type_ == DEVICE_TYPE_CPU {
        4
    } else {
        5
    }
}

/// The priority of a device type is its rank in the preference table.
pub proof fn lemma_device_priority_is_rank(type_: i32)
    ensures
        spec_device_type_priority(type_) == spec_rank(device_type_table(), type_),
{
    reveal_with_fuel(crate::ranking::first_index_from, 6);
}

/// The priority of a device type; lower is better.
pub fn device_type_to_priority(type_: i32) -> (priority: i32)
    ensures
        priority == spec_device_type_priority(type_),
        1 <= priority <= 5,
{
    if type_ == DEVICE_TYPE_DISCRETE_GPU {
        1
    } else if type_ == DEVICE_TYPE_INTEGRATED_GPU {
        2
    } else if type_ == DEVICE_TYPE_VIRTUAL_GPU {
        3
    } else if type_ == DEVICE_TYPE_CPU {
        4
    } else {
        5
    }
}

/// The last of the first `n` families that `offers` accepts, if any.
pub open spec fn last_family_with(
    families: Seq<QueueFamily>,
    offers: spec_fn(QueueFamily) -> bool,
    n: int,
) -> Option<u32>
    decreases n,
{
    if n <= 0 {
        None
    } else if offers(families[n - 1]) {
        Some((n - 1) as u32)
    } else {
        last_family_with(families, offers, n - 1)
    }
}

/// Whether a family takes graphics work.
pub open spec fn offers_graphics(family: QueueFamily) -> bool {
    spec_flags_contain(family.flags, QUEUE_GRAPHICS)
}

/// Whether a family takes compute work.
pub open spec fn offers_compute(family: QueueFamily) -> bool {
    spec_flags_contain(family.flags, QUEUE_COMPUTE)
}

/// Whether a family takes transfer work.
pub open spec fn offers_transfer(family: QueueFamily) -> bool {
    spec_flags_contain(family.flags, QUEUE_TRANSFER)
}

/// Whether a family can present to the surface.
pub open spec fn offers_present(family: QueueFamily) -> bool {
    family.present_support
}

/// Whether a family takes graphics work and can present to the surface.
pub open spec fn offers_both(family: QueueFamily) -> bool {
    offers_graphics(family) && offers_present(family)
}

/// The last family of the table that takes graphics work and can present,
/// if there is one.
pub open spec fn spec_shared_family(families: Seq<QueueFamily>) -> Option<u32> {
    last_family_with(families, |f: QueueFamily| offers_both(f), families.len() as int)
}

/// The families chosen on a device.
///
/// Where one family both takes graphics work and can present, that family
/// serves for both, the last such of the table. Only where there is none
/// do graphics and presentation go to two families, each the last of the
/// table that offers the one. Compute and transfer each go to the last
/// family that offers them.
pub open spec fn spec_queue_family_indices(families: Seq<QueueFamily>) -> QueueFamilyIndices {
    let shared = spec_shared_family(families);
    QueueFamilyIndices {
        graphics: if shared is Some {
            shared
        } else {
            last_family_with(
                families,
                |f: QueueFamily| offers_graphics(f),
                families.len() as int,
            )
        },
        compute: last_family_with(
            families,
            |f: QueueFamily| offers_compute(f),
            families.len() as int,
        ),
        transfer: last_family_with(
            families,
            |f: QueueFamily| offers_transfer(f),
            families.len() as int,
        ),
        present: if shared is Some {
            shared
        } else {
            last_family_with(
                families,
                |f: QueueFamily| offers_present(f),
                families.len() as int,
            )
        },
    }
}

/// `last_family_with` names a family that offers the work, no later family
/// among the first `n` offers it, and it is `None` exactly when none of them
/// does.
pub proof fn lemma_last_family_with(
    families: Seq<QueueFamily>,
    offers: spec_fn(QueueFamily) -> bool,
    n: int,
)
    requires
        0 <= n <= families.len(),
        n <= u32::MAX,
    ensures
        match last_family_with(families, offers, n) {
            Some(k) => {
                &&& 0 <= k < n
                &&& offers(families[k as int])
                &&& forall|j: int| k < j < n ==> !offers(#[trigger] families[j])
            },
            None => forall|j: int| 0 <= j < n ==> !offers(#[trigger] families[j]),
        },
    decreases n,
{
    if n > 0 && !offers(families[n - 1]) {
        lemma_last_family_with(families, offers, n - 1);
    }
}

/// A device can render exactly when one of its families offers graphics
/// and one of them, the same or another, can present.
pub proof fn lemma_can_render(families: Seq<QueueFamily>)
    requires
        families.len() <= u32::MAX,
    ensures
        spec_queue_family_indices(families).spec_can_render() <==> (exists|i: int|
            0 <= i < families.len() && offers_graphics(#[trigger] families[i])) && (exists|j: int|
            0 <= j < families.len() && offers_present(#[trigger] families[j])),
{
    let graphics = |f: QueueFamily| offers_graphics(f);
    let present = |f: QueueFamily| offers_present(f);
    let both = |f: QueueFamily| offers_both(f);
    lemma_last_family_with(families, graphics, families.len() as int);
    lemma_last_family_with(families, present, families.len() as int);
    lemma_last_family_with(families, both, families.len() as int);
    let indices = spec_queue_family_indices(families);
    if indices.graphics is Some {
        assert(offers_graphics(families[indices.graphics->0 as int]));
    }
    if indices.present is Some {
        assert(offers_present(families[indices.present->0 as int]));
    }
}

/// Graphics and presentation go to two different families only where no
/// single family offers both. Where one does, both go to one family that
/// offers both. Every chosen family is one of the table and offers what it
/// was chosen for.
pub proof fn lemma_one_family_where_one_offers_both(families: Seq<QueueFamily>)
    requires
        families.len() <= u32::MAX,
    ensures
        ({
            let indices = spec_queue_family_indices(families);
            &&& (exists|i: int| 0 <= i < families.len() && offers_both(#[trigger] families[i]))
                ==> {
                &&& indices.graphics is Some
                &&& indices.present == indices.graphics
                &&& indices.graphics->0 < families.len()
                &&& offers_both(families[indices.graphics->0 as int])
            }
            &&& indices.graphics is Some && indices.present is Some && indices.graphics
                != indices.present ==> forall|i: int|
                0 <= i < families.len() ==> !offers_both(#[trigger] families[i])
            &&& indices.graphics matches Some(g) ==> g < families.len() && offers_graphics(
                families[g as int],
            )
            &&& indices.present matches Some(p) ==> p < families.len() && offers_present(
                families[p as int],
            )
            &&& indices.compute matches Some(c) ==> c < families.len() && offers_compute(
                families[c as int],
            )
            &&& indices.transfer matches Some(t) ==> t < families.len() && offers_transfer(
                families[t as int],
            )
        }),
{
    let n = families.len() as int;
    lemma_last_family_with(families, |f: QueueFamily| offers_graphics(f), n);
    lemma_last_family_with(families, |f: QueueFamily| offers_present(f), n);
    lemma_last_family_with(families, |f: QueueFamily| offers_both(f), n);
    lemma_last_family_with(families, |f: QueueFamily| offers_compute(f), n);
    lemma_last_family_with(families, |f: QueueFamily| offers_transfer(f), n);
}

impl Default for QueueFamilyIndices {
    fn default() -> (indices: Self)
        ensures
            indices.graphics is None,
            indices.compute is None,
            indices.transfer is None,
            indices.present is None,
    {
        QueueFamilyIndices { graphics: None, compute: None, transfer: None, present: None }
    }
}

impl QueueFamilyIndices {
    /// Both queues that rendering needs have a family.
    pub open spec fn spec_can_render(&self) -> bool {
        self.graphics is Some && self.present is Some
    }

    /// Tests [`QueueFamilyIndices::spec_can_render`].
    pub fn can_render(&self) -> (ok: bool)
        ensures
            ok == self.spec_can_render(),
    {
        self.graphics.is_some() && self.present.is_some()
    }
}

/// Chooses the queue families of a device from its capability table: one
/// family for graphics and presentation where one offers both, two only
/// where none does.
pub fn get_queue_family_indices(families: &Vec<QueueFamily>) -> (indices: QueueFamilyIndices)
    requires
        families.len() <= u32::MAX,
    ensures
        indices == spec_queue_family_indices(families@),
{
    let mut indices = QueueFamilyIndices::default();
    let mut shared: Option<u32> = None;
    let ghost graphics = |f: QueueFamily| offers_graphics(f);
    let ghost compute = |f: QueueFamily| offers_compute(f);
    let ghost transfer = |f: QueueFamily| offers_transfer(f);
    let ghost present = |f: QueueFamily| offers_present(f);
    let ghost both = |f: QueueFamily| offers_both(f);
    let mut i: usize = 0;
    while i < families.len()
        invariant
            0 <= i <= families.len() <= u32::MAX,
            graphics == |f: QueueFamily| offers_graphics(f),
            compute == |f: QueueFamily| offers_compute(f),
            transfer == |f: QueueFamily| offers_transfer(f),
            present == |f: QueueFamily| offers_present(f),
            both == |f: QueueFamily| offers_both(f),
            indices.graphics == last_family_with(families@, graphics, i as int),
            indices.compute == last_family_with(families@, compute, i as int),
            indices.transfer == last_family_with(families@, transfer, i as int),
            indices.present == last_family_with(families@, present, i as int),
            shared == last_family_with(families@, both, i as int),
        decreases families.len() - i,
    {
        let family = families[i];
        let idx: u32 = i as u32;
        let takes_graphics = queue_flags_contain(family.flags, QUEUE_GRAPHICS);
        if takes_graphics {
            indices.graphics = Some(idx);
        }
        if queue_flags_contain(family.flags, QUEUE_COMPUTE) {
            indices.compute = Some(idx);
        }
        if queue_flags_contain(family.flags, QUEUE_TRANSFER) {
            indices.transfer = Some(idx);
        }
        if family.present_support {
            indices.present = Some(idx);
        }
        if takes_graphics && family.present_support {
            shared = Some(idx);
        }
        i += 1;
    }
    if shared.is_some() {
        indices.graphics = shared;
        indices.present = shared;
    }
    indices
}

/// Whether one of `exts` has the name `name`.
pub open spec fn spec_has_extension(exts: Seq<String>, name: Seq<char>) -> bool {
    exists|j: int| 0 <= j < exts.len() && (#[trigger] exts[j])@ == name
}

/// Whether every name of `required` is among `exts`.
pub open spec fn spec_supports_extensions(required: Seq<String>, exts: Seq<String>) -> bool {
    forall|i: int| 0 <= i < required.len() ==> spec_has_extension(exts, (#[trigger] required[i])@)
}

/// The names of the device extensions that the engine cannot do without:
/// swapchain presentation, and the portability subset where the platform
/// offers the API only through a portability layer.
pub open spec fn spec_required_device_extensions(portability: bool) -> Seq<Seq<char>> {
    if portability {
        seq!["VK_KHR_swapchain"@, "VK_KHR_portability_subset"@]
    } else {
        seq!["VK_KHR_swapchain"@]
    }
}

/// The names in `names`, each as its sequence of characters.
pub open spec fn spec_names(names: Seq<String>) -> Seq<Seq<char>> {
    names.map_values(|name: String| name@)
}

/// The names of the device extensions that the engine cannot do without.
pub fn required_device_extensions(portability: bool) -> (names: Vec<String>)
    ensures
        spec_names(names@) == spec_required_device_extensions(portability),
{
    let mut names: Vec<String> = Vec::new();
    names.push("VK_KHR_swapchain".to_string());
    if portability {
        names.push("VK_KHR_portability_subset".to_string());
    }
    assert(spec_names(names@) =~= spec_required_device_extensions(portability));
    names
}

/// Whether one of `exts` has the name of `name`.
pub fn has_extension(exts: &Vec<String>, name: &String) -> (found: bool)
    ensures
        found == spec_has_extension(exts@, name@),
{
    let mut i: usize = 0;
    while i < exts.len()
        invariant
            0 <= i <= exts.len(),
            forall|j: int| 0 <= j < i ==> (#[trigger] exts[j])@ != name@,
        decreases exts.len() - i,
    {
        if exts[i] == *name {
            return true;
        }
        i += 1;
    }
    false
}

/// Whether a device with the extensions `exts` supports every extension of
/// `required`.
pub fn supports_extensions(required: &Vec<String>, exts: &Vec<String>) -> (ok: bool)
    ensures
        ok == spec_supports_extensions(required@, exts@),
{
    let mut i: usize = 0;
    while i < required.len()
        invariant
            0 <= i <= required.len(),
            forall|k: int| 0 <= k < i ==> spec_has_extension(exts@, (#[trigger] required[k])@),
        decreases required.len() - i,
    {
        if !has_extension(exts, &required[i]) {
            return false;
        }
        i += 1;
    }
    true
}

/// Whether a device with the extensions `exts` supports swapchain
/// presentation, the one extension needed on every platform.
pub fn supports_required_extensions(exts: &Vec<String>) -> (ok: bool)
    ensures
        ok == spec_has_extension(exts@, "VK_KHR_swapchain"@),
{
    let required = required_device_extensions(false);
    let ok = supports_extensions(&required, exts);
    proof {
        let names = spec_names(required@);
        assert(names.len() == 1 && required@.len() == names.len());
        assert(names[0] == required@[0]@);
        if spec_has_extension(exts@, "VK_KHR_swapchain"@) {
            assert forall|i: int| 0 <= i < required@.len() implies spec_has_extension(
                exts@,
                (#[trigger] required@[i])@,
            ) by {
                assert(names[i] == required@[i]@);
            }
        }
    }
    ok
}

impl PhysDevice {
    /// The family indices of the device fit the 32-bit index that the
    /// graphics API uses for them.
    pub open spec fn wf(&self) -> bool {
        self.queue_families.len() <= u32::MAX
    }

    /// Tests [`PhysDevice::wf`].
    pub fn is_wf(&self) -> (ok: bool)
        ensures
            ok == self.wf(),
    {
        self.queue_families.len() <= u32::MAX as usize
    }
}

/// Every device of the enumeration is well formed.
pub open spec fn devices_wf(devices: Seq<PhysDevice>) -> bool {
    forall|i: int| 0 <= i < devices.len() ==> (#[trigger] devices[i]).wf()
}

/// Tests [`devices_wf`].
pub fn all_devices_wf(devices: &Vec<PhysDevice>) -> (ok: bool)
    ensures
        ok == devices_wf(devices@),
{
    let mut i: usize = 0;
    while i < devices.len()
        invariant
            0 <= i <= devices.len(),
            forall|j: int| 0 <= j < i ==> (#[trigger] devices[j]).wf(),
        decreases devices.len() - i,
    {
        if !devices[i].is_wf() {
            return false;
        }
        i += 1;
    }
    true
}

/// A device is suitable if it has a graphics family and a family that can
/// present (the same or another), and supports every required extension.
pub open spec fn spec_suitable(device: PhysDevice, required: Seq<String>) -> bool {
    let indices = spec_queue_family_indices(device.queue_families@);
    &&& indices.graphics is Some
    &&& indices.present is Some
    &&& spec_supports_extensions(required, device.extensions@)
}

/// What is kept of a suitable device.
pub open spec fn spec_info(device: PhysDevice) -> PhysDeviceInfo {
    PhysDeviceInfo {
        phys_device: device.handle,
        device_type: device.device_type,
        queue_family_indices: spec_queue_family_indices(device.queue_families@),
    }
}

/// The positions, among the first `n` devices of the enumeration, of the
/// suitable ones, in enumeration order.
pub open spec fn spec_sources(devices: Seq<PhysDevice>, required: Seq<String>, n: int) -> Seq<int>
    decreases n,
{
    if n <= 0 {
        Seq::empty()
    } else if spec_suitable(devices[n - 1], required) {
        spec_sources(devices, required, n - 1).push(n - 1)
    } else {
        spec_sources(devices, required, n - 1)
    }
}

/// The suitable ones among the first `n` devices of the enumeration, in
/// enumeration order.
pub open spec fn spec_gather(
    devices: Seq<PhysDevice>,
    required: Seq<String>,
    n: int,
) -> Seq<PhysDeviceInfo> {
    spec_sources(devices, required, n).map_values(|k: int| spec_info(devices[k]))
}

/// Device `k` of the enumeration is the one to select: it is suitable, no
/// suitable device has a better priority, and every suitable device
/// enumerated before it has a worse one.
pub open spec fn is_selected(devices: Seq<PhysDevice>, required: Seq<String>, k: int) -> bool {
    &&& 0 <= k < devices.len()
    &&& spec_suitable(devices[k], required)
    &&& forall|j: int|
        0 <= j < devices.len() && spec_suitable(#[trigger] devices[j], required)
            ==> spec_device_type_priority(devices[k].device_type) <= spec_device_type_priority(
            devices[j].device_type,
        )
    &&& forall|j: int|
        0 <= j < k && spec_suitable(#[trigger] devices[j], required) ==> spec_device_type_priority(
            devices[k].device_type,
        ) < spec_device_type_priority(devices[j].device_type)
}

/// The positions that `spec_sources` lists are those of the suitable devices
/// among the first `n`, each once and in rising order.
pub proof fn lemma_sources(devices: Seq<PhysDevice>, required: Seq<String>, n: int)
    requires
        0 <= n <= devices.len(),
    ensures
        forall|i: int|
            0 <= i < spec_sources(devices, required, n).len() ==> {
                let k = #[trigger] spec_sources(devices, required, n)[i];
                0 <= k < n && spec_suitable(devices[k], required)
            },
        forall|i: int, j: int|
            0 <= i < j < spec_sources(devices, required, n).len() ==> spec_sources(
                devices,
                required,
                n,
            )[i] < spec_sources(devices, required, n)[j],
        forall|k: int|
            0 <= k < n && spec_suitable(#[trigger] devices[k], required) ==> exists|i: int|
                0 <= i < spec_sources(devices, required, n).len() && spec_sources(
                    devices,
                    required,
                    n,
                )[i] == k,
    decreases n,
{
    if n > 0 {
        lemma_sources(devices, required, n - 1);
        let before = spec_sources(devices, required, n - 1);
        let now = spec_sources(devices, required, n);
        assert forall|k: int| 0 <= k < n && spec_suitable(#[trigger] devices[k], required) implies exists|
            i: int,
        | 0 <= i < now.len() && now[i] == k by {
            if k < n - 1 {
                let i = choose|i: int| 0 <= i < before.len() && before[i] == k;
                assert(now[i] == k);
            } else {
                assert(now[now.len() - 1] == k);
            }
        }
    }
}

/// No device is selected twice: the selection is a single device.
pub proof fn lemma_selection_is_unique(
    devices: Seq<PhysDevice>,
    required: Seq<String>,
    a: int,
    b: int,
)
    requires
        is_selected(devices, required, a),
        is_selected(devices, required, b),
    ensures
        a == b,
{
    if a < b {
        assert(spec_suitable(devices[a], required));
    } else if b < a {
        assert(spec_suitable(devices[b], required));
    }
}

/// A device that lacks a required extension is not selected.
pub proof fn lemma_selected_supports_extensions(
    devices: Seq<PhysDevice>,
    required: Seq<String>,
    k: int,
)
    requires
        is_selected(devices, required, k),
    ensures
        spec_supports_extensions(required, devices[k].extensions@),
{
}

/// Of suitable devices with the same priority, the one enumerated first is
/// selected: nothing suitable and of the selected device's priority stands
/// before it.
pub proof fn lemma_first_enumerated_wins_ties(
    devices: Seq<PhysDevice>,
    required: Seq<String>,
    k: int,
    j: int,
)
    requires
        is_selected(devices, required, k),
        0 <= j < devices.len(),
        spec_suitable(devices[j], required),
        spec_device_type_priority(devices[j].device_type) == spec_device_type_priority(
            devices[k].device_type,
        ),
    ensures
        k <= j,
{
}

/// Whether a device offers the queues and extensions that the engine needs.
pub fn is_suitable(device: &PhysDevice, required: &Vec<String>) -> (ok: bool)
    requires
        device.wf(),
    ensures
        ok == spec_suitable(*device, required@),
{
    let indices = get_queue_family_indices(&device.queue_families);
    let supports_required_queues = indices.graphics.is_some() && indices.present.is_some();
    supports_required_queues && supports_extensions(required, &device.extensions)
}

/// Keeps the suitable devices of an enumeration, in enumeration order.
pub fn gather_phys_device_infos(devices: &Vec<PhysDevice>, required: &Vec<String>) -> (infos: Vec<
    PhysDeviceInfo,
>)
    requires
        devices_wf(devices@),
    ensures
        infos@ == spec_gather(devices@, required@, devices.len() as int),
{
    let mut infos: Vec<PhysDeviceInfo> = Vec::with_capacity(devices.len());
    let mut i: usize = 0;
    while i < devices.len()
        invariant
            0 <= i <= devices.len(),
            devices_wf(devices@),
            infos@ == spec_gather(devices@, required@, i as int),
        decreases devices.len() - i,
    {
        let device = &devices[i];
        let queue_family_indices = get_queue_family_indices(&device.queue_families);
        let supports_required_queues = queue_family_indices.graphics.is_some()
            && queue_family_indices.present.is_some();
        if supports_required_queues && supports_extensions(required, &device.extensions) {
            let info = PhysDeviceInfo {
                phys_device: device.handle,
                device_type: device.device_type,
                queue_family_indices,
            };
            infos.push(info);
        }
        i += 1;
        assert(infos@ =~= spec_gather(devices@, required@, i as int));
    }
    infos
}

/// Selects the device to render with: the suitable device of the best type,
/// and of several such the one enumerated first. Fails exactly when no
/// device is suitable.
pub fn pick_phys_device(devices: &Vec<PhysDevice>, required: &Vec<String>) -> (picked: Result<
    PhysDeviceInfo,
    SetupError,
>)
    requires
        devices_wf(devices@),
    ensures
        match picked {
            Ok(info) => {
                &&& exists|k: int|
                    is_selected(devices@, required@, k) && info == spec_info(#[trigger] devices[k])
                &&& info.queue_family_indices.spec_can_render()
            },
            Err(e) => {
                &&& e == SetupError::NoSuitableDevice
                &&& forall|k: int|
                    0 <= k < devices.len() ==> !spec_suitable(#[trigger] devices[k], required@)
            },
        },
{
    let infos = gather_phys_device_infos(devices, required);
    let ghost sources = spec_sources(devices@, required@, devices.len() as int);
    proof {
        lemma_sources(devices@, required@, devices.len() as int);
    }
    let mut priorities: Vec<u32> = Vec::with_capacity(infos.len());
    let mut i: usize = 0;
    while i < infos.len()
        invariant
            0 <= i <= infos.len(),
            priorities.len() == i,
            forall|j: int|
                0 <= j < i ==> (#[trigger] priorities[j]) as int == spec_device_type_priority(
                    infos[j].device_type,
                ),
        decreases infos.len() - i,
    {
        let priority = device_type_to_priority(infos[i].device_type);
        priorities.push(priority as u32);
        i += 1;
    }
    match pick_best(&priorities) {
        None => {
            proof {
                assert forall|k: int| 0 <= k < devices.len() implies !spec_suitable(
                    #[trigger] devices[k],
                    required@,
                ) by {
                    if spec_suitable(devices[k], required@) {
                        let i = choose|i: int| 0 <= i < sources.len() && sources[i] == k;
                        assert(false);
                    }
                }
            }
            Err(SetupError::NoSuitableDevice)
        },
        Some(best) => {
            let info = infos[best];
            proof {
                let ranks = priority_seq(priorities@);
                let k = sources[best as int];
                assert(info == spec_info(devices[k]));
                assert forall|j: int|
                    0 <= j < devices.len() && spec_suitable(
                        #[trigger] devices[j],
                        required@,
                    ) implies spec_device_type_priority(devices[k].device_type)
                    <= spec_device_type_priority(devices[j].device_type) && (j < k
                    ==> spec_device_type_priority(devices[k].device_type)
                    < spec_device_type_priority(devices[j].device_type)) by {
                    let i = choose|i: int| 0 <= i < sources.len() && sources[i] == j;
                    assert(infos[i] == spec_info(devices[j]));
                    assert(ranks[i] == spec_device_type_priority(devices[j].device_type));
                    assert(ranks[best as int] == spec_device_type_priority(devices[k].device_type));
                    assert(ranks[best as int] <= ranks[i]);
                    if j < k {
                        assert(i < best) by {
                            if i > best {
                                assert(sources[best as int] < sources[i]);
                            }
                        }
                        assert(ranks[best as int] < ranks[i]);
                    }
                }
                assert(is_selected(devices@, required@, k));
            }
            Ok(info)
        },
    }
}

/// The bit pattern of the 32-bit float 1.0, the priority of every queue.
pub const QUEUE_PRIORITY_ONE_BITS: u32 = 0x3F80_0000;

/// The queues to create of one family: one queue, of priority 1.0.
#[derive(Clone, Copy, Debug, PartialEq, Eq, Structural)]
pub struct QueueCreateInfo {
    pub queue_family_index: u32,
    pub queue_count: u32,
    pub priority_bits: u32,
}

/// What the logical device is created with.
pub struct DeviceConfig {
    pub phys_device: u64,
    pub queues: Vec<QueueCreateInfo>,
    pub layers: Vec<String>,
    pub extensions: Vec<String>,
    /// The one device feature that the engine enables.
    pub shader_clip_distance: bool,
}

/// The distinct families among the graphics and the present family, in
/// rising order.
pub open spec fn spec_unique_families(graphics: u32, present: u32) -> Seq<u32> {
    if graphics == present {
        seq![graphics]
    } else if graphics < present {
        seq![graphics, present]
    } else {
        seq![present, graphics]
    }
}

/// One queue of priority 1.0 in family `family`.
pub open spec fn spec_queue_create_info(family: u32) -> QueueCreateInfo {
    QueueCreateInfo {
        queue_family_index: family,
        queue_count: 1,
        priority_bits: QUEUE_PRIORITY_ONE_BITS,
    }
}

/// The distinct families among the graphics and the present family, in
/// rising order.
pub fn unique_families(graphics: u32, present: u32) -> (families: Vec<u32>)
    ensures
        families@ == spec_unique_families(graphics, present),
{
    let mut families: Vec<u32> = Vec::new();
    if graphics == present {
        families.push(graphics);
    } else if graphics < present {
        families.push(graphics);
        families.push(present);
    } else {
        families.push(present);
        families.push(graphics);
    }
    assert(families@ =~= spec_unique_families(graphics, present));
    families
}

/// Describes the logical device to create on a selected physical device:
/// one queue of priority 1.0 for each distinct family among the graphics
/// and the present family, the validation layers, the required device
/// extensions, and clip distances in shaders.
pub fn create_logical_device(info: &PhysDeviceInfo, portability: bool) -> (config: DeviceConfig)
    requires
        info.queue_family_indices.spec_can_render(),
    ensures
        config.phys_device == info.phys_device,
        config.queues@ == spec_unique_families(
            info.queue_family_indices.graphics->0,
            info.queue_family_indices.present->0,
        ).map_values(|family: u32| spec_queue_create_info(family)),
        spec_names(config.layers@) == spec_validation_layers(),
        spec_names(config.extensions@) == spec_required_device_extensions(portability),
        config.shader_clip_distance,
{
    let families = unique_families(
        info.queue_family_indices.graphics.unwrap(),
        info.queue_family_indices.present.unwrap(),
    );
    let mut queues: Vec<QueueCreateInfo> = Vec::with_capacity(families.len());
    let mut i: usize = 0;
    while i < families.len()
        invariant
            0 <= i <= families.len(),
            queues@ == families@.take(i as int).map_values(
                |family: u32| spec_queue_create_info(family),
            ),
        decreases families.len() - i,
    {
        queues.push(
            QueueCreateInfo {
                queue_family_index: families[i],
                queue_count: 1,
                priority_bits: QUEUE_PRIORITY_ONE_BITS,
            },
        );
        i += 1;
        assert(queues@ =~= families@.take(i as int).map_values(
            |family: u32| spec_queue_create_info(family),
        ));
    }
    assert(families@.take(families.len() as int) =~= families@);
    DeviceConfig {
        phys_device: info.phys_device,
        queues,
        layers: required_validation_layers(),
        extensions: required_device_extensions(portability),
        shader_clip_distance: true,
    }
}

} // verus!
