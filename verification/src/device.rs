//! Physical-device selection and queue-family resolution.

use vstd::prelude::*;

use crate::swapchain::SwapChainSupport;

verus! {

/// What the selector reads about one queue family: whether it offers the
/// graphics capability, and whether it can present to the target surface.
#[derive(Debug, Clone, Copy, PartialEq, Eq, Structural)]
pub struct QueueFamilyProperties {
    pub supports_graphics: bool,
    pub supports_present: bool,
}

/// The device-level extensions the selector requires, reduced to the flags
/// negotiation reads.
#[derive(Debug, Clone, Copy, PartialEq, Eq, Structural)]
pub struct DeviceExtensions {
    pub khr_swapchain: bool,
}

/// The per-role queue-family assignment computed for one device: a family
/// index for the graphics role and one for the present role, each `None`
/// until a family providing the capability is found.
#[derive(Debug, Clone, Copy, PartialEq, Eq, Structural)]
pub struct QueueFamilyIndices {
    pub graphics_family: Option<u32>,
    pub present_family: Option<u32>,
}

/// One enumerated physical device, reduced to the values selection and
/// negotiation read: its queue families, its supported extensions, and its
/// swapchain support for the target surface.
#[derive(Debug, Clone)]
pub struct PhysicalDeviceInfo {
    pub queue_families: Vec<QueueFamilyProperties>,
    pub supported_extensions: DeviceExtensions,
    pub swap_chain_support: SwapChainSupport,
}

/// One scan step over the queue families: a family that offers a
/// capability takes that role over from whatever family held it before.
pub open spec fn family_scan_step(
    acc: QueueFamilyIndices,
    family: QueueFamilyProperties,
    index: u32,
) -> QueueFamilyIndices {
    QueueFamilyIndices {
        graphics_family: if family.supports_graphics {
            Some(index)
        } else {
            acc.graphics_family
        },
        present_family: if family.supports_present {
            Some(index)
        } else {
            acc.present_family
        },
    }
}

/// The queue-family scan from position `i` onward, stopping as soon as both
/// roles are resolved.
pub open spec fn scan_queue_families(
    families: Seq<QueueFamilyProperties>,
    i: int,
    acc: QueueFamilyIndices,
) -> QueueFamilyIndices
    decreases families.len() - i,
{
    if acc.complete() || i < 0 || i >= families.len() {
        acc
    } else {
        scan_queue_families(families, i + 1, family_scan_step(acc, families[i], i as u32))
    }
}

/// The queue-family assignment the scan computes for a device.
pub open spec fn found_queue_families(families: Seq<QueueFamilyProperties>) -> QueueFamilyIndices {
    scan_queue_families(
        families,
        0,
        QueueFamilyIndices { graphics_family: None, present_family: None },
    )
}

/// Whether some queue family offers the graphics capability.
pub open spec fn has_graphics_family(families: Seq<QueueFamilyProperties>) -> bool {
    exists|i: int| 0 <= i < families.len() && families[i].supports_graphics
}

/// Whether some queue family can present to the target surface.
pub open spec fn has_present_family(families: Seq<QueueFamilyProperties>) -> bool {
    exists|i: int| 0 <= i < families.len() && families[i].supports_present
}

impl QueueFamilyIndices {
    /// Both roles are resolved to a family index.
    pub open spec fn complete(self) -> bool {
        self.graphics_family is Some && self.present_family is Some
    }

    /// An assignment with neither role resolved.
    pub fn new() -> (r: QueueFamilyIndices)
        ensures
            r == (QueueFamilyIndices { graphics_family: None, present_family: None }),
    {
        QueueFamilyIndices { graphics_family: None, present_family: None }
    }

    /// Whether every role has a resolved family index.
    pub fn is_complete(&self) -> (r: bool)
        ensures
            r == self.complete(),
    {
        self.graphics_family.is_some() && self.present_family.is_some()
    }

    /// The distinct family indices this assignment references, for issuing
    /// one queue-creation request per family: one entry when both roles
    /// share a family, two otherwise.  `None` while the assignment is
    /// incomplete.
    pub fn unique_indices(&self) -> (r: Option<Vec<u32>>)
        ensures
            !self.complete() ==> r is None,
            self.complete() ==> (r matches Some(v) && v@ == unique_family_indices(*self)),
    {
        if !self.is_complete() {
            return None;
        }
        let graphics = self.graphics_family.unwrap();
        let present = self.present_family.unwrap();
        if graphics == present {
            let v = vec![graphics];
            assert(v@ =~= unique_family_indices(*self));
            Some(v)
        } else {
            let v = vec![graphics, present];
            assert(v@ =~= unique_family_indices(*self));
            Some(v)
        }
    }
}

/// The deduplicated queue-family index list for a complete assignment: the
/// graphics family alone when it also presents, otherwise the graphics
/// family followed by the present family.
pub open spec fn unique_family_indices(indices: QueueFamilyIndices) -> Seq<u32> {
    if indices.graphics_family == indices.present_family {
        seq![indices.graphics_family->0]
    } else {
        seq![indices.graphics_family->0, indices.present_family->0]
    }
}

/// Scan a device's queue families for the graphics capability and,
/// independently, for presentation support, stopping as soon as both roles
/// are resolved.
pub fn find_queue_families(families: &Vec<QueueFamilyProperties>) -> (r: QueueFamilyIndices)
    requires
        families@.len() <= u32::MAX,
    ensures
        r == found_queue_families(families@),
{
    let mut indices = QueueFamilyIndices::new();
    let mut i: usize = 0;
    while i < families.len() && !indices.is_complete()
        invariant
            0 <= i <= families@.len(),
            families@.len() <= u32::MAX,
            found_queue_families(families@) == scan_queue_families(families@, i as int, indices),
        decreases families@.len() - i,
    {
        let family = families[i];
        if family.supports_graphics {
            indices.graphics_family = Some(i as u32);
        }
        if family.supports_present {
            indices.present_family = Some(i as u32);
        }
        i = i + 1;
    }
    proof {
        assert(scan_queue_families(families@, i as int, indices) == indices);
    }
    indices
}

/// How the scan resolves each role: a role is resolved exactly when some
/// family in the unscanned range offers the capability (or it was resolved
/// already), and a resolved index always denotes a family offering the
/// capability.
pub proof fn lemma_scan_queue_families(
    families: Seq<QueueFamilyProperties>,
    i: int,
    acc: QueueFamilyIndices,
)
    requires
        0 <= i <= families.len(),
        families.len() <= u32::MAX,
        acc.graphics_family matches Some(g) ==> 0 <= g < families.len()
            && families[g as int].supports_graphics,
        acc.present_family matches Some(p) ==> 0 <= p < families.len()
            && families[p as int].supports_present,
    ensures
        ({
            let r = scan_queue_families(families, i, acc);
            &&& (r.graphics_family is Some <==> acc.graphics_family is Some || exists|j: int|
                i <= j < families.len() && #[trigger] families[j].supports_graphics)
            &&& (r.present_family is Some <==> acc.present_family is Some || exists|j: int|
                i <= j < families.len() && #[trigger] families[j].supports_present)
            &&& (r.graphics_family matches Some(g) ==> 0 <= g < families.len()
                && families[g as int].supports_graphics)
            &&& (r.present_family matches Some(p) ==> 0 <= p < families.len()
                && families[p as int].supports_present)
        }),
    decreases families.len() - i,
{
    if acc.complete() || i >= families.len() {
    } else {
        let step = family_scan_step(acc, families[i], i as u32);
        lemma_scan_queue_families(families, i + 1, step);
    }
}

/// Law: the queue-family scan resolves both roles exactly when some family
/// offers the graphics capability and some family can present to the
/// surface, and every resolved index denotes a family offering its role's
/// capability.
pub proof fn lemma_queue_families_complete_iff(families: Seq<QueueFamilyProperties>)
    requires
        families.len() <= u32::MAX,
    ensures
        found_queue_families(families).complete() <==> has_graphics_family(families)
            && has_present_family(families),
        found_queue_families(families).graphics_family matches Some(g) ==> 0 <= g
            < families.len() && families[g as int].supports_graphics,
        found_queue_families(families).present_family matches Some(p) ==> 0 <= p < families.len()
            && families[p as int].supports_present,
{
    lemma_scan_queue_families(
        families,
        0,
        QueueFamilyIndices { graphics_family: None, present_family: None },
    );
}

/// The bounds a conforming driver guarantees of every enumerated device:
/// family indices fit the driver's index type, and the reported surface
/// capabilities are ordered.
pub open spec fn device_well_formed(device: PhysicalDeviceInfo) -> bool {
    &&& device.queue_families@.len() <= u32::MAX
    &&& device.swap_chain_support.capabilities.well_formed()
}

/// A device qualifies for selection exactly when its queue families can
/// serve both the graphics and the present role, it supports the swapchain
/// extension, and it reports at least one surface format and at least one
/// present mode.
pub open spec fn device_qualifies(device: PhysicalDeviceInfo) -> bool {
    &&& has_graphics_family(device.queue_families@)
    &&& has_present_family(device.queue_families@)
    &&& device.supported_extensions.khr_swapchain
    &&& device.swap_chain_support.formats@.len() > 0
    &&& device.swap_chain_support.present_modes@.len() > 0
}

/// Whether the device supports every required device-level extension —
/// notably the swapchain extension.
pub fn check_device_extensions(device: &PhysicalDeviceInfo) -> (r: bool)
    ensures
        r == device.supported_extensions.khr_swapchain,
{
    device.supported_extensions.khr_swapchain
}

/// Whether probing swapchain support yielded at least one surface format
/// and at least one present mode.
pub fn check_swap_chain_support(device: &PhysicalDeviceInfo) -> (r: bool)
    ensures
        r == (device.swap_chain_support.formats@.len() > 0
            && device.swap_chain_support.present_modes@.len() > 0),
{
    device.swap_chain_support.formats.len() > 0 && device.swap_chain_support.present_modes.len()
        > 0
}

/// Whether a device qualifies: complete queue-family requirements, the
/// required extensions, and non-empty swapchain format and present-mode
/// sets.
pub fn check_device(device: &PhysicalDeviceInfo) -> (r: bool)
    requires
        device.queue_families@.len() <= u32::MAX,
    ensures
        r == device_qualifies(*device),
{
    let indices = find_queue_families(&device.queue_families);
    let extension_supported = check_device_extensions(device);
    proof {
        lemma_queue_families_complete_iff(device.queue_families@);
    }
    if !extension_supported {
        return false;
    }
    let swap_chain_supported = check_swap_chain_support(device);
    indices.is_complete() && extension_supported && swap_chain_supported
}

/// Pick the first enumerated device that qualifies, in driver-reported
/// order; `None` when no device qualifies.
pub fn pick_physical_device(devices: &Vec<PhysicalDeviceInfo>) -> (r: Option<usize>)
    requires
        forall|k: int| 0 <= k < devices@.len() ==> #[trigger] devices@[k].queue_families@.len()
            <= u32::MAX,
    ensures
        r matches Some(i) ==> i < devices@.len() && device_qualifies(devices@[i as int])
            && forall|j: int| 0 <= j < i ==> !device_qualifies(devices@[j]),
        r is None ==> forall|j: int| 0 <= j < devices@.len() ==> !device_qualifies(devices@[j]),
{
    let mut i: usize = 0;
    while i < devices.len()
        invariant
            0 <= i <= devices@.len(),
            forall|k: int| 0 <= k < devices@.len() ==> #[trigger] devices@[k].queue_families@.len()
                <= u32::MAX,
            forall|j: int| 0 <= j < i ==> !device_qualifies(devices@[j]),
        decreases devices@.len() - i,
    {
        if check_device(&devices[i]) {
            return Some(i);
        }
        i = i + 1;
    }
    None
}

/// The creation plan for the logical device: one queue-creation request
/// per distinct queue family, the device extensions to enable, and which
/// retrieved queue serves each role.
#[derive(Debug, Clone)]
pub struct LogicalDevicePlan {
    /// The distinct queue-family indices, one creation request each.
    pub queue_create_family_indices: Vec<u32>,
    pub enabled_extensions: DeviceExtensions,
    /// Position in `queue_create_family_indices` of the queue serving the
    /// graphics role.
    pub graphics_queue_slot: usize,
    /// Position in `queue_create_family_indices` of the queue serving the
    /// present role.
    pub present_queue_slot: usize,
}

/// The shape of the logical-device plan for a complete queue-family
/// assignment: deduplicated creation requests, the swapchain extension
/// enabled, and each role's queue re-matched against the assignment —
/// aliased onto one queue exactly when both roles share a family.
pub open spec fn logical_device_plan_matches(
    plan: LogicalDevicePlan,
    indices: QueueFamilyIndices,
) -> bool {
    &&& plan.queue_create_family_indices@ == unique_family_indices(indices)
    &&& plan.enabled_extensions == (DeviceExtensions { khr_swapchain: true })
    &&& plan.graphics_queue_slot < plan.queue_create_family_indices@.len()
    &&& plan.present_queue_slot < plan.queue_create_family_indices@.len()
    &&& plan.queue_create_family_indices@[plan.graphics_queue_slot as int]
        == indices.graphics_family->0
    &&& plan.queue_create_family_indices@[plan.present_queue_slot as int]
        == indices.present_family->0
    &&& (indices.graphics_family == indices.present_family ==> plan.graphics_queue_slot == 0
        && plan.present_queue_slot == 0)
    &&& (indices.graphics_family != indices.present_family ==> plan.graphics_queue_slot == 0
        && plan.present_queue_slot == 1)
}

/// Plan the logical device for a complete queue-family assignment: request
/// one queue per distinct family, enable the swapchain extension, and
/// assign each role's queue by re-matching against the assignment.  When
/// both roles share a family, one request is issued and both roles alias
/// the same queue.
pub fn create_logical_device(indices: &QueueFamilyIndices) -> (r: LogicalDevicePlan)
    requires
        indices.complete(),
    ensures
        logical_device_plan_matches(r, *indices),
{
    let unique = indices.unique_indices().unwrap();
    let graphics = indices.graphics_family.unwrap();
    let present = indices.present_family.unwrap();
    let present_queue_slot: usize = if graphics == present {
        0
    } else {
        1
    };
    LogicalDevicePlan {
        queue_create_family_indices: unique,
        enabled_extensions: DeviceExtensions { khr_swapchain: true },
        graphics_queue_slot: 0,
        present_queue_slot,
    }
}

/// Law: the queue-creation requests are deduplicated.  The distinct index
/// list never repeats a family, covers exactly the graphics and the present
/// family, and collapses to a single request exactly when the two roles
/// share a family.
pub proof fn lemma_queue_family_deduplication(indices: QueueFamilyIndices)
    requires
        indices.complete(),
    ensures
        ({
            let unique = unique_family_indices(indices);
            &&& forall|i: int, j: int| 0 <= i < j < unique.len() ==> unique[i] != unique[j]
            &&& unique.contains(indices.graphics_family->0)
            &&& unique.contains(indices.present_family->0)
            &&& forall|i: int| 0 <= i < unique.len() ==> unique[i] == indices.graphics_family->0
                || unique[i] == indices.present_family->0
            &&& (unique.len() == 1 <==> indices.graphics_family == indices.present_family)
        }),
{
    let unique = unique_family_indices(indices);
    if indices.graphics_family == indices.present_family {
        assert(unique.contains(indices.graphics_family->0)) by {
            assert(unique[0] == indices.graphics_family->0);
        }
    } else {
        assert(unique.contains(indices.graphics_family->0)) by {
            assert(unique[0] == indices.graphics_family->0);
        }
        assert(unique.contains(indices.present_family->0)) by {
            assert(unique[1] == indices.present_family->0);
        }
    }
}

} // verus!
