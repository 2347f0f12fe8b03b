//! Choosing the physical device and the queue families to use on it.

use vstd::prelude::*;
use crate::bindings::{
    device_type_discrete_gpu, queue_flags_have_graphics, swapchain_extension,
    swapchain_extension_name,
};
use crate::vulkan::{DEVICE_TYPE_DISCRETE_GPU, F32_ONE, QUEUE_GRAPHICS};
use crate::error::RendererError;
use crate::swapchain::SwapChainSupport;

verus! {

/// The queue family chosen for each role, as far as one was found.
#[derive(Clone, Copy, Debug, PartialEq, Eq, Structural)]
pub struct QueueFamilies {
    pub graphics_family: Option<u32>,
    pub present_family: Option<u32>,
}

impl QueueFamilies {
    /// Both roles have a family.
    pub open spec fn complete(&self) -> bool {
        self.graphics_family is Some && self.present_family is Some
    }

    /// Whether both roles have a family.
    #[verifier::when_used_as_spec(complete)]
    pub fn is_complete(&self) -> (r: bool)
        ensures
            r == self.complete(),
    {
        self.graphics_family.is_some() && self.present_family.is_some()
    }
}

/// What the selection reads of one queue family: its capability bits and
/// whether it can present to the surface in question.
#[derive(Clone, Copy, Debug, PartialEq, Eq, Structural)]
pub struct QueueFamilyInfo {
    pub queue_flags: u32,
    pub present_support: bool,
}

impl QueueFamilyInfo {
    /// The family accepts graphics commands.
    pub open spec fn graphics(&self) -> bool {
        self.queue_flags & QUEUE_GRAPHICS == QUEUE_GRAPHICS
    }
}

/// `i` is the least index in `families` whose entry supports graphics.
pub open spec fn first_graphics(families: Seq<QueueFamilyInfo>, i: int) -> bool {
    &&& 0 <= i < families.len()
    &&& families[i].graphics()
    &&& forall|j: int| 0 <= j < i ==> !(#[trigger] families[j]).graphics()
}

/// `i` is the least index in `families` whose entry can present.
pub open spec fn first_present(families: Seq<QueueFamilyInfo>, i: int) -> bool {
    &&& 0 <= i < families.len()
    &&& families[i].present_support
    &&& forall|j: int| 0 <= j < i ==> !(#[trigger] families[j]).present_support
}

/// No entry of `families` supports graphics.
pub open spec fn no_graphics(families: Seq<QueueFamilyInfo>) -> bool {
    forall|j: int| 0 <= j < families.len() ==> !(#[trigger] families[j]).graphics()
}

/// No entry of `families` can present.
pub open spec fn no_present(families: Seq<QueueFamilyInfo>) -> bool {
    forall|j: int| 0 <= j < families.len() ==> !(#[trigger] families[j]).present_support
}

/// Resolves the two roles over a device's queue families, each to the first
/// family that can fill it. The two may be the same family.
pub fn get_queue_families(families: &Vec<QueueFamilyInfo>) -> (r: QueueFamilies)
    requires
        families.len() <= u32::MAX,
    ensures
        match r.graphics_family {
            Some(g) => first_graphics(families@, g as int),
            None => no_graphics(families@),
        },
        match r.present_family {
            Some(p) => first_present(families@, p as int),
            None => no_present(families@),
        },
{
    let mut found = QueueFamilies { graphics_family: None, present_family: None };
    let mut i: usize = 0;
    while i < families.len() && !found.is_complete()
        invariant
            i <= families.len() <= u32::MAX,
            match found.graphics_family {
                Some(g) => first_graphics(families@, g as int),
                None => forall|j: int| 0 <= j < i ==> !(#[trigger] families@[j]).graphics(),
            },
            match found.present_family {
                Some(p) => first_present(families@, p as int),
                None => forall|j: int| 0 <= j < i ==> !(#[trigger] families@[j]).present_support,
            },
        decreases families.len() - i,
    {
        let family: QueueFamilyInfo = families[i];
        if found.graphics_family.is_none() && queue_flags_have_graphics(family.queue_flags) {
            found.graphics_family = Some(i as u32);
        }
        if found.present_family.is_none() && family.present_support {
            found.present_family = Some(i as u32);
        }
        i += 1;
    }
    found
}

/// The names in `list`, each as its characters.
pub open spec fn names(list: Seq<String>) -> Seq<Seq<char>> {
    list.map_values(|s: String| s@)
}

/// The device extensions that this renderer cannot do without.
pub open spec fn required_device_extensions() -> Seq<Seq<char>> {
    seq![swapchain_extension()]
}

/// Every required device extension is among `available`.
pub open spec fn extensions_available(available: Seq<Seq<char>>) -> bool {
    forall|k: int|
        0 <= k < required_device_extensions().len() ==> available.contains(
            #[trigger] required_device_extensions()[k],
        )
}

/// Lists the required device extensions.
pub fn device_extensions() -> (r: Vec<String>)
    ensures
        names(r@) == required_device_extensions(),
{
    let mut r: Vec<String> = Vec::new();
    r.push(swapchain_extension_name());
    assert(names(r@) =~= required_device_extensions());
    r
}

/// Whether `name` occurs in `list`.
pub fn contains_name(list: &Vec<String>, name: &String) -> (r: bool)
    ensures
        r == names(list@).contains(name@),
{
    let mut i: usize = 0;
    while i < list.len()
        invariant
            i <= list.len(),
            forall|j: int| 0 <= j < i ==> names(list@)[j] != name@,
        decreases list.len() - i,
    {
        if list[i] == *name {
            assert(names(list@)[i as int] == name@);
            return true;
        }
        i += 1;
    }
    false
}

/// Whether a device that offers the extensions `available` has all that this
/// renderer requires.
pub fn check_device_extensions(available: &Vec<String>) -> (r: bool)
    ensures
        r == extensions_available(names(available@)),
{
    let required: Vec<String> = device_extensions();
    let mut k: usize = 0;
    while k < required.len()
        invariant
            k <= required.len(),
            names(required@) == required_device_extensions(),
            forall|j: int|
                0 <= j < k ==> names(available@).contains(
                    #[trigger] required_device_extensions()[j],
                ),
        decreases required.len() - k,
    {
        assert(names(required@)[k as int] == required@[k as int]@);
        if !contains_name(available, &required[k]) {
            return false;
        }
        k += 1;
    }
    true
}

/// What the selection reads of one physical device.
#[derive(Debug)]
pub struct DeviceInfo {
    /// The device's handle.
    pub device: u64,
    /// Raw `VkPhysicalDeviceType`.
    pub device_type: i32,
    /// The largest width or height of a 2D image on this device.
    pub max_image_dimension_2d: u32,
    /// The geometry-shader feature, non-zero where the device has it.
    pub geometry_shader: u32,
    pub queue_families: Vec<QueueFamilyInfo>,
    /// The names of the extensions the device offers.
    pub extensions: Vec<String>,
    /// What the device offers for the surface in question.
    pub swapchain_support: SwapChainSupport,
}

impl DeviceInfo {
    /// The queue families can be numbered in `u32`, as the driver numbers them.
    pub open spec fn well_formed(&self) -> bool {
        self.queue_families@.len() <= u32::MAX
    }

    /// Whether the queue families can be numbered in `u32`.
    #[verifier::when_used_as_spec(well_formed)]
    pub fn is_well_formed(&self) -> (r: bool)
        ensures
            r == self.well_formed(),
    {
        self.queue_families.len() <= u32::MAX as usize
    }

    /// The device can be used at all: it has geometry shaders, a family for
    /// each role, every required extension, and something to present with.
    pub open spec fn eligible(&self) -> bool {
        &&& self.geometry_shader != 0
        &&& !no_graphics(self.queue_families@)
        &&& !no_present(self.queue_families@)
        &&& extensions_available(names(self.extensions@))
        &&& self.swapchain_support.usable()
    }

    /// The device is a discrete GPU.
    pub open spec fn discrete(&self) -> bool {
        self.device_type == DEVICE_TYPE_DISCRETE_GPU
    }

    /// The device's rank: nothing for a device that cannot be used, else its
    /// largest 2D image dimension, and 1000 more for a discrete GPU.
    pub open spec fn score(&self) -> int {
        if !self.eligible() {
            0
        } else if self.discrete() {
            1000 + self.max_image_dimension_2d
        } else {
            self.max_image_dimension_2d as int
        }
    }
}

/// Ranks one device.
pub fn rank_device(device: &DeviceInfo) -> (score: u64)
    requires
        device.well_formed(),
    ensures
        score == device.score(),
{
    let families: QueueFamilies = get_queue_families(&device.queue_families);
    if device.geometry_shader == 0 || !families.is_complete() || !check_device_extensions(
        &device.extensions,
    ) || !device.swapchain_support.supported() {
        return 0;
    }
    let mut score: u64 = 0;
    if device.device_type == device_type_discrete_gpu() {
        score += 1000;
    }
    score += device.max_image_dimension_2d as u64;
    score
}

/// Every device of the list can have its queue families numbered in `u32`.
pub open spec fn all_well_formed(devices: Seq<DeviceInfo>) -> bool {
    forall|j: int| 0 <= j < devices.len() ==> (#[trigger] devices[j]).well_formed()
}

/// No device of the list has a score above zero.
pub open spec fn none_suitable(devices: Seq<DeviceInfo>) -> bool {
    forall|j: int| 0 <= j < devices.len() ==> (#[trigger] devices[j]).score() == 0
}

/// `i` is the device that selection settles on: its score is above zero, no
/// device scores higher, and of those that score the same it comes first.
pub open spec fn selected(devices: Seq<DeviceInfo>, i: int) -> bool {
    &&& 0 <= i < devices.len()
    &&& devices[i].score() > 0
    &&& forall|j: int|
        0 <= j < devices.len() ==> (#[trigger] devices[j]).score() <= devices[i].score()
    &&& forall|j: int| 0 <= j < i ==> (#[trigger] devices[j]).score() < devices[i].score()
}

/// Picks the device to render with, by its place in `devices`: the one with
/// the highest score, and the earliest of several that share it. Selection
/// fails exactly when no device scores above zero.
pub fn pick_physical_device(devices: &Vec<DeviceInfo>) -> (r: Result<usize, RendererError>)
    requires
        all_well_formed(devices@),
    ensures
        match r {
            Ok(i) => selected(devices@, i as int),
            Err(e) => e == RendererError::NoSuitableDevice && none_suitable(devices@),
        },
{
    let mut best: usize = 0;
    let mut best_score: u64 = 0;
    let mut i: usize = 0;
    while i < devices.len()
        invariant
            i <= devices.len(),
            all_well_formed(devices@),
            best_score == 0 ==> forall|j: int|
                0 <= j < i ==> (#[trigger] devices@[j]).score() == 0,
            best_score > 0 ==> {
                &&& best < i
                &&& devices@[best as int].score() == best_score
                &&& forall|j: int| 0 <= j < i ==> (#[trigger] devices@[j]).score() <= best_score
                &&& forall|j: int| 0 <= j < best ==> (#[trigger] devices@[j]).score() < best_score
            },
        decreases devices.len() - i,
    {
        let score: u64 = rank_device(&devices[i]);
        if score > best_score {
            best = i;
            best_score = score;
        }
        i += 1;
    }
    if best_score > 0 {
        Ok(best)
    } else {
        Err(RendererError::NoSuitableDevice)
    }
}

/// A discrete GPU that can be used outscores every other usable device that is
/// not discrete and whose largest image dimension is below the discrete one's
/// plus 1000.
pub proof fn lemma_discrete_outscores(discrete: DeviceInfo, other: DeviceInfo)
    requires
        discrete.eligible(),
        discrete.discrete(),
        other.eligible(),
        !other.discrete(),
        other.max_image_dimension_2d < 1000 + discrete.max_image_dimension_2d,
    ensures
        discrete.score() > other.score(),
{
}

/// A device that lacks geometry shaders, a queue family for either role, a
/// required extension, or any format or present mode scores zero.
pub proof fn lemma_ineligible_scores_zero(device: DeviceInfo)
    requires
        device.geometry_shader == 0 || no_graphics(device.queue_families@) || no_present(
            device.queue_families@,
        ) || !extensions_available(names(device.extensions@))
            || !device.swapchain_support.usable(),
    ensures
        device.score() == 0,
{
}

/// The device that selection settles on can be used; one that cannot is
/// never picked, whatever else is in the list.
pub proof fn lemma_selected_is_eligible(devices: Seq<DeviceInfo>, i: int)
    requires
        selected(devices, i),
    ensures
        devices[i].eligible(),
{
}

/// Where any device of the list scores above zero, selection does not fail.
pub proof fn lemma_selection_succeeds(devices: Seq<DeviceInfo>, j: int)
    requires
        0 <= j < devices.len(),
        devices[j].score() > 0,
    ensures
        !none_suitable(devices),
{
}

/// One queue to create on the logical device.
#[derive(Clone, Copy, Debug, PartialEq, Eq, Structural)]
pub struct QueueRequest {
    pub family_index: u32,
    pub queue_count: u32,
    /// The queue's priority, as the bit pattern of an `f32`.
    pub priority: u32,
}

/// A queue of the logical device: its family and its place in the family.
#[derive(Clone, Copy, Debug, PartialEq, Eq, Structural)]
pub struct QueueSlot {
    pub family_index: u32,
    pub queue_index: u32,
}

/// The request for the single queue of a family, at priority 1.0.
pub open spec fn queue_request(family_index: u32) -> QueueRequest {
    QueueRequest { family_index, queue_count: 1, priority: F32_ONE }
}

/// The queues to create for the two roles: one request where one family fills
/// both, else one for the graphics family followed by one for the present
/// family.
pub open spec fn planned_queue_requests(families: QueueFamilies) -> Seq<QueueRequest>
    recommends
        families.complete(),
{
    let graphics = families.graphics_family->Some_0;
    let present = families.present_family->Some_0;
    if graphics == present {
        seq![queue_request(graphics)]
    } else {
        seq![queue_request(graphics), queue_request(present)]
    }
}

/// Everything that creating the logical device is told, and where the two
/// queues are then found on it.
#[derive(Debug)]
pub struct DevicePlan {
    pub queue_requests: Vec<QueueRequest>,
    /// The names of the device extensions to enable.
    pub extensions: Vec<String>,
    pub graphics_queue: QueueSlot,
    pub present_queue: QueueSlot,
}

/// Plans the logical device for a complete queue family assignment: the
/// queues to create, the required extensions and nothing beyond them, and the
/// first queue of each role's family as that role's queue.
pub fn plan_logical_device(families: &QueueFamilies) -> (plan: DevicePlan)
    requires
        families.complete(),
    ensures
        plan.queue_requests@ == planned_queue_requests(*families),
        names(plan.extensions@) == required_device_extensions(),
        plan.graphics_queue == (QueueSlot {
            family_index: families.graphics_family->Some_0,
            queue_index: 0,
        }),
        plan.present_queue == (QueueSlot {
            family_index: families.present_family->Some_0,
            queue_index: 0,
        }),
{
    let graphics: u32 = match families.graphics_family {
        Some(g) => g,
        None => 0,
    };
    let present: u32 = match families.present_family {
        Some(p) => p,
        None => 0,
    };
    let mut queue_requests: Vec<QueueRequest> = Vec::new();
    queue_requests.push(QueueRequest { family_index: graphics, queue_count: 1, priority: F32_ONE });
    if present != graphics {
        queue_requests.push(
            QueueRequest { family_index: present, queue_count: 1, priority: F32_ONE },
        );
    }
    assert(queue_requests@ =~= planned_queue_requests(*families));
    DevicePlan {
        queue_requests,
        extensions: device_extensions(),
        graphics_queue: QueueSlot { family_index: graphics, queue_index: 0 },
        present_queue: QueueSlot { family_index: present, queue_index: 0 },
    }
}

/// Some request of the list is for the family `family_index`.
pub open spec fn requests_family(requests: Seq<QueueRequest>, family_index: u32) -> bool {
    exists|k: int| 0 <= k < requests.len() && (#[trigger] requests[k]).family_index == family_index
}

/// The planned requests name each of the two roles' families, no other
/// family, and no family twice.
pub proof fn lemma_one_request_per_family(families: QueueFamilies)
    requires
        families.complete(),
    ensures
        forall|f: u32| #[trigger]
            requests_family(planned_queue_requests(families), f) <==> (f
                == families.graphics_family->Some_0 || f == families.present_family->Some_0),
        forall|a: int, b: int|
            0 <= a < b < planned_queue_requests(families).len() ==> (
            #[trigger] planned_queue_requests(families)[a]).family_index != (
            #[trigger] planned_queue_requests(families)[b]).family_index,
{
    let requests = planned_queue_requests(families);
    let graphics = families.graphics_family->Some_0;
    let present = families.present_family->Some_0;
    assert(requests[0].family_index == graphics);
    if graphics != present {
        assert(requests[1].family_index == present);
    }
}

} // verus!
