//! Choice of the physical device and of its universal queue family, from what the
//! Vulkan instance reports of each device.

use vstd::prelude::*;

verus! {

/// The device extensions the renderer needs: swapchain, acceleration structures, ray
/// tracing pipelines and the deferred host operations they rely on.
pub open spec fn required_extension_names() -> Seq<Seq<char>> {
    seq![
        "VK_KHR_swapchain"@,
        "VK_KHR_acceleration_structure"@,
        "VK_KHR_ray_tracing_pipeline"@,
        "VK_KHR_deferred_host_operations"@,
    ]
}

/// The names of the required device extensions, in the order they are checked.
pub fn get_required_device_extensions() -> (r: Vec<String>)
    ensures
        r@.len() == required_extension_names().len(),
        forall|i: int| 0 <= i < r@.len() ==> #[trigger] r@[i]@ == required_extension_names()[i],
{
    let mut r: Vec<String> = Vec::new();
    r.push("VK_KHR_swapchain".to_owned());
    r.push("VK_KHR_acceleration_structure".to_owned());
    r.push("VK_KHR_ray_tracing_pipeline".to_owned());
    r.push("VK_KHR_deferred_host_operations".to_owned());
    r
}

/// The features of one physical device that the renderer relies on.
#[derive(Debug, Clone, Copy, PartialEq, Eq, Structural)]
pub struct DeviceFeatureSupport {
    pub sampler_anisotropy: bool,
    pub buffer_device_address: bool,
    pub descriptor_indexing: bool,
    pub dynamic_rendering: bool,
    pub synchronization2: bool,
}

/// One queue family of a physical device.
#[derive(Debug, Clone, Copy, PartialEq, Eq, Structural)]
pub struct QueueFamilyInfo {
    /// The family's queue flags include graphics.
    pub graphics: bool,
    /// The family can present to the window's surface.
    pub present: bool,
}

/// What the instance reports of one physical device.
#[derive(Debug, Clone)]
pub struct PhysicalDeviceInfo {
    pub extensions: Vec<String>,
    pub features: DeviceFeatureSupport,
    pub queue_families: Vec<QueueFamilyInfo>,
}

/// `name` is among the extensions the device offers.
pub open spec fn offers_extension(extensions: Seq<String>, name: Seq<char>) -> bool {
    exists|j: int| 0 <= j < extensions.len() && (#[trigger] extensions[j])@ == name
}

/// Every required extension is offered.
pub open spec fn has_required_extensions(extensions: Seq<String>) -> bool {
    forall|i: int|
        0 <= i < required_extension_names().len() ==> offers_extension(
            extensions,
            #[trigger] required_extension_names()[i],
        )
}

/// Every required feature is supported.
pub open spec fn has_required_features(f: DeviceFeatureSupport) -> bool {
    f.sampler_anisotropy && f.buffer_device_address && f.descriptor_indexing && f.dynamic_rendering
        && f.synchronization2
}

/// A family that both draws and presents.
pub open spec fn is_universal(q: QueueFamilyInfo) -> bool {
    q.graphics && q.present
}

/// The first universal queue family, if any.
pub open spec fn first_universal_family(families: Seq<QueueFamilyInfo>) -> Option<int> {
    if exists|i: int| 0 <= i < families.len() && is_universal(#[trigger] families[i]) {
        Some(
            choose|i: int|
                0 <= i < families.len() && is_universal(#[trigger] families[i]) && forall|k: int|
                    0 <= k < i ==> !is_universal(#[trigger] families[k]),
        )
    } else {
        None
    }
}

fn offers(extensions: &Vec<String>, name: &String) -> (r: bool)
    ensures
        r == offers_extension(extensions@, name@),
{
    let mut j: usize = 0;
    while j < extensions.len()
        invariant
            j <= extensions@.len(),
            forall|k: int| 0 <= k < j ==> (#[trigger] extensions@[k])@ != name@,
        decreases extensions@.len() - j,
    {
        if extensions[j] == *name {
            return true;
        }
        j = j + 1;
    }
    false
}

/// The device offers every required extension.
pub fn check_required_extensions(extensions: &Vec<String>) -> (r: bool)
    ensures
        r == has_required_extensions(extensions@),
{
    let required = get_required_device_extensions();
    let mut i: usize = 0;
    while i < required.len()
        invariant
            i <= required@.len(),
            required@.len() == required_extension_names().len(),
            forall|k: int| 0 <= k < required@.len() ==> #[trigger] required@[k]@ == required_extension_names()[k],
            forall|k: int|
                0 <= k < i ==> offers_extension(extensions@, #[trigger] required_extension_names()[k]),
        decreases required@.len() - i,
    {
        if !offers(extensions, &required[i]) {
            return false;
        }
        i = i + 1;
    }
    true
}

/// The device supports anisotropic sampling, buffer device addresses, descriptor
/// indexing, dynamic rendering and synchronization2.
pub fn check_required_features(features: &DeviceFeatureSupport) -> (r: bool)
    ensures
        r == has_required_features(*features),
{
    features.sampler_anisotropy && features.buffer_device_address && features.descriptor_indexing
        && features.dynamic_rendering && features.synchronization2
}

/// The first queue family that supports graphics and can present, if any.
pub fn find_universal_queue_family(families: &[QueueFamilyInfo]) -> (r: Option<u32>)
    requires
        families@.len() <= u32::MAX + 1,
    ensures
        r == (match first_universal_family(families@) {
            Some(i) => Some(i as u32),
            None => None::<u32>,
        }),
{
    let mut idx: usize = 0;
    while idx < families.len()
        invariant
            idx <= families@.len(),
            families@.len() <= u32::MAX + 1,
            forall|k: int| 0 <= k < idx ==> !is_universal(#[trigger] families@[k]),
        decreases families@.len() - idx,
    {
        let family = families[idx];
        if family.graphics && family.present {
            proof {
                let i = idx as int;
                assert(is_universal(families@[i]));
                let c = choose|c: int|
                    0 <= c < families@.len() && is_universal(#[trigger] families@[c]) && forall|k: int|
                        0 <= k < c ==> !is_universal(#[trigger] families@[k]);
                if c < i {
                    assert(!is_universal(families@[c]));
                } else if c > i {
                    assert(!is_universal(families@[i]));
                }
            }
            return Some(idx as u32);
        }
        idx = idx + 1;
    }
    None
}

/// The device has what the renderer needs and a universal queue family.
pub open spec fn is_suitable(d: PhysicalDeviceInfo) -> bool {
    has_required_extensions(d.extensions@) && has_required_features(d.features)
        && first_universal_family(d.queue_families@) is Some
}

/// The first suitable device and its universal queue family, if any device is
/// suitable.
pub fn select_physical_device(devices: &Vec<PhysicalDeviceInfo>) -> (r: Option<(usize, u32)>)
    requires
        forall|i: int| 0 <= i < devices@.len() ==> (#[trigger] devices@[i]).queue_families@.len() <= u32::MAX + 1,
    ensures
        match r {
            Some((i, family)) => {
                &&& i < devices@.len()
                &&& is_suitable(devices@[i as int])
                &&& forall|k: int| 0 <= k < i ==> !is_suitable(#[trigger] devices@[k])
                &&& family == first_universal_family(devices@[i as int].queue_families@)->0 as u32
            },
            None => forall|k: int| 0 <= k < devices@.len() ==> !is_suitable(#[trigger] devices@[k]),
        },
{
    let mut i: usize = 0;
    while i < devices.len()
        invariant
            i <= devices@.len(),
            forall|j: int| 0 <= j < devices@.len() ==> (#[trigger] devices@[j]).queue_families@.len() <= u32::MAX + 1,
            forall|k: int| 0 <= k < i ==> !is_suitable(#[trigger] devices@[k]),
        decreases devices@.len() - i,
    {
        let d = &devices[i];
        if check_required_extensions(&d.extensions) && check_required_features(&d.features) {
            match find_universal_queue_family(d.queue_families.as_slice()) {
                Some(family) => {
                    return Some((i, family));
                },
                None => {},
            }
        }
        i = i + 1;
    }
    None
}

/// The required features are all needed and together enough: exactly the device that
/// supports anisotropic sampling, buffer device addresses, descriptor indexing, dynamic
/// rendering and synchronization2 passes the check, so lacking any one of them alone
/// fails it; and a device that lacks one is never suitable, whatever its extensions and
/// queue families.
pub proof fn lemma_every_required_feature_is_needed(f: DeviceFeatureSupport, d: PhysicalDeviceInfo)
    ensures
        has_required_features(f) <==> f == (DeviceFeatureSupport {
            sampler_anisotropy: true,
            buffer_device_address: true,
            descriptor_indexing: true,
            dynamic_rendering: true,
            synchronization2: true,
        }),
        !d.features.sampler_anisotropy ==> !is_suitable(d),
        !d.features.buffer_device_address ==> !is_suitable(d),
        !d.features.descriptor_indexing ==> !is_suitable(d),
        !d.features.dynamic_rendering ==> !is_suitable(d),
        !d.features.synchronization2 ==> !is_suitable(d),
{
}

proof fn lemma_least_universal(families: Seq<QueueFamilyInfo>, j: int)
    requires
        0 <= j < families.len(),
        is_universal(families[j]),
    ensures
        exists|i: int|
            0 <= i <= j && is_universal(#[trigger] families[i]) && forall|k: int|
                0 <= k < i ==> !is_universal(#[trigger] families[k]),
    decreases j,
{
    if exists|k: int| 0 <= k < j && is_universal(#[trigger] families[k]) {
        let k = choose|k: int| 0 <= k < j && is_universal(#[trigger] families[k]);
        lemma_least_universal(families, k);
    } else {
        assert(is_universal(families[j]));
    }
}

/// The queue family chosen is the first that both supports graphics and can present;
/// with no such family there is none.
pub proof fn lemma_universal_family_draws_and_presents(families: Seq<QueueFamilyInfo>)
    ensures
        match first_universal_family(families) {
            Some(i) => {
                &&& 0 <= i < families.len()
                &&& families[i].graphics && families[i].present
                &&& forall|k: int| 0 <= k < i ==> !(#[trigger] families[k].graphics && families[k].present)
            },
            None => forall|k: int| 0 <= k < families.len() ==> !(#[trigger] families[k].graphics && families[k].present),
        },
{
    if exists|i: int| 0 <= i < families.len() && is_universal(#[trigger] families[i]) {
        let j = choose|i: int| 0 <= i < families.len() && is_universal(#[trigger] families[i]);
        lemma_least_universal(families, j);
        let i = first_universal_family(families)->0;
        assert(is_universal(families[i]));
        assert forall|k: int| 0 <= k < i implies !(#[trigger] families[k].graphics && families[k].present) by {
            assert(!is_universal(families[k]));
        }
    } else {
        assert forall|k: int| 0 <= k < families.len() implies !(#[trigger] families[k].graphics
            && families[k].present) by {
            assert(!is_universal(families[k]));
        }
    }
}

/// A device has the required extensions exactly when it offers the swapchain,
/// acceleration structure, ray tracing pipeline and deferred host operations
/// extensions.
pub proof fn lemma_required_extensions_named(extensions: Seq<String>)
    ensures
        has_required_extensions(extensions) <==> {
            &&& offers_extension(extensions, "VK_KHR_swapchain"@)
            &&& offers_extension(extensions, "VK_KHR_acceleration_structure"@)
            &&& offers_extension(extensions, "VK_KHR_ray_tracing_pipeline"@)
            &&& offers_extension(extensions, "VK_KHR_deferred_host_operations"@)
        },
{
    let r = required_extension_names();
    assert(r[0] == "VK_KHR_swapchain"@);
    assert(r[1] == "VK_KHR_acceleration_structure"@);
    assert(r[2] == "VK_KHR_ray_tracing_pipeline"@);
    assert(r[3] == "VK_KHR_deferred_host_operations"@);
    if has_required_extensions(extensions) {
        assert(offers_extension(extensions, r[0]));
        assert(offers_extension(extensions, r[1]));
        assert(offers_extension(extensions, r[2]));
        assert(offers_extension(extensions, r[3]));
    } else {
    }
}

} // verus!
