//! Instance and device bootstrap: validation-layer configuration, queue
//! family selection, physical-device qualification and logical-device
//! feature negotiation, all over plain values reported by the driver.

use vstd::prelude::*;

verus! {

/// Whether `list` holds a string whose characters are `name`.
pub open spec fn name_list_contains(list: Seq<String>, name: Seq<char>) -> bool {
    exists|i: int| 0 <= i < list.len() && list[i]@ == name
}

/// Whether every string of `required` occurs in `list`.
pub open spec fn contains_all_names(list: Seq<String>, required: Seq<String>) -> bool {
    forall|j: int| 0 <= j < required.len() ==> name_list_contains(list, required[j]@)
}

/// Whether `list` holds `name`.
fn contains_name(list: &Vec<String>, name: &String) -> (r: bool)
    ensures
        r == name_list_contains(list@, name@),
{
    let mut i: usize = 0;
    while i < list.len()
        invariant
            i <= list@.len(),
            forall|j: int| 0 <= j < i ==> list@[j]@ != name@,
        decreases list@.len() - i,
    {
        if name.eq(&list[i]) {
            return true;
        }
        i += 1;
    }
    false
}

/// Whether every string of `required` occurs in `list`.
fn contains_all(list: &Vec<String>, required: &Vec<String>) -> (r: bool)
    ensures
        r == contains_all_names(list@, required@),
{
    let mut j: usize = 0;
    while j < required.len()
        invariant
            j <= required@.len(),
            forall|k: int| 0 <= k < j ==> name_list_contains(list@, required@[k]@),
        decreases required@.len() - j,
    {
        if !contains_name(list, &required[j]) {
            return false;
        }
        j += 1;
    }
    true
}

/// Whether every required validation layer occurs in the supported list
/// that the loader reports.
pub fn check_validation_layer_support(
    supported_layers: &Vec<String>,
    required_validation_layers: &Vec<String>,
) -> (r: bool)
    ensures
        r == contains_all_names(supported_layers@, required_validation_layers@),
{
    contains_all(supported_layers, required_validation_layers)
}

/// The validation layers requested for this process: fixed at startup from
/// the build mode and consumed by instance creation.
#[derive(Clone, Debug)]
pub struct ValidationLayerConfig {
    pub layers: Vec<String>,
    pub enabled: bool,
}

impl ValidationLayerConfig {
    /// In debug builds the standard validation layer is requested; release
    /// builds request none and leave validation disabled.
    pub fn new(debug_build: bool) -> (r: Self)
        ensures
            r.enabled == debug_build,
            debug_build ==> r.layers@.len() == 1
                && r.layers@[0]@ == "VK_LAYER_KHRONOS_validation"@,
            !debug_build ==> r.layers@.len() == 0,
    {
        let mut layers: Vec<String> = Vec::new();
        if debug_build {
            layers.push("VK_LAYER_KHRONOS_validation".to_owned());
        }
        let enabled = !layers.is_empty();
        ValidationLayerConfig { layers, enabled }
    }

    /// Whether the loader supports this configuration: vacuously true when
    /// validation is disabled, else every requested layer must be reported.
    pub fn check_support(&self, supported_layers: &Vec<String>) -> (r: bool)
        ensures
            r == (!self.enabled || contains_all_names(supported_layers@, self.layers@)),
    {
        if !self.enabled {
            return true;
        }
        check_validation_layer_support(supported_layers, &self.layers)
    }
}

/// Queue family indices discovered for a physical device, each optional.
#[derive(Clone, Copy, Debug)]
pub struct QueueFamilyIndices {
    pub graphics_family: Option<u32>,
    pub compute_family: Option<u32>,
    pub present_family: Option<u32>,
}

impl QueueFamilyIndices {
    /// A configuration is complete relative to a requirement set iff a
    /// graphics family is present, and compute/present families are present
    /// whenever required.
    pub open spec fn spec_is_complete(self, need_compute: bool, need_present: bool) -> bool {
        &&& self.graphics_family is Some
        &&& need_compute ==> self.compute_family is Some
        &&& need_present ==> self.present_family is Some
    }

    pub fn is_complete(&self, need_compute: bool, need_present: bool) -> (r: bool)
        ensures
            r == self.spec_is_complete(need_compute, need_present),
    {
        let has_graphics = self.graphics_family.is_some();
        let has_compute = !need_compute || self.compute_family.is_some();
        let has_present = !need_present || self.present_family.is_some();
        has_graphics && has_compute && has_present
    }

    /// The deduplicated index list, in graphics/compute/present order.
    pub open spec fn spec_unique_families(self) -> Seq<u32> {
        let with_graphics = match self.graphics_family {
            Some(g) => seq![g],
            None => Seq::empty(),
        };
        let with_compute = match self.compute_family {
            Some(c) => if with_graphics.contains(c) {
                with_graphics
            } else {
                with_graphics.push(c)
            },
            None => with_graphics,
        };
        match self.present_family {
            Some(p) => if with_compute.contains(p) {
                with_compute
            } else {
                with_compute.push(p)
            },
            None => with_compute,
        }
    }

    /// Returns the distinct queue family indices; device creation must not
    /// request the same family twice.
    pub fn unique_families(&self) -> (families: Vec<u32>)
        ensures
            families@ == self.spec_unique_families(),
            families@.no_duplicates(),
            forall|x: u32| #[trigger] families@.contains(x) <==> (
                self.graphics_family == Some(x)
                || self.compute_family == Some(x)
                || self.present_family == Some(x)
            ),
    {
        broadcast use vstd::seq_lib::lemma_seq_contains_after_push;

        let mut families: Vec<u32> = Vec::new();
        if let Some(g) = self.graphics_family {
            families.push(g);
        }
        if let Some(c) = self.compute_family {
            if !contains_index(&families, c) {
                families.push(c);
            }
        }
        if let Some(p) = self.present_family {
            if !contains_index(&families, p) {
                families.push(p);
            }
        }
        families
    }
}

impl Default for QueueFamilyIndices {
    /// No family discovered yet.
    fn default() -> (r: Self)
        ensures
            r.graphics_family is None,
            r.compute_family is None,
            r.present_family is None,
    {
        QueueFamilyIndices { graphics_family: None, compute_family: None, present_family: None }
    }
}

/// What one queue family of a physical device reports: its queue count and
/// the capabilities relevant to this layer. Presentation support is always
/// relative to the surface under negotiation.
#[derive(Clone, Copy, Debug)]
pub struct QueueFamilyInfo {
    pub queue_count: u32,
    pub supports_graphics: bool,
    pub supports_compute: bool,
    pub supports_present: bool,
}

/// The capability a queue family is being scanned for.
#[derive(Clone, Copy, Debug, PartialEq, Eq, Structural)]
pub enum QueueCapability {
    Graphics,
    Compute,
    Present,
}

/// Whether one queue family satisfies a capability requirement. Graphics
/// and compute additionally require a nonzero queue count.
pub open spec fn family_matches(family: QueueFamilyInfo, capability: QueueCapability) -> bool {
    match capability {
        QueueCapability::Graphics => family.queue_count > 0 && family.supports_graphics,
        QueueCapability::Compute => family.queue_count > 0 && family.supports_compute,
        QueueCapability::Present => family.supports_present,
    }
}

/// The first family index at or after `i` that satisfies `capability`.
pub open spec fn spec_first_family(
    families: Seq<QueueFamilyInfo>,
    capability: QueueCapability,
    i: int,
) -> Option<u32>
    decreases families.len() - i,
{
    if i < 0 || i >= families.len() {
        None
    } else if family_matches(families[i], capability) {
        Some(i as u32)
    } else {
        spec_first_family(families, capability, i + 1)
    }
}

/// Scans the family list once for the first family with `capability`, in
/// enumeration order.
pub fn first_family_index(
    families: &Vec<QueueFamilyInfo>,
    capability: QueueCapability,
) -> (r: Option<u32>)
    requires
        families@.len() <= u32::MAX,
    ensures
        r == spec_first_family(families@, capability, 0),
        match r {
            Some(k) => k < families@.len() && family_matches(families@[k as int], capability)
                && forall|j: int| 0 <= j < k ==> !family_matches(families@[j], capability),
            None => forall|j: int| 0 <= j < families@.len()
                ==> !family_matches(families@[j], capability),
        },
{
    let mut i: usize = 0;
    while i < families.len()
        invariant
            i <= families@.len(),
            families@.len() <= u32::MAX,
            spec_first_family(families@, capability, 0)
                == spec_first_family(families@, capability, i as int),
            forall|j: int| 0 <= j < i ==> !family_matches(families@[j], capability),
        decreases families@.len() - i,
    {
        let f = families[i];
        if (f.queue_count > 0 && match capability {
            QueueCapability::Graphics => f.supports_graphics,
            QueueCapability::Compute => f.supports_compute,
            QueueCapability::Present => false,
        }) || (match capability {
            QueueCapability::Present => f.supports_present,
            _ => false,
        }) {
            return Some(i as u32);
        }
        i += 1;
    }
    None
}

/// The queue family indices found by one scan of a device's family list:
/// first graphics-capable family, first compute-capable family when compute
/// is needed, and first present-capable family when a surface is given.
pub open spec fn spec_find_queue_families(
    families: Seq<QueueFamilyInfo>,
    need_compute: bool,
    consider_present: bool,
) -> QueueFamilyIndices {
    QueueFamilyIndices {
        graphics_family: spec_first_family(families, QueueCapability::Graphics, 0),
        compute_family: if need_compute {
            spec_first_family(families, QueueCapability::Compute, 0)
        } else {
            None
        },
        present_family: if consider_present {
            spec_first_family(families, QueueCapability::Present, 0)
        } else {
            None
        },
    }
}

/// Scans one device's queue family list for the required capabilities.
pub fn find_queue_families(
    families: &Vec<QueueFamilyInfo>,
    need_compute: bool,
    consider_present: bool,
) -> (r: QueueFamilyIndices)
    requires
        families@.len() <= u32::MAX,
    ensures
        r == spec_find_queue_families(families@, need_compute, consider_present),
{
    let graphics_family = first_family_index(families, QueueCapability::Graphics);
    let compute_family = if need_compute {
        first_family_index(families, QueueCapability::Compute)
    } else {
        None
    };
    let present_family = if consider_present {
        first_family_index(families, QueueCapability::Present)
    } else {
        None
    };
    QueueFamilyIndices { graphics_family, compute_family, present_family }
}

/// What one physical device reports: its extension names and its queue
/// family properties, both in the driver's enumeration order.
#[derive(Clone, Debug)]
pub struct PhysicalDeviceInfo {
    pub extensions: Vec<String>,
    pub queue_families: Vec<QueueFamilyInfo>,
}

/// A device qualifies iff it offers every required extension and one scan
/// of its queue families satisfies the requirement set.
pub open spec fn spec_device_qualifies(
    device: PhysicalDeviceInfo,
    required_extensions: Seq<String>,
    need_compute: bool,
    need_present: bool,
) -> bool {
    &&& contains_all_names(device.extensions@, required_extensions)
    &&& spec_find_queue_families(device.queue_families@, need_compute, need_present)
        .spec_is_complete(need_compute, need_present)
}

/// Selects the first device, in enumeration order, that offers every
/// required extension and a complete set of queue families, together with
/// the family indices found for it; `None` when no device qualifies.
pub fn pick_physical_device_and_queue_family_indices(
    devices: &Vec<PhysicalDeviceInfo>,
    required_extensions: &Vec<String>,
    need_compute: bool,
    need_present: bool,
) -> (r: Option<(usize, QueueFamilyIndices)>)
    requires
        forall|d: int| 0 <= d < devices@.len()
            ==> (#[trigger] devices@[d]).queue_families@.len() <= u32::MAX,
    ensures
        match r {
            Some(picked) => {
                &&& picked.0 < devices@.len()
                &&& spec_device_qualifies(
                    devices@[picked.0 as int],
                    required_extensions@,
                    need_compute,
                    need_present,
                )
                &&& picked.1 == spec_find_queue_families(
                    devices@[picked.0 as int].queue_families@,
                    need_compute,
                    need_present,
                )
                &&& forall|j: int| 0 <= j < picked.0
                    ==> !spec_device_qualifies(
                        devices@[j],
                        required_extensions@,
                        need_compute,
                        need_present,
                    )
            },
            None => forall|j: int| 0 <= j < devices@.len()
                ==> !spec_device_qualifies(
                    devices@[j],
                    required_extensions@,
                    need_compute,
                    need_present,
                ),
        },
{
    let mut d: usize = 0;
    while d < devices.len()
        invariant
            d <= devices@.len(),
            forall|dd: int| 0 <= dd < devices@.len()
                ==> (#[trigger] devices@[dd]).queue_families@.len() <= u32::MAX,
            forall|j: int| 0 <= j < d
                ==> !spec_device_qualifies(
                    devices@[j],
                    required_extensions@,
                    need_compute,
                    need_present,
                ),
        decreases devices@.len() - d,
    {
        let device = &devices[d];
        if contains_all(&device.extensions, required_extensions) {
            let indices = find_queue_families(&device.queue_families, need_compute, need_present);
            if indices.is_complete(need_compute, need_present) {
                return Some((d, indices));
            }
        }
        d += 1;
    }
    None
}

/// A packed API version word: 3 bits of variant, 7 of major, 10 of minor,
/// 12 of patch.
pub open spec fn spec_make_api_version(variant: u32, major: u32, minor: u32, patch: u32) -> int {
    variant * 0x2000_0000 + major * 0x40_0000 + minor * 0x1000 + patch
}

/// Packs an API version word from its four components.
pub fn make_api_version(variant: u32, major: u32, minor: u32, patch: u32) -> (r: u32)
    requires
        variant < 0x8,
        major < 0x80,
        minor < 0x400,
        patch < 0x1000,
    ensures
        r == spec_make_api_version(variant, major, minor, patch),
{
    let r = (variant << 29u32) | (major << 22u32) | (minor << 12u32) | patch;
    proof {
        assert((variant << 29u32) | (major << 22u32) | (minor << 12u32) | patch
            == variant * 0x2000_0000 + major * 0x40_0000 + minor * 0x1000 + patch) by (bit_vector)
            requires
                variant < 0x8,
                major < 0x80,
                minor < 0x400,
                patch < 0x1000,
        ;
    }
    r
}

/// An instance-level extension this layer may enable.
#[derive(Clone, Copy, Debug, PartialEq, Eq, Structural)]
pub enum InstanceExtension {
    DebugUtils,
    Surface,
    Win32Surface,
    XlibSurface,
    WaylandSurface,
    MacosSurface,
}

/// The platform the process runs on, as a runtime capability key instead of
/// a build-time switch.
#[derive(Clone, Copy, Debug, PartialEq, Eq, Structural)]
pub enum Platform {
    Windows,
    Linux,
    MacOs,
    Other,
}

/// The instance extensions to enable: debug utilities always, and in
/// windowed mode the surface extension plus the platform's surface
/// extensions.
pub open spec fn spec_instance_extensions(
    headless_mode: bool,
    platform: Platform,
) -> Seq<InstanceExtension> {
    let base = seq![InstanceExtension::DebugUtils];
    if headless_mode {
        base
    } else {
        let with_surface = base.push(InstanceExtension::Surface);
        match platform {
            Platform::Windows => with_surface.push(InstanceExtension::Win32Surface),
            Platform::Linux => with_surface.push(InstanceExtension::XlibSurface).push(
                InstanceExtension::WaylandSurface,
            ),
            Platform::MacOs => with_surface.push(InstanceExtension::MacosSurface),
            Platform::Other => with_surface,
        }
    }
}

/// Lists the instance extensions to enable for the given mode and platform.
pub fn get_instance_extensions(headless_mode: bool, platform: Platform) -> (r: Vec<
    InstanceExtension,
>)
    ensures
        r@ == spec_instance_extensions(headless_mode, platform),
{
    let mut extensions: Vec<InstanceExtension> = Vec::new();
    extensions.push(InstanceExtension::DebugUtils);
    if !headless_mode {
        extensions.push(InstanceExtension::Surface);
        match platform {
            Platform::Windows => {
                extensions.push(InstanceExtension::Win32Surface);
            },
            Platform::Linux => {
                extensions.push(InstanceExtension::XlibSurface);
                extensions.push(InstanceExtension::WaylandSurface);
            },
            Platform::MacOs => {
                extensions.push(InstanceExtension::MacosSurface);
            },
            Platform::Other => {},
        }
    }
    proof {
        assert(extensions@ =~= spec_instance_extensions(headless_mode, platform));
    }
    extensions
}

/// Everything instance creation needs: version words, the layer names to
/// enable, the extensions to enable, and whether a debug messenger is
/// chained into creation.
#[derive(Clone, Debug)]
pub struct InstanceConfig {
    pub application_version: u32,
    pub api_version: u32,
    pub layers: Vec<String>,
    pub extensions: Vec<InstanceExtension>,
    pub with_debug_messenger: bool,
}

/// Assembles the instance configuration: API version 1.3, the validation
/// layers exactly as configured, the mode- and platform-appropriate
/// extensions, and a debug messenger iff validation is enabled.
pub fn build_instance_config(
    validation: &ValidationLayerConfig,
    headless_mode: bool,
    platform: Platform,
) -> (r: InstanceConfig)
    ensures
        r.application_version == spec_make_api_version(0, 1, 0, 0),
        r.api_version == spec_make_api_version(0, 1, 3, 0),
        r.layers@ == validation.layers@,
        r.extensions@ == spec_instance_extensions(headless_mode, platform),
        r.with_debug_messenger == validation.enabled,
{
    InstanceConfig {
        application_version: make_api_version(0, 1, 0, 0),
        api_version: make_api_version(0, 1, 3, 0),
        layers: validation.layers.clone(),
        extensions: get_instance_extensions(headless_mode, platform),
        with_debug_messenger: validation.enabled,
    }
}

/// A device-level extension this layer may enable.
#[derive(Clone, Copy, Debug, PartialEq, Eq, Structural)]
pub enum DeviceExtension {
    RayTracingPipeline,
    AccelerationStructure,
    DeferredHostOperations,
    Spirv14,
    ScalarBlockLayout,
    Swapchain,
}

/// The device features this layer negotiates on.
#[derive(Clone, Copy, Debug, PartialEq, Eq, Structural)]
pub struct DeviceFeatures {
    pub buffer_device_address: bool,
    pub scalar_block_layout: bool,
    pub acceleration_structure: bool,
    pub ray_tracing_pipeline: bool,
}

/// The device extensions to enable: the ray-tracing set always, plus the
/// swapchain extension in windowed mode.
pub open spec fn spec_device_extensions(headless_mode: bool) -> Seq<DeviceExtension> {
    let base = seq![
        DeviceExtension::RayTracingPipeline,
        DeviceExtension::AccelerationStructure,
        DeviceExtension::DeferredHostOperations,
        DeviceExtension::Spirv14,
        DeviceExtension::ScalarBlockLayout,
    ];
    if headless_mode {
        base
    } else {
        base.push(DeviceExtension::Swapchain)
    }
}

/// Everything logical-device creation needs: one queue-creation request per
/// distinct family (each for a single queue, at the sole priority the
/// caller supplies), the feature set, and the extension names.
#[derive(Clone, Debug)]
pub struct DeviceConfig {
    pub queue_family_indices: Vec<u32>,
    pub queues_per_family: u32,
    pub features: DeviceFeatures,
    pub extensions: Vec<DeviceExtension>,
}

/// Assembles the logical-device configuration from the discovered queue
/// family indices and the presentation mode.
pub fn build_device_config(
    queue_indices: &QueueFamilyIndices,
    headless_mode: bool,
) -> (r: DeviceConfig)
    ensures
        r.queue_family_indices@ == queue_indices.spec_unique_families(),
        r.queue_family_indices@.no_duplicates(),
        r.queues_per_family == 1,
        r.features == (DeviceFeatures {
            buffer_device_address: true,
            scalar_block_layout: true,
            acceleration_structure: true,
            ray_tracing_pipeline: true,
        }),
        r.extensions@ == spec_device_extensions(headless_mode),
{
    let mut extensions: Vec<DeviceExtension> = Vec::new();
    extensions.push(DeviceExtension::RayTracingPipeline);
    extensions.push(DeviceExtension::AccelerationStructure);
    extensions.push(DeviceExtension::DeferredHostOperations);
    extensions.push(DeviceExtension::Spirv14);
    extensions.push(DeviceExtension::ScalarBlockLayout);
    if !headless_mode {
        extensions.push(DeviceExtension::Swapchain);
    }
    proof {
        assert(extensions@ =~= spec_device_extensions(headless_mode));
    }
    DeviceConfig {
        queue_family_indices: queue_indices.unique_families(),
        queues_per_family: 1,
        features: DeviceFeatures {
            buffer_device_address: true,
            scalar_block_layout: true,
            acceleration_structure: true,
            ray_tracing_pipeline: true,
        },
        extensions,
    }
}

/// Whether `indices` holds `x`.
fn contains_index(indices: &Vec<u32>, x: u32) -> (r: bool)
    ensures
        r == indices@.contains(x),
{
    let mut i: usize = 0;
    while i < indices.len()
        invariant
            i <= indices@.len(),
            forall|j: int| 0 <= j < i ==> indices@[j] != x,
        decreases indices@.len() - i,
    {
        if indices[i] == x {
            return true;
        }
        i += 1;
    }
    false
}

} // verus!
