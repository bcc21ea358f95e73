//! Adapter selection and queue-family search.
//!
//! The device context is chosen once at startup: the first adapter whose
//! snapshot satisfies every requirement wins, and failure to find one is
//! fatal and never retried.  The driver queries that fill the snapshots
//! happen at the application edge; the decisions over them live here.

use vstd::prelude::*;
use crate::error::RenderError;

verus! {

/// What one queue family of an adapter can do, as reported by the driver.
#[derive(Clone, Copy, Debug, PartialEq, Eq, Structural)]
pub struct QueueFamilyProperties {
    pub supports_graphics: bool,
    pub supports_present: bool,
}

/// The queue families picked for the logical device; `None` where the
/// adapter offers no family with the needed support.
#[derive(Clone, Copy, Debug, PartialEq, Eq, Structural)]
pub struct QueueFamilyIndices {
    pub graphics_family: Option<u32>,
    pub present_family: Option<u32>,
}

impl QueueFamilyIndices {
    /// Both required operation classes found a family (they may coincide).
    pub open spec fn is_complete_spec(self) -> bool {
        self.graphics_family is Some && self.present_family is Some
    }

    /// True when a graphics and a present family were both found.
    pub fn is_complete(&self) -> (r: bool)
        ensures
            r == self.is_complete_spec(),
    {
        self.graphics_family.is_some() && self.present_family.is_some()
    }
}

/// Everything adapter selection reads about one physical adapter,
/// queried at the application edge and handed over as plain values.
#[derive(Clone, Debug)]
pub struct AdapterInfo {
    pub queue_families: Vec<QueueFamilyProperties>,
    pub supports_required_extensions: bool,
    /// How many surface formats the adapter offers for the target surface.
    pub surface_format_count: usize,
    /// How many present modes it offers for the target surface.
    pub present_mode_count: usize,
    pub supports_sampler_anisotropy: bool,
}

/// Some family of the list supports graphics work.
pub open spec fn has_graphics_family(families: Seq<QueueFamilyProperties>) -> bool {
    exists|i: int| 0 <= i < families.len() && families[i].supports_graphics
}

/// Some family of the list supports presentation to the target surface.
pub open spec fn has_present_family(families: Seq<QueueFamilyProperties>) -> bool {
    exists|i: int| 0 <= i < families.len() && families[i].supports_present
}

/// Finds the first family supporting graphics and the first supporting
/// presentation; either is `None` exactly when no family qualifies.
pub fn find_queue_family(families: &Vec<QueueFamilyProperties>) -> (r: QueueFamilyIndices)
    requires
        families@.len() <= u32::MAX,
    ensures
        r.graphics_family is Some <==> has_graphics_family(families@),
        r.present_family is Some <==> has_present_family(families@),
        match r.graphics_family {
            Some(g) => {
                &&& 0 <= g < families@.len()
                &&& families@[g as int].supports_graphics
                &&& forall|j: int| 0 <= j < g ==> !families@[j].supports_graphics
            },
            None => true,
        },
        match r.present_family {
            Some(p) => {
                &&& 0 <= p < families@.len()
                &&& families@[p as int].supports_present
                &&& forall|j: int| 0 <= j < p ==> !families@[j].supports_present
            },
            None => true,
        },
{
    let n: usize = families.len();
    let mut graphics_family: Option<u32> = None;
    let mut present_family: Option<u32> = None;
    let mut i: usize = 0;
    while i < n
        invariant
            0 <= i <= n,
            n == families@.len(),
            n <= u32::MAX,
            match graphics_family {
                Some(g) => {
                    &&& 0 <= g < i
                    &&& families@[g as int].supports_graphics
                    &&& forall|j: int| 0 <= j < g ==> !families@[j].supports_graphics
                },
                None => forall|j: int| 0 <= j < i ==> !families@[j].supports_graphics,
            },
            match present_family {
                Some(p) => {
                    &&& 0 <= p < i
                    &&& families@[p as int].supports_present
                    &&& forall|j: int| 0 <= j < p ==> !families@[j].supports_present
                },
                None => forall|j: int| 0 <= j < i ==> !families@[j].supports_present,
            },
        decreases n - i,
    {
        let f = families[i];
        if f.supports_graphics && graphics_family.is_none() {
            graphics_family = Some(i as u32);
        }
        if f.supports_present && present_family.is_none() {
            present_family = Some(i as u32);
        }
        i = i + 1;
    }
    QueueFamilyIndices { graphics_family, present_family }
}

/// An adapter qualifies when it has a graphics family and a present
/// family, carries the required extensions, offers at least one surface
/// format and one present mode, and supports anisotropic sampling.
pub open spec fn adapter_suitable(a: AdapterInfo) -> bool {
    &&& has_graphics_family(a.queue_families@)
    &&& has_present_family(a.queue_families@)
    &&& a.supports_required_extensions
    &&& a.surface_format_count > 0
    &&& a.present_mode_count > 0
    &&& a.supports_sampler_anisotropy
}

/// Decides whether one adapter satisfies every device requirement.
pub fn is_physical_device_suitable(adapter: &AdapterInfo) -> (r: bool)
    requires
        adapter.queue_families@.len() <= u32::MAX,
    ensures
        r == adapter_suitable(*adapter),
{
    let indices = find_queue_family(&adapter.queue_families);
    indices.is_complete()
        && adapter.supports_required_extensions
        && adapter.surface_format_count > 0
        && adapter.present_mode_count > 0
        && adapter.supports_sampler_anisotropy
}

/// Every adapter snapshot keeps its family list addressable by `u32`.
pub open spec fn adapters_wf(adapters: Seq<AdapterInfo>) -> bool {
    forall|i: int| 0 <= i < adapters.len() ==> adapters[i].queue_families@.len() <= u32::MAX
}

/// Selects the first suitable adapter.  Fails with `NoSuitableAdapter`
/// exactly when no adapter qualifies; this is fatal, not retried.
pub fn pick_physical_device(adapters: &Vec<AdapterInfo>) -> (r: Result<usize, RenderError>)
    requires
        adapters_wf(adapters@),
    ensures
        r is Ok <==> exists|i: int| 0 <= i < adapters@.len() && adapter_suitable(adapters@[i]),
        match r {
            Ok(i) => {
                &&& 0 <= i < adapters@.len()
                &&& adapter_suitable(adapters@[i as int])
                &&& forall|j: int| 0 <= j < i ==> !adapter_suitable(adapters@[j])
            },
            Err(e) => e == RenderError::NoSuitableAdapter,
        },
{
    let n: usize = adapters.len();
    let mut i: usize = 0;
    while i < n
        invariant
            0 <= i <= n,
            n == adapters@.len(),
            adapters_wf(adapters@),
            forall|j: int| 0 <= j < i ==> !adapter_suitable(adapters@[j]),
        decreases n - i,
    {
        if is_physical_device_suitable(&adapters[i]) {
            return Ok(i);
        }
        i = i + 1;
    }
    Err(RenderError::NoSuitableAdapter)
}

/// The queue families the logical device must create queues for: one
/// entry when the graphics and present families coincide, two otherwise
/// (the set of distinct required families, graphics first).
pub fn unique_queue_families(graphics_family: u32, present_family: u32) -> (r: Vec<u32>)
    ensures
        graphics_family == present_family ==> r@ == seq![graphics_family],
        graphics_family != present_family ==> r@ == seq![graphics_family, present_family],
{
    let mut families: Vec<u32> = Vec::new();
    families.push(graphics_family);
    if present_family != graphics_family {
        families.push(present_family);
    }
    families
}

/// The plan for logical-device creation: which adapter, which families,
/// and which distinct families need a queue created.
#[derive(Clone, Debug)]
pub struct DevicePlan {
    pub adapter_index: usize,
    pub graphics_family: u32,
    pub present_family: u32,
    pub queue_families_to_create: Vec<u32>,
}

/// Decides the whole device bring-up from the adapter snapshots: picks
/// the first suitable adapter and the first graphics and present families
/// within it.  Fails with `NoSuitableAdapter` exactly when no adapter
/// qualifies; the device and queue handles are then created once, at the
/// application edge, from this plan.
pub fn plan_device_creation(adapters: &Vec<AdapterInfo>) -> (r: Result<DevicePlan, RenderError>)
    requires
        adapters_wf(adapters@),
    ensures
        r is Ok <==> exists|i: int| 0 <= i < adapters@.len() && adapter_suitable(adapters@[i]),
        match r {
            Ok(plan) => {
                &&& 0 <= plan.adapter_index < adapters@.len()
                &&& adapter_suitable(adapters@[plan.adapter_index as int])
                &&& forall|j: int| 0 <= j < plan.adapter_index
                    ==> !adapter_suitable(adapters@[j])
                &&& {
                    let families = adapters@[plan.adapter_index as int].queue_families@;
                    &&& 0 <= plan.graphics_family < families.len()
                    &&& families[plan.graphics_family as int].supports_graphics
                    &&& forall|j: int| 0 <= j < plan.graphics_family
                        ==> !families[j].supports_graphics
                    &&& 0 <= plan.present_family < families.len()
                    &&& families[plan.present_family as int].supports_present
                    &&& forall|j: int| 0 <= j < plan.present_family
                        ==> !families[j].supports_present
                }
                &&& (plan.graphics_family == plan.present_family
                    ==> plan.queue_families_to_create@ == seq![plan.graphics_family])
                &&& (plan.graphics_family != plan.present_family
                    ==> plan.queue_families_to_create@
                        == seq![plan.graphics_family, plan.present_family])
            },
            Err(e) => e == RenderError::NoSuitableAdapter,
        },
{
    let adapter_index = match pick_physical_device(adapters) {
        Ok(i) => i,
        Err(e) => {
            return Err(e);
        },
    };
    let indices = find_queue_family(&adapters[adapter_index].queue_families);
    let graphics_family = match indices.graphics_family {
        Some(g) => g,
        None => {
            return Err(RenderError::NoSuitableAdapter);
        },
    };
    let present_family = match indices.present_family {
        Some(p) => p,
        None => {
            return Err(RenderError::NoSuitableAdapter);
        },
    };
    let queue_families_to_create = unique_queue_families(graphics_family, present_family);
    Ok(DevicePlan { adapter_index, graphics_family, present_family, queue_families_to_create })
}

} // verus!
