//! The full setup negotiation, run once per rendering context: instance
//! configuration, device selection, queue-family resolution, logical
//! device plan, swapchain negotiation, render pass, pipeline and
//! framebuffers, strictly in dependency order.

use vstd::prelude::*;

use crate::device::{
    create_logical_device, device_qualifies, device_well_formed, find_queue_families,
    found_queue_families, lemma_queue_families_complete_iff, logical_device_plan_matches,
    pick_physical_device, LogicalDevicePlan, PhysicalDeviceInfo, QueueFamilyIndices,
};
use crate::framebuffer::{create_framebuffers, FramebufferPlan};
use crate::instance::{
    create_instance, instance_config_matches, validation_layers_available, InstanceConfig,
    SetupError,
};
use crate::pipeline::{create_graphics_pipeline, pipeline_config_matches, GraphicsPipelineConfig};
use crate::render_pass::{create_render_pass, render_pass_matches, RenderPassDescription};
use crate::swapchain::{
    create_swap_chain, negotiated_swap_chain, Extent, SwapchainNegotiationResult,
};

verus! {

/// Everything one negotiation produces, in the order the stages are
/// executed; each field is derived from the fields before it.
#[derive(Debug, Clone)]
pub struct EngineSetupPlan {
    pub instance: InstanceConfig,
    /// Position of the selected device in the enumeration order.
    pub device_index: usize,
    pub queue_family_indices: QueueFamilyIndices,
    pub logical_device: LogicalDevicePlan,
    pub swap_chain: SwapchainNegotiationResult,
    pub render_pass: RenderPassDescription,
    pub graphics_pipeline: GraphicsPipelineConfig,
    pub framebuffers: Vec<FramebufferPlan>,
}

/// The shape of a successful negotiation: the first qualifying device is
/// selected, and every later stage equals what its own negotiation
/// function derives from the stages before it.
pub open spec fn engine_plan_matches(
    plan: EngineSetupPlan,
    enable_validation: bool,
    window_extensions: Seq<String>,
    devices: Seq<PhysicalDeviceInfo>,
    window_extent: Extent,
) -> bool {
    let device = devices[plan.device_index as int];
    let indices = found_queue_families(device.queue_families@);
    &&& instance_config_matches(plan.instance, enable_validation, window_extensions)
    &&& plan.device_index < devices.len()
    &&& device_qualifies(device)
    &&& (forall|j: int| 0 <= j < plan.device_index ==> !device_qualifies(devices[j]))
    &&& plan.queue_family_indices == indices
    &&& logical_device_plan_matches(plan.logical_device, indices)
    &&& plan.swap_chain == negotiated_swap_chain(
        device.swap_chain_support,
        indices,
        window_extent,
    )
    &&& render_pass_matches(plan.render_pass, plan.swap_chain.format)
    &&& pipeline_config_matches(plan.graphics_pipeline, plan.swap_chain.extent)
    &&& plan.framebuffers@.len() == plan.swap_chain.min_image_count
    &&& (forall|i: int| 0 <= i < plan.framebuffers@.len() ==> plan.framebuffers@[i]
        == (FramebufferPlan { image_index: i as usize, extent: plan.swap_chain.extent, layers: 1 }))
}

/// Run the whole negotiation: validate the requested diagnostic layers and
/// assemble the instance configuration, pick the first qualifying physical
/// device, resolve its queue families, plan the logical device, negotiate
/// the swapchain, and derive the render pass, pipeline and framebuffer
/// plans.  Fails exactly when the validation layer is missing while
/// diagnostics are enabled, or when no device qualifies.
pub fn negotiate_engine_setup(
    enable_validation: bool,
    available_layers: &Vec<String>,
    window_extensions: Vec<String>,
    devices: &Vec<PhysicalDeviceInfo>,
    window_extent: Extent,
) -> (r: Result<EngineSetupPlan, SetupError>)
    requires
        forall|k: int| 0 <= k < devices@.len() ==> device_well_formed(#[trigger] devices@[k]),
    ensures
        enable_validation && !validation_layers_available(available_layers@) ==> r == Err::<
            EngineSetupPlan,
            SetupError,
        >(SetupError::ValidationLayersUnavailable),
        (!enable_validation || validation_layers_available(available_layers@)) && (forall|j: int|
            0 <= j < devices@.len() ==> !device_qualifies(devices@[j])) ==> r == Err::<
            EngineSetupPlan,
            SetupError,
        >(SetupError::NoQualifyingDevice),
        (!enable_validation || validation_layers_available(available_layers@)) && (exists|j: int|
            0 <= j < devices@.len() && device_qualifies(devices@[j])) ==> (r matches Ok(plan)
            && engine_plan_matches(
            plan,
            enable_validation,
            window_extensions@,
            devices@,
            window_extent,
        )),
{
    let instance = match create_instance(enable_validation, available_layers, window_extensions) {
        Ok(config) => config,
        Err(e) => {
            return Err(e);
        },
    };
    let device_index = match pick_physical_device(devices) {
        Some(i) => i,
        None => {
            return Err(SetupError::NoQualifyingDevice);
        },
    };
    let device = &devices[device_index];
    let queue_family_indices = find_queue_families(&device.queue_families);
    proof {
        lemma_queue_families_complete_iff(device.queue_families@);
    }
    let logical_device = create_logical_device(&queue_family_indices);
    let swap_chain = create_swap_chain(
        &device.swap_chain_support,
        &queue_family_indices,
        window_extent,
    );
    let render_pass = create_render_pass(swap_chain.format);
    let graphics_pipeline = create_graphics_pipeline(swap_chain.extent);
    let framebuffers = create_framebuffers(swap_chain.min_image_count as usize, swap_chain.extent);
    Ok(
        EngineSetupPlan {
            instance,
            device_index,
            queue_family_indices,
            logical_device,
            swap_chain,
            render_pass,
            graphics_pipeline,
            framebuffers,
        },
    )
}

} // verus!
