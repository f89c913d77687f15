//! Bring-up decisions for the GPU context: which physical device to use and
//! which of its queue families receives the engine's single graphics queue.
//!
//! The unverified shell enumerates the physical devices and the queue
//! families of the chosen one, reduces each family to whether it supports
//! graphics, and then creates the device exactly as the plan says.

use vstd::prelude::*;
use crate::EngineError;

verus! {

/// The queue priority handed to the device at creation, as the IEEE-754
/// single-precision bit pattern of one half.
pub const QUEUE_PRIORITY_BITS: u32 = 0x3F00_0000;

/// The decisions of device bring-up: which enumerated physical device to
/// open and which of its queue families to request the graphics queue from.
#[derive(Clone, Copy, Debug, PartialEq, Eq)]
pub struct DeviceInitPlan {
    /// Index of the chosen device in the enumeration order.
    pub physical_device_index: usize,
    /// Index of the chosen queue family in the device's family order.
    pub queue_family_index: usize,
}

/// Picks the physical device: the first one enumerated.
pub fn select_physical_device(device_count: usize) -> (r: Result<usize, EngineError>)
    ensures
        device_count > 0 ==> r == Ok::<usize, EngineError>(0usize),
        device_count == 0 ==> r == Err::<usize, EngineError>(EngineError::NoDevice),
{
    if device_count > 0 {
        Ok(0)
    } else {
        Err(EngineError::NoDevice)
    }
}

/// Picks the queue family to draw with: the first one that supports
/// graphics, in the order the device reports its families.
pub fn select_graphics_queue_family(supports_graphics: &Vec<bool>) -> (r: Result<usize, EngineError>)
    ensures
        match r {
            Ok(i) => i < supports_graphics@.len()
                && supports_graphics@[i as int]
                && (forall|j: int| 0 <= j < i ==> !supports_graphics@[j]),
            Err(e) => e == EngineError::NoGraphicsQueueFamily
                && (forall|j: int| 0 <= j < supports_graphics@.len() ==> !supports_graphics@[j]),
        },
{
    let mut i: usize = 0;
    while i < supports_graphics.len()
        invariant
            i <= supports_graphics@.len(),
            forall|j: int| 0 <= j < i ==> !supports_graphics@[j],
        decreases supports_graphics@.len() - i,
    {
        if supports_graphics[i] {
            return Ok(i);
        }
        i = i + 1;
    }
    Err(EngineError::NoGraphicsQueueFamily)
}

/// Plans the whole device bring-up from what the shell enumerated: the
/// number of physical devices and, for each queue family of the first one,
/// whether it supports graphics.
///
/// Fails with [`EngineError::NoDevice`] exactly when no device was
/// enumerated, and with [`EngineError::NoGraphicsQueueFamily`] exactly when
/// a device was but none of its families supports graphics.
pub fn plan_device_init(device_count: usize, supports_graphics: &Vec<bool>) -> (r: Result<DeviceInitPlan, EngineError>)
    ensures
        device_count == 0 ==> r == Err::<DeviceInitPlan, EngineError>(EngineError::NoDevice),
        device_count > 0 ==> match r {
            Ok(plan) => plan.physical_device_index == 0
                && plan.queue_family_index < supports_graphics@.len()
                && supports_graphics@[plan.queue_family_index as int]
                && (forall|j: int| 0 <= j < plan.queue_family_index ==> !supports_graphics@[j]),
            Err(e) => e == EngineError::NoGraphicsQueueFamily
                && (forall|j: int| 0 <= j < supports_graphics@.len() ==> !supports_graphics@[j]),
        },
{
    let physical_device_index = select_physical_device(device_count)?;
    let queue_family_index = select_graphics_queue_family(supports_graphics)?;
    Ok(DeviceInitPlan { physical_device_index, queue_family_index })
}

} // verus!
