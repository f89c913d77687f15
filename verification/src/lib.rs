//! A minimal real-time rendering engine: a flat list of drawable triangles
//! and the bring-up and per-frame decisions of a fixed graphics pipeline,
//! stated and proved over plain values. The process-boundary work (window,
//! GPU device, swapchain, command submission) is carried out by a thin
//! unverified shell that follows the plans this library produces.

use vstd::prelude::*;

pub mod device;
pub mod primitives;
pub mod rendering;
pub mod shaders;

use crate::primitives::triangle::Triangle;

verus! {

/// The engine's own state: the flat list of triangles drawn each frame.
///
/// The GPU context that the original engine couples to this list (instance,
/// device, queue) lives in the unverified shell; the shell asks
/// [`device::plan_device_init`] how to bring it up.
pub struct Engine {
    /// The triangles drawn each frame, in draw order.
    pub renderables: Vec<Triangle>,
}

impl Engine {
    /// Initializes the engine with nothing to draw yet.
    pub fn init() -> (e: Engine)
        ensures
            e.renderables@.len() == 0,
    {
        Engine { renderables: Vec::new() }
    }
}

/// What the engine reads out of one window event when it polls the queue
/// between frames.
#[derive(Clone, Copy, Debug, PartialEq, Eq)]
pub enum WindowEvent {
    /// The user asked to close the main window.
    CloseRequested,
    /// Any other event; the engine ignores it.
    Other,
}

/// Decides whether the main loop is done: it is exactly when some polled
/// event asked to close the window.
pub fn close_requested(events: &Vec<WindowEvent>) -> (r: bool)
    ensures
        r <==> exists|i: int| 0 <= i < events@.len() && events@[i] is CloseRequested,
{
    let mut i: usize = 0;
    while i < events.len()
        invariant
            i <= events@.len(),
            forall|j: int| 0 <= j < i ==> !(events@[j] is CloseRequested),
        decreases events@.len() - i,
    {
        if matches!(events[i], WindowEvent::CloseRequested) {
            return true;
        }
        i = i + 1;
    }
    false
}

/// The ways the engine's bring-up or per-frame planning can fail.
///
/// Every failure aborts the engine: there is no retry or recovery path.
#[derive(Clone, Copy, Debug, PartialEq, Eq)]
pub enum EngineError {
    /// No physical device was enumerated.
    NoDevice,
    /// The chosen physical device has no queue family that supports graphics.
    NoGraphicsQueueFamily,
    /// The presentation surface reports no supported image format.
    NoSupportedFormat,
    /// The presentation surface reports no supported composite alpha mode.
    NoSupportedAlpha,
    /// The main window no longer exists, so its size cannot be read.
    WindowGone,
}

impl EngineError {
    /// The message shown when the engine aborts on this failure.
    pub fn message(&self) -> (m: String)
        ensures
            *self is NoDevice ==> m@ == "no device available"@,
            *self is NoGraphicsQueueFamily ==> m@ == "couldn't find a graphical queue family"@,
            *self is NoSupportedFormat ==> m@ == "no supported surface format"@,
            *self is NoSupportedAlpha ==> m@ == "no supported composite alpha"@,
            *self is WindowGone ==> m@ == "Window no longer exists"@,
    {
        match self {
            EngineError::NoDevice => String::from_str("no device available"),
            EngineError::NoGraphicsQueueFamily => String::from_str("couldn't find a graphical queue family"),
            EngineError::NoSupportedFormat => String::from_str("no supported surface format"),
            EngineError::NoSupportedAlpha => String::from_str("no supported composite alpha"),
            EngineError::WindowGone => String::from_str("Window no longer exists"),
        }
    }
}

} // verus!
