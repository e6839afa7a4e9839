//! Errors of the Wayland overlay.

use vstd::prelude::*;
use vstd::string::*;

verus! {

/// What can go wrong while running the Wayland overlay.
#[derive(Debug)]
pub enum WaylandError {
    Connection(String),
    MissingProtocol(String),
    NoOutputs,
    OutputNotFound(String),
    ShmAllocation(String),
    Cairo(String),
    EventLoopClosed,
    ChannelSend(String),
}

/// The text of an error.
pub open spec fn spec_error_message(e: WaylandError) -> Seq<char> {
    match e {
        WaylandError::Connection(s) => "Wayland connection failed: "@ + s@,
        WaylandError::MissingProtocol(s) => "Required Wayland protocol not available: "@ + s@,
        WaylandError::NoOutputs => "No monitors found"@,
        WaylandError::OutputNotFound(s) => "Monitor not found: "@ + s@,
        WaylandError::ShmAllocation(s) => "SHM allocation failed: "@ + s@,
        WaylandError::Cairo(s) => "Cairo rendering error: "@ + s@,
        WaylandError::EventLoopClosed => "Event loop closed"@,
        WaylandError::ChannelSend(s) => "Channel send failed: "@ + s@,
    }
}

impl WaylandError {
    /// The human-readable text of the error.
    pub fn message(&self) -> (r: String)
        ensures
            r@ == spec_error_message(*self),
    {
        match self {
            WaylandError::Connection(s) => String::from_str("Wayland connection failed: ").concat(
                s.as_str(),
            ),
            WaylandError::MissingProtocol(s) => String::from_str(
                "Required Wayland protocol not available: ",
            ).concat(s.as_str()),
            WaylandError::NoOutputs => String::from_str("No monitors found"),
            WaylandError::OutputNotFound(s) => String::from_str("Monitor not found: ").concat(
                s.as_str(),
            ),
            WaylandError::ShmAllocation(s) => String::from_str("SHM allocation failed: ").concat(
                s.as_str(),
            ),
            WaylandError::Cairo(s) => String::from_str("Cairo rendering error: ").concat(
                s.as_str(),
            ),
            WaylandError::EventLoopClosed => String::from_str("Event loop closed"),
            WaylandError::ChannelSend(s) => String::from_str("Channel send failed: ").concat(
                s.as_str(),
            ),
        }
    }
}

} // verus!
