//! A switch that decides whether diagnostic messages are emitted.
use vstd::prelude::*;

verus! {

/// Whether diagnostic logging is on. It starts off.
#[derive(Clone, Copy, Debug, PartialEq, Eq, Structural)]
pub struct LogSwitch {
    pub enabled: bool,
}

impl LogSwitch {
    /// A switch in the off position.
    pub fn new() -> (switch: LogSwitch)
        ensures
            !switch.enabled,
    {
        LogSwitch { enabled: false }
    }
}

/// The line to emit for `message`: the message itself while logging is on,
/// nothing while it is off.
pub fn log(switch: &LogSwitch, message: &str) -> (line: Option<String>)
    ensures
        switch.enabled ==> line.deep_view() == Some(message@),
        !switch.enabled ==> line is None,
{
    if switch.enabled {
        Some(String::from_str(message))
    } else {
        None
    }
}

/// Turns logging on.
pub fn enable_log(switch: &mut LogSwitch)
    ensures
        final(switch).enabled,
{
    switch.enabled = true;
}

/// Turns logging off.
pub fn disable_log(switch: &mut LogSwitch)
    ensures
        !final(switch).enabled,
{
    switch.enabled = false;
}

} // verus!
