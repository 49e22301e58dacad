use vstd::prelude::*;
use crate::event_log::EventLog;

verus! {

/// The switch that decides whether incoming samples reach the detectors.
pub struct MonitorController {
    enabled: bool,
}

impl MonitorController {
    pub closed spec fn enabled(&self) -> bool {
        self.enabled
    }

    /// Monitoring starts enabled.
    pub fn new() -> (r: Self)
        ensures
            r.enabled(),
    {
        MonitorController { enabled: true }
    }

    pub fn enable(&mut self)
        ensures
            final(self).enabled(),
    {
        self.enabled = true;
    }

    pub fn disable(&mut self)
        ensures
            !final(self).enabled(),
    {
        self.enabled = false;
    }

    pub fn is_enabled(&self) -> (r: bool)
        ensures
            r == self.enabled(),
    {
        self.enabled
    }

    /// Turns monitoring on or off and records the change in `log`.
    pub fn set_monitoring(&mut self, enabled: bool, log: &mut EventLog)
        ensures
            final(self).enabled() == enabled,
            final(log)@ == old(log)@.push(
                if enabled {
                    "Monitoring enabled."@
                } else {
                    "Monitoring disabled."@
                },
            ),
    {
        self.enabled = enabled;
        let mut m = String::new();
        if enabled {
            m.append("Monitoring enabled.");
        } else {
            m.append("Monitoring disabled.");
        }
        log.push(m);
    }
}

} // verus!
