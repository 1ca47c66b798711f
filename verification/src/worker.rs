use vstd::prelude::*;
use crate::event::{EventView, MonitorEvent};

verus! {

/// What the watch loop does after a native error: the event to report and
/// whether to go on watching.
#[derive(Debug)]
pub struct Reaction {
    pub event: MonitorEvent,
    pub keep_watching: bool,
}

/// The monitor worker: turns what the native watcher notices into events for
/// the host.
#[derive(Debug, Clone, Copy)]
pub struct ClipboardMonitor {
    stop_on_error: bool,
}

impl ClipboardMonitor {
    /// Whether a native error ends the watch loop.
    pub closed spec fn stops_on_error(&self) -> bool {
        self.stop_on_error
    }

    /// A worker that ends its watch loop on a native error if `stop_on_error`
    /// is set, and goes on watching otherwise.
    pub fn new(stop_on_error: bool) -> (monitor: Self)
        ensures
            monitor.stops_on_error() == stop_on_error,
    {
        ClipboardMonitor { stop_on_error }
    }

    /// A change of the clipboard is reported as an update. The event says only
    /// that something changed; the host reads the clipboard itself.
    pub fn on_clipboard_change(&mut self) -> (event: MonitorEvent)
        ensures
            event@ == EventView::Update,
            *final(self) == *old(self),
    {
        MonitorEvent::Update
    }

    /// A native error is reported with its description; the loop goes on
    /// unless this worker stops on errors.
    pub fn on_watcher_error(&mut self, description: String) -> (reaction: Reaction)
        ensures
            reaction.event@ == EventView::Error(description@),
            reaction.keep_watching == !old(self).stops_on_error(),
            *final(self) == *old(self),
    {
        Reaction { event: MonitorEvent::Error(description), keep_watching: !self.stop_on_error }
    }
}

impl Default for ClipboardMonitor {
    /// The default worker goes on watching after a native error.
    fn default() -> (monitor: Self)
        ensures
            !monitor.stops_on_error(),
    {
        ClipboardMonitor { stop_on_error: false }
    }
}

} // verus!
