use vstd::prelude::*;

verus! {

/// An event that the monitor reports to the host application.
#[derive(Debug)]
pub enum MonitorEvent {
    /// The monitor was started (`true`) or stopped (`false`).
    Status(bool),
    /// The clipboard content changed.
    Update,
    /// The native watcher reported an error, described by the text.
    Error(String),
}

/// The value that travels with an event.
#[derive(Debug)]
pub enum Payload {
    Flag(bool),
    Text(String),
}

/// Mathematical model of a [`MonitorEvent`].
pub enum EventView {
    Status(bool),
    Update,
    Error(Seq<char>),
}

/// Mathematical model of a [`Payload`].
pub enum PayloadView {
    Flag(bool),
    Text(Seq<char>),
}

impl View for MonitorEvent {
    type V = EventView;

    open spec fn view(&self) -> EventView {
        match self {
            MonitorEvent::Status(running) => EventView::Status(*running),
            MonitorEvent::Update => EventView::Update,
            MonitorEvent::Error(description) => EventView::Error(description@),
        }
    }
}

impl View for Payload {
    type V = PayloadView;

    open spec fn view(&self) -> PayloadView {
        match self {
            Payload::Flag(flag) => PayloadView::Flag(*flag),
            Payload::Text(text) => PayloadView::Text(text@),
        }
    }
}

impl EventView {
    /// The name under which the host receives the event.
    pub open spec fn name(self) -> Seq<char> {
        match self {
            EventView::Status(_) => "plugin:clipboard://clipboard-monitor/status"@,
            EventView::Update => "plugin:clipboard://clipboard-monitor/update"@,
            EventView::Error(_) => "plugin:clipboard://clipboard-monitor/error"@,
        }
    }

    /// What the event carries: the new running state, a fixed marker for a
    /// change, or the description of the error.
    pub open spec fn payload(self) -> PayloadView {
        match self {
            EventView::Status(running) => PayloadView::Flag(running),
            EventView::Update => PayloadView::Text("clipboard update"@),
            EventView::Error(description) => PayloadView::Text(description),
        }
    }
}

impl MonitorEvent {
    /// The name under which the host receives this event.
    pub fn name(&self) -> (name: &'static str)
        ensures
            name@ == self@.name(),
    {
        match self {
            MonitorEvent::Status(_) => "plugin:clipboard://clipboard-monitor/status",
            MonitorEvent::Update => "plugin:clipboard://clipboard-monitor/update",
            MonitorEvent::Error(_) => "plugin:clipboard://clipboard-monitor/error",
        }
    }

    /// The value that travels with this event.
    pub fn payload(&self) -> (payload: Payload)
        ensures
            payload@ == self@.payload(),
    {
        match self {
            MonitorEvent::Status(running) => Payload::Flag(*running),
            MonitorEvent::Update => Payload::Text(String::from_str("clipboard update")),
            MonitorEvent::Error(description) => Payload::Text(description.clone()),
        }
    }
}

} // verus!
