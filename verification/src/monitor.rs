use vstd::prelude::*;

verus! {

/// Outside work that a lifecycle operation asks of its caller. The caller
/// performs the effects of one operation in the order in which they are given.
#[derive(Debug, PartialEq, Eq)]
pub enum Effect<H> {
    /// Tell the host that the monitor is now running (`true`) or stopped (`false`).
    EmitStatus(bool),
    /// Run the watch loop of the watcher that was handed in, on a thread of its own.
    Spawn,
    /// Signal the watcher that owns this handle to stop.
    Shutdown(H),
}

/// The slot after an operation, and what the operation returns.
pub struct Transition<H> {
    pub slot: Option<H>,
    pub result: Result<Seq<Effect<H>>, Seq<char>>,
}

/// Starting on a slot. A running monitor is left alone and nothing is asked
/// of the caller. A stopped one takes the new watcher's handle, announces
/// itself and only then has the watcher spawned; where no watcher could be
/// made, the slot stays empty and the failure is returned.
pub open spec fn started<H>(slot: Option<H>, watcher: Result<H, Seq<char>>) -> Transition<H> {
    match slot {
        Some(_) => Transition { slot, result: Ok(Seq::empty()) },
        None => match watcher {
            Ok(handle) => Transition {
                slot: Some(handle),
                result: Ok(seq![Effect::EmitStatus(true), Effect::Spawn]),
            },
            Err(description) => Transition { slot: None, result: Err(description) },
        },
    }
}

/// Stopping on a slot. The host is told first; then the stored handle, if
/// there is one, leaves the slot to be signalled.
pub open spec fn stopped<H>(slot: Option<H>) -> Transition<H> {
    Transition {
        slot: None,
        result: Ok(
            match slot {
                Some(handle) => seq![Effect::EmitStatus(false), Effect::Shutdown(handle)],
                None => seq![Effect::EmitStatus(false)],
            },
        ),
    }
}

/// The outcome of making a watcher, with the failure as a sequence of characters.
pub open spec fn watcher_view<H>(watcher: Result<H, String>) -> Result<H, Seq<char>> {
    match watcher {
        Ok(handle) => Ok(handle),
        Err(description) => Err(description@),
    }
}

/// What a lifecycle operation returned, as sequences.
pub open spec fn outcome_view<H>(outcome: Result<Vec<Effect<H>>, String>) -> Result<
    Seq<Effect<H>>,
    Seq<char>,
> {
    match outcome {
        Ok(effects) => Ok(effects@),
        Err(description) => Err(description@),
    }
}

/// The clipboard manager's monitor slot: the shutdown handle of the running
/// watcher, or nothing while the monitor is stopped. `H` is the capability
/// that stops a watcher; the manager only stores it and hands it back.
pub struct Clipboard<H> {
    watcher_shutdown: Option<H>,
}

impl<H> View for Clipboard<H> {
    type V = Option<H>;

    closed spec fn view(&self) -> Option<H> {
        self.watcher_shutdown
    }
}

impl<H> Clipboard<H> {
    /// The monitor is running exactly when a shutdown handle is stored.
    pub open spec fn running(&self) -> bool {
        self@ is Some
    }

    /// A manager whose monitor was never started.
    pub fn new() -> (clipboard: Self)
        ensures
            clipboard@ is None,
    {
        Clipboard { watcher_shutdown: None }
    }

    /// Whether a shutdown handle is stored at this moment.
    pub fn is_monitor_running(&self) -> (running: bool)
        ensures
            running == self.running(),
    {
        self.watcher_shutdown.is_some()
    }

    /// Starts the monitor unless it is running. `watcher` is the outcome of
    /// making a native watcher: its shutdown handle, or why none could be made.
    pub fn start_monitor(&mut self, watcher: Result<H, String>) -> (outcome: Result<
        Vec<Effect<H>>,
        String,
    >)
        ensures
            final(self)@ == started(old(self)@, watcher_view(watcher)).slot,
            outcome_view(outcome) == started(old(self)@, watcher_view(watcher)).result,
            outcome is Ok ==> final(self).running(),
            outcome is Err ==> !old(self).running() && !final(self).running(),
    {
        if self.watcher_shutdown.is_some() {
            let effects: Vec<Effect<H>> = Vec::new();
            assert(effects@ =~= Seq::empty());
            return Ok(effects);
        }
        match watcher {
            Ok(handle) => {
                self.watcher_shutdown = Some(handle);
                let mut effects: Vec<Effect<H>> = Vec::new();
                effects.push(Effect::EmitStatus(true));
                effects.push(Effect::Spawn);
                assert(effects@ =~= seq![Effect::EmitStatus(true), Effect::Spawn]);
                Ok(effects)
            },
            Err(description) => Err(description),
        }
    }

    /// Stops the monitor. Succeeds in every state.
    pub fn stop_monitor(&mut self) -> (outcome: Result<Vec<Effect<H>>, String>)
        ensures
            final(self)@ == stopped(old(self)@).slot,
            outcome_view(outcome) == stopped(old(self)@).result,
            outcome is Ok,
            !final(self).running(),
    {
        let mut effects: Vec<Effect<H>> = Vec::new();
        effects.push(Effect::EmitStatus(false));
        match self.watcher_shutdown.take() {
            Some(handle) => {
                effects.push(Effect::Shutdown(handle));
                assert(effects@ =~= seq![Effect::EmitStatus(false), Effect::Shutdown(handle)]);
            },
            None => {
                assert(effects@ =~= seq![Effect::EmitStatus(false)]);
            },
        }
        Ok(effects)
    }
}

/// A start request that follows a successful one changes nothing and asks
/// nothing of the caller, whatever came of making its watcher: the handle of
/// the first watcher stays, and no second watcher is spawned.
pub proof fn lemma_start_again_changes_nothing<H>(
    slot: Option<H>,
    first: H,
    second: Result<H, Seq<char>>,
)
    ensures
        started(slot, Ok(first)).slot is Some,
        started(slot, Ok(first)).result is Ok,
        started(started(slot, Ok(first)).slot, second).slot == started(slot, Ok(first)).slot,
        started(started(slot, Ok(first)).slot, second).result == Ok::<Seq<Effect<H>>, Seq<char>>(
            Seq::empty(),
        ),
{
}

/// A stop request succeeds in every state and leaves the slot empty. One that
/// follows another finds no handle: it tells the host and signals nobody.
pub proof fn lemma_stop_again_signals_nobody<H>(slot: Option<H>)
    ensures
        stopped(slot).slot is None,
        stopped(slot).result is Ok,
        stopped(stopped(slot).slot).slot is None,
        stopped(stopped(slot).slot).result == Ok::<Seq<Effect<H>>, Seq<char>>(
            seq![Effect::EmitStatus(false)],
        ),
{
}

/// A start request fails only on a stopped monitor, and leaves it as it was:
/// no handle is stored, no event is sent and no watcher is spawned.
pub proof fn lemma_failed_start_changes_nothing<H>(slot: Option<H>, watcher: Result<H, Seq<char>>)
    requires
        started(slot, watcher).result is Err,
    ensures
        slot is None,
        started(slot, watcher).slot == slot,
        started(slot, watcher).result == Err::<Seq<Effect<H>>, Seq<char>>(watcher->Err_0),
{
}

/// Where a start request has a watcher spawned, it has told the host just
/// before that the monitor runs.
pub proof fn lemma_spawn_follows_status<H>(slot: Option<H>, watcher: Result<H, Seq<char>>, i: int)
    requires
        started(slot, watcher).result matches Ok(effects) && 0 <= i < effects.len() && effects[i]
            == Effect::<H>::Spawn,
    ensures
        i > 0,
        started(slot, watcher).result->Ok_0[i - 1] == Effect::<H>::EmitStatus(true),
{
}

/// Where a stop request has a watcher signalled, it has told the host just
/// before that the monitor is stopped.
pub proof fn lemma_shutdown_follows_status<H>(slot: Option<H>, i: int)
    requires
        stopped(slot).result matches Ok(effects) && 0 <= i < effects.len() && effects[i]
            is Shutdown,
    ensures
        i > 0,
        stopped(slot).result->Ok_0[i - 1] == Effect::<H>::EmitStatus(false),
        stopped(slot).result->Ok_0[i] == Effect::Shutdown(slot->Some_0),
{
}

} // verus!
