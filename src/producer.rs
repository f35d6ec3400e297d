use vstd::prelude::*;

verus! {

/// The interval a freshly started session reports at, in seconds.
pub const DEFAULT_METRICS_INTERVAL: u64 = 10;

/// The smallest interval accepted, in seconds.
pub const MIN_METRICS_INTERVAL: u64 = 1;

/// The telemetry producer's live settings, shared through the control channel.
#[derive(Clone, Copy, Debug, PartialEq, Eq, Structural)]
pub struct ProducerConfig {
    /// Seconds between two telemetry reports.
    pub metrics_interval: u64,
}

/// The payload of a server's `update_config` command.
#[derive(Clone, Copy, Debug, PartialEq, Eq, Structural)]
pub struct ProbeConfig {
    pub metrics_interval: u64,
}

/// A candidate configuration was refused: its interval is under one second.
#[derive(Clone, Copy, Debug, PartialEq, Eq, Structural)]
pub struct IntervalTooShort {
    pub metrics_interval: u64,
}

impl ProducerConfig {
    pub fn new() -> (r: ProducerConfig)
        ensures
            r.metrics_interval == DEFAULT_METRICS_INTERVAL,
    {
        ProducerConfig { metrics_interval: DEFAULT_METRICS_INTERVAL }
    }

    /// Accepts an interval of at least one second; smaller ones are refused,
    /// not clamped.
    pub fn validate(&self) -> (r: Result<(), IntervalTooShort>)
        ensures
            r is Ok <==> self.metrics_interval >= MIN_METRICS_INTERVAL,
            r matches Err(e) ==> e.metrics_interval == self.metrics_interval,
    {
        if self.metrics_interval < MIN_METRICS_INTERVAL {
            Err(IntervalTooShort { metrics_interval: self.metrics_interval })
        } else {
            Ok(())
        }
    }

    /// The validated configuration a server's `update_config` asks for.
    pub fn from_probe(probe: ProbeConfig) -> (r: Result<ProducerConfig, IntervalTooShort>)
        ensures
            r == update_spec(probe),
    {
        let candidate = ProducerConfig { metrics_interval: probe.metrics_interval };
        match candidate.validate() {
            Ok(()) => Ok(candidate),
            Err(e) => Err(e),
        }
    }
}

pub open spec fn update_spec(probe: ProbeConfig) -> Result<ProducerConfig, IntervalTooShort> {
    if probe.metrics_interval >= MIN_METRICS_INTERVAL {
        Ok(ProducerConfig { metrics_interval: probe.metrics_interval })
    } else {
        Err(IntervalTooShort { metrics_interval: probe.metrics_interval })
    }
}

/// What the producer loop observed.
#[derive(Clone, Copy, Debug, PartialEq, Eq, Structural)]
pub enum ProducerEvent {
    /// The timer fired.
    Tick,
    /// A new configuration was published on the control channel.
    ConfigChanged(ProducerConfig),
    /// The writer's queue is gone: the session has failed.
    EnqueueFailed,
}

/// What the producer loop does next.
#[derive(Clone, Copy, Debug, PartialEq, Eq, Structural)]
pub enum ProducerAction {
    /// Sample telemetry and enqueue it as a `metrics` envelope.
    SendMetrics,
    /// Drop the pending tick and start a fresh timer of this many seconds.
    RestartTimer(u64),
    /// Leave the loop.
    Stop,
}

/// The telemetry producer's decisions: ticking interval and whether it runs.
pub struct TelemetryProducer {
    interval: u64,
    running: bool,
}

pub open spec fn producer_step_spec(interval: u64, running: bool, event: ProducerEvent) -> (
    u64,
    bool,
    ProducerAction,
) {
    if !running {
        (interval, false, ProducerAction::Stop)
    } else {
        match event {
            ProducerEvent::Tick => (interval, true, ProducerAction::SendMetrics),
            ProducerEvent::ConfigChanged(c) => (
                c.metrics_interval,
                true,
                ProducerAction::RestartTimer(c.metrics_interval),
            ),
            ProducerEvent::EnqueueFailed => (interval, false, ProducerAction::Stop),
        }
    }
}

impl TelemetryProducer {
    pub closed spec fn interval_spec(&self) -> u64 {
        self.interval
    }

    pub closed spec fn running(&self) -> bool {
        self.running
    }

    /// A producer seeded from the channel's current configuration.
    pub fn new(config: ProducerConfig) -> (r: TelemetryProducer)
        ensures
            r.interval_spec() == config.metrics_interval,
            r.running(),
    {
        TelemetryProducer { interval: config.metrics_interval, running: true }
    }

    /// The current ticking interval, in seconds.
    pub fn interval(&self) -> (r: u64)
        ensures
            r == self.interval_spec(),
    {
        self.interval
    }

    pub fn on_event(&mut self, event: ProducerEvent) -> (r: ProducerAction)
        ensures
            (final(self).interval_spec(), final(self).running(), r) == producer_step_spec(
                old(self).interval_spec(),
                old(self).running(),
                event,
            ),
    {
        if !self.running {
            return ProducerAction::Stop;
        }
        match event {
            ProducerEvent::Tick => ProducerAction::SendMetrics,
            ProducerEvent::ConfigChanged(c) => {
                self.interval = c.metrics_interval;
                ProducerAction::RestartTimer(c.metrics_interval)
            },
            ProducerEvent::EnqueueFailed => {
                self.running = false;
                ProducerAction::Stop
            },
        }
    }
}

/// The producer's interval after a server's `update_config`: a validated
/// configuration reaches the running producer through the control channel;
/// a refused one is never published.
pub open spec fn interval_after_update(interval: u64, running: bool, probe: ProbeConfig) -> (u64, bool) {
    match update_spec(probe) {
        Ok(c) => {
            let (i, r, _) = producer_step_spec(interval, running, ProducerEvent::ConfigChanged(c));
            (i, r)
        },
        Err(_) => (interval, running),
    }
}

/// A valid update changes the live interval of a running producer, which keeps
/// running; an invalid one leaves the interval as it was.
pub proof fn lemma_update_applies_live(interval: u64, probe: ProbeConfig)
    ensures
        probe.metrics_interval >= 1 ==> interval_after_update(interval, true, probe) == (
            probe.metrics_interval,
            true,
        ),
        probe.metrics_interval == 0 ==> interval_after_update(interval, true, probe) == (
            interval,
            true,
        ),
{
}

} // verus!
