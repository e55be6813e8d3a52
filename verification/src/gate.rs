//! The request gate: at most one render attempt in flight, and a minimum
//! spacing between the starts of consecutive attempts.

use crate::clock::{clock_origin, nanos_since};
use crate::request::{RequestView, StatusLineRequest};
use std::time::Instant;
use vstd::prelude::*;

verus! {

/// Nanoseconds in one millisecond, the unit the intervals are configured in.
pub const NANOS_PER_MILLI: u128 = 1_000_000;

/// How the status line is configured: the renderer's argv, the minimum spacing
/// between attempts and the time an attempt may wait for the renderer, both in
/// milliseconds. An empty `command` switches the feature off.
#[derive(Debug)]
pub struct StatusLineConfig {
    pub command: Vec<String>,
    pub update_interval_ms: u64,
    pub timeout_ms: u64,
}

/// Mathematical state of a [`StatusLineManager`]. Times are nanoseconds on its
/// monotonic clock.
pub struct GateState {
    pub command: Seq<Seq<char>>,
    pub update_interval_ms: u64,
    pub timeout_ms: u64,
    pub last_started_at: Option<nat>,
    pub in_flight: bool,
}

/// Time that passed from `earlier` to `now`; none if `now` lies before
/// `earlier`.
pub open spec fn elapsed_between(earlier: nat, now: nat) -> nat {
    if now >= earlier {
        (now - earlier) as nat
    } else {
        0
    }
}

impl GateState {
    /// The state of a gate that was just made from a configuration.
    pub open spec fn idle(
        command: Seq<Seq<char>>,
        update_interval_ms: u64,
        timeout_ms: u64,
    ) -> Self {
        GateState {
            command,
            update_interval_ms,
            timeout_ms,
            last_started_at: None,
            in_flight: false,
        }
    }

    /// A gate exists only for a command that can be run.
    pub open spec fn wf(self) -> bool {
        self.command.len() > 0
    }

    /// The debounce interval in nanoseconds.
    pub open spec fn debounce_nanos(self) -> nat {
        self.update_interval_ms as nat * NANOS_PER_MILLI as nat
    }

    /// An attempt was started before, and less than the debounce interval has
    /// passed since its start.
    pub open spec fn debounced_at(self, now: nat) -> bool {
        self.last_started_at matches Some(last) && elapsed_between(last, now)
            < self.debounce_nanos()
    }

    /// A trigger at `now` starts an attempt.
    pub open spec fn admits(self, now: nat) -> bool {
        !self.in_flight && !self.debounced_at(now)
    }

    /// The state after a trigger at `now`: an admitted trigger raises the guard
    /// and records its time, any other leaves the state as it was.
    pub open spec fn trigger(self, now: nat) -> Self {
        if self.admits(now) {
            GateState { last_started_at: Some(now), in_flight: true, ..self }
        } else {
            self
        }
    }

    /// The state after the host acknowledged a result.
    pub open spec fn complete(self) -> Self {
        GateState { in_flight: false, ..self }
    }

    /// The unit of work that an admitted trigger with `request` launches.
    pub open spec fn job_for<U>(self, request: RequestView<U>) -> JobView<U> {
        JobView { command: self.command, request, timeout_ms: self.timeout_ms }
    }
}

/// One admitted render attempt: a copy of the command and of the timeout, and
/// the request it renders.
#[derive(Debug, PartialEq, Eq)]
pub struct StatusLineJob<U> {
    pub command: Vec<String>,
    pub request: StatusLineRequest<U>,
    pub timeout_ms: u64,
}

/// Mathematical content of a [`StatusLineJob`].
pub struct JobView<U> {
    pub command: Seq<Seq<char>>,
    pub request: RequestView<U>,
    pub timeout_ms: u64,
}

impl<U> View for StatusLineJob<U> {
    type V = JobView<U>;

    open spec fn view(&self) -> JobView<U> {
        JobView {
            command: self.command.deep_view(),
            request: self.request@,
            timeout_ms: self.timeout_ms,
        }
    }
}

/// Decides, trigger by trigger, whether a render attempt may start.
///
/// The manager is owned by the host loop. The attempt it admits runs elsewhere
/// and never touches the manager; the host calls
/// [`mark_complete`](Self::mark_complete) when it has seen the attempt's
/// result.
pub struct StatusLineManager {
    command: Vec<String>,
    update_interval_ms: u64,
    timeout_ms: u64,
    origin: Instant,
    last_started_at: Option<u128>,
    in_flight: bool,
}

impl View for StatusLineManager {
    type V = GateState;

    closed spec fn view(&self) -> GateState {
        GateState {
            command: self.command.deep_view(),
            update_interval_ms: self.update_interval_ms,
            timeout_ms: self.timeout_ms,
            last_started_at: match self.last_started_at {
                Some(at) => Some(at as nat),
                None => None,
            },
            in_flight: self.in_flight,
        }
    }
}

impl StatusLineManager {
    #[verifier::type_invariant]
    spec fn has_command(self) -> bool {
        self.command@.len() > 0
    }

    /// Makes the manager for `config`, or nothing if its command is empty: the
    /// feature is then off, and no attempt can ever start.
    pub fn new(config: StatusLineConfig) -> (manager: Option<Self>)
        ensures
            manager is None <==> config.command@.len() == 0,
            manager matches Some(m) ==> m@ == GateState::idle(
                config.command.deep_view(),
                config.update_interval_ms,
                config.timeout_ms,
            ),
    {
        if config.command.len() == 0 {
            return None;
        }
        Some(
            StatusLineManager {
                command: config.command,
                update_interval_ms: config.update_interval_ms,
                timeout_ms: config.timeout_ms,
                origin: clock_origin(),
                last_started_at: None,
                in_flight: false,
            },
        )
    }

    /// A trigger at the present moment of the manager's clock.
    ///
    /// While an attempt is in flight the trigger is dropped without the clock
    /// being read. Otherwise the outcome is that of
    /// [`maybe_request_at`](Self::maybe_request_at) for the time that was read;
    /// a gate that never started an attempt admits whatever the time is.
    pub fn maybe_request<U>(&mut self, request: StatusLineRequest<U>) -> (job: Option<
        StatusLineJob<U>,
    >)
        ensures
            exists|now: nat|
                {
                    &&& final(self)@ == old(self)@.trigger(now)
                    &&& job is Some <==> #[trigger] old(self)@.admits(now)
                },
            old(self)@.wf(),
            job matches Some(j) ==> j@ == old(self)@.job_for(request@),
            old(self)@.in_flight ==> job is None && final(self)@ == old(self)@,
            !old(self)@.in_flight && old(self)@.last_started_at is None ==> job is Some,
    {
        proof {
            use_type_invariant(&*self);
        }
        if self.in_flight {
            assert(!self@.admits(0));
            return None;
        }
        let now = nanos_since(&self.origin);
        let job = self.maybe_request_at(request, now);
        assert((job is Some) == old(self)@.admits(now as nat));
        job
    }

    /// A trigger at `now`, in nanoseconds on the manager's clock.
    ///
    /// The trigger is dropped, and the manager left as it was, while an attempt
    /// is in flight or while less than the debounce interval has passed since
    /// the last attempt started. Otherwise the manager raises its guard, records
    /// `now` as the start of the attempt and hands out the job to launch.
    ///
    /// `now` may count from any fixed origin, as long as every call counts from
    /// the same one; [`maybe_request`](Self::maybe_request) counts from the
    /// moment the manager was made.
    pub fn maybe_request_at<U>(
        &mut self,
        request: StatusLineRequest<U>,
        now: u128,
    ) -> (job: Option<StatusLineJob<U>>)
        ensures
            old(self)@.wf(),
            final(self)@ == old(self)@.trigger(now as nat),
            job is Some <==> old(self)@.admits(now as nat),
            job matches Some(j) ==> j@ == old(self)@.job_for(request@),
    {
        proof {
            use_type_invariant(&*self);
        }
        if self.in_flight {
            return None;
        }
        if let Some(last) = self.last_started_at {
            let elapsed: u128 = if now >= last {
                now - last
            } else {
                0
            };
            if elapsed < (self.update_interval_ms as u128) * NANOS_PER_MILLI {
                return None;
            }
        }
        self.in_flight = true;
        self.last_started_at = Some(now);
        let command = self.command.clone();
        assert(command@ == self.command@);
        Some(StatusLineJob { command, request, timeout_ms: self.timeout_ms })
    }

    /// Acknowledges the result of the attempt in flight and lowers the guard.
    /// With no attempt in flight nothing changes.
    pub fn mark_complete(&mut self)
        ensures
            old(self)@.wf(),
            final(self)@ == old(self)@.complete(),
            !old(self)@.in_flight ==> final(self)@ == old(self)@,
    {
        proof {
            use_type_invariant(&*self);
        }
        self.in_flight = false;
    }
}

} // verus!
