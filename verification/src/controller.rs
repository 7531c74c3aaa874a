//! The trading controller: the run/stop flag, the thresholds, and the
//! decision that each polling tick calls for.
//!
//! The controller never talks to the price feed or to the settlement backend
//! itself. A driver hands it what the feed returned, performs the submission
//! it asks for, and reports back how that went. Between the request and the
//! report the order is in flight, and the controller asks for no other.

use crate::volatility::{
    compute_stats, compute_thresholds, series_thresholds, ThresholdPair, DEFAULT_K,
};
use vstd::prelude::*;

verus! {

/// The pause between the end of one cycle and the start of the next, in
/// seconds. The driver pauses whether the controller runs or not.
pub const POLL_INTERVAL_SECONDS: u64 = 60;

/// Whether polling ticks act on price signals.
#[derive(Clone, Copy, Debug, PartialEq, Eq, Structural)]
pub enum RunState {
    Stopped,
    Running,
}

/// The side of an order.
#[derive(Clone, Copy, Debug, PartialEq, Eq, Structural)]
pub enum Side {
    Buy,
    Sell,
}

/// An order to submit: its side, and the price in ticks that triggered it.
#[derive(Clone, Copy, Debug, PartialEq, Eq, Structural)]
pub struct OrderRequest {
    pub side: Side,
    pub reference_price: u64,
}

/// What the settlement backend confirms of an order it carried out.
#[derive(Debug, PartialEq, Eq)]
pub struct OrderResult {
    pub confirmation_id: String,
}

/// Why the settlement backend did not carry out an order.
#[derive(Debug, PartialEq, Eq)]
pub struct ExecutionError {
    pub reason: String,
}

/// The price feed gave no price.
#[derive(Clone, Copy, Debug, PartialEq, Eq, Structural)]
pub struct FeedUnavailableError;

/// Why a controller did not take a price series.
#[derive(Clone, Copy, Debug, PartialEq, Eq, Structural)]
pub enum InitializeError {
    /// The series holds no price.
    EmptySeries,
    /// The controller holds thresholds already.
    AlreadyInitialized,
}

/// How a cycle ended.
#[derive(Debug, PartialEq, Eq)]
pub enum CycleOutcome {
    /// The controller is stopped.
    Idle,
    /// The price crossed neither threshold.
    NoSignal,
    /// The order was submitted and the backend confirmed it.
    Executed { request: OrderRequest, result: OrderResult },
    /// The order was submitted and the backend did not carry it out.
    Failed { request: OrderRequest, error: ExecutionError },
    /// The feed gave no price, so the cycle was skipped.
    FeedUnavailable(FeedUnavailableError),
    /// An earlier order is still in flight, so the cycle was skipped.
    OrderPending,
}

/// What a tick asks of the driver.
#[derive(Debug, PartialEq, Eq)]
pub enum CycleStep {
    /// The cycle is over.
    Finished(CycleOutcome),
    /// The driver submits this order and reports through
    /// [`TradingController::complete_order`].
    Submit(OrderRequest),
}

impl ThresholdPair {
    /// The side of the order that `price` calls for, if it calls for one.
    pub open spec fn signal(self, price: u64) -> Option<Side> {
        if price < self.low {
            Some(Side::Buy)
        } else if price > self.high {
            Some(Side::Sell)
        } else {
            None
        }
    }

    /// Tells whether `price` lies below the low threshold, above the high
    /// one, or crosses neither.
    pub fn classify(&self, price: u64) -> (side: Option<Side>)
        ensures
            side == self.signal(price),
    {
        if (price as i128) < self.low {
            Some(Side::Buy)
        } else if (price as i128) > self.high {
            Some(Side::Sell)
        } else {
            None
        }
    }
}

/// The state of a controller.
pub struct ControllerView {
    pub state: RunState,
    pub thresholds: Option<ThresholdPair>,
    pub in_flight: Option<OrderRequest>,
}

impl ControllerView {
    /// A controller as it is made: stopped, without thresholds, with no order
    /// in flight.
    pub open spec fn initial() -> ControllerView {
        ControllerView { state: RunState::Stopped, thresholds: None, in_flight: None }
    }

    /// The thresholds, where there are any, are ordered.
    pub open spec fn wf(self) -> bool {
        self.thresholds matches Some(thresholds) ==> thresholds.ordered()
    }

    /// The state after `start`.
    pub open spec fn start(self) -> ControllerView {
        ControllerView { state: RunState::Running, ..self }
    }

    /// The state after `stop`.
    pub open spec fn stop(self) -> ControllerView {
        ControllerView { state: RunState::Stopped, ..self }
    }

    /// The state after `initialize` with `series`, and what it returns.
    ///
    /// A controller takes a series once. One that holds thresholds refuses
    /// every series, an empty one too.
    pub open spec fn initialize(self, series: Seq<u64>) -> (
        ControllerView,
        Result<(), InitializeError>,
    ) {
        if self.thresholds is Some {
            (self, Err(InitializeError::AlreadyInitialized))
        } else if series.len() == 0 {
            (self, Err(InitializeError::EmptySeries))
        } else {
            (
                ControllerView {
                    thresholds: Some(series_thresholds(series, DEFAULT_K as int)),
                    ..self
                },
                Ok(()),
            )
        }
    }

    /// The side of the order that `price` calls for. Without thresholds no
    /// price calls for one.
    pub open spec fn signal(self, price: u64) -> Option<Side> {
        match self.thresholds {
            Some(thresholds) => thresholds.signal(price),
            None => None,
        }
    }

    /// The state after a tick at `price`, and what the tick asks of the
    /// driver.
    pub open spec fn cycle(self, price: u64) -> (ControllerView, CycleStep) {
        if self.state == RunState::Stopped {
            (self, CycleStep::Finished(CycleOutcome::Idle))
        } else if self.in_flight is Some {
            (self, CycleStep::Finished(CycleOutcome::OrderPending))
        } else {
            match self.signal(price) {
                Some(side) => {
                    let request = OrderRequest { side, reference_price: price };
                    (ControllerView { in_flight: Some(request), ..self }, CycleStep::Submit(request))
                },
                None => (self, CycleStep::Finished(CycleOutcome::NoSignal)),
            }
        }
    }

    /// The state after a tick for which the feed gave `reading`, and what the
    /// tick asks of the driver.
    pub open spec fn poll(self, reading: Result<u64, FeedUnavailableError>) -> (
        ControllerView,
        CycleStep,
    ) {
        match reading {
            Ok(price) => self.cycle(price),
            Err(error) => (self, CycleStep::Finished(CycleOutcome::FeedUnavailable(error))),
        }
    }

    /// The state after the driver reported `result`, and the outcome of the
    /// cycle that asked for the order. There is no outcome where no order was
    /// in flight.
    pub open spec fn complete(self, result: Result<OrderResult, ExecutionError>) -> (
        ControllerView,
        Option<CycleOutcome>,
    ) {
        match self.in_flight {
            Some(request) => (
                ControllerView { in_flight: None, ..self },
                Some(
                    match result {
                        Ok(result) => CycleOutcome::Executed { request, result },
                        Err(error) => CycleOutcome::Failed { request, error },
                    },
                ),
            ),
            None => (self, None),
        }
    }
}

/// Owns the run/stop flag and the thresholds, and decides what each polling
/// tick does.
pub struct TradingController {
    state: RunState,
    thresholds: Option<ThresholdPair>,
    in_flight: Option<OrderRequest>,
}

impl View for TradingController {
    type V = ControllerView;

    closed spec fn view(&self) -> ControllerView {
        ControllerView {
            state: self.state,
            thresholds: self.thresholds,
            in_flight: self.in_flight,
        }
    }
}

impl TradingController {
    #[verifier::type_invariant]
    spec fn thresholds_ordered(self) -> bool {
        self@.wf()
    }

    /// A stopped controller without thresholds.
    pub fn new() -> (controller: TradingController)
        ensures
            controller@ == ControllerView::initial(),
            controller@.wf(),
    {
        TradingController { state: RunState::Stopped, thresholds: None, in_flight: None }
    }

    /// Lets the polling ticks act. Starting a running controller changes
    /// nothing.
    pub fn start(&mut self)
        ensures
            final(self)@ == old(self)@.start(),
            final(self)@.state == RunState::Running,
            final(self)@.wf(),
    {
        proof {
            use_type_invariant(&*self);
        }
        self.state = RunState::Running;
    }

    /// Keeps the polling ticks from acting. Stopping a stopped controller
    /// changes nothing. An order in flight stays in flight.
    pub fn stop(&mut self)
        ensures
            final(self)@ == old(self)@.stop(),
            final(self)@.state == RunState::Stopped,
            final(self)@.wf(),
    {
        proof {
            use_type_invariant(&*self);
        }
        self.state = RunState::Stopped;
    }

    /// The run state.
    pub fn status(&self) -> (state: RunState)
        ensures
            state == self@.state,
    {
        self.state
    }

    /// The thresholds, once a series was taken.
    pub fn thresholds(&self) -> (thresholds: Option<ThresholdPair>)
        ensures
            thresholds == self@.thresholds,
            self@.wf(),
    {
        proof {
            use_type_invariant(self);
        }
        self.thresholds
    }

    /// The order that the driver was asked to submit and has not reported on.
    pub fn order_in_flight(&self) -> (request: Option<OrderRequest>)
        ensures
            request == self@.in_flight,
    {
        self.in_flight
    }

    /// Derives the thresholds from `series` and keeps them for good.
    ///
    /// Fails, and changes nothing, where the controller holds thresholds
    /// already or, failing that, where the series is empty.
    pub fn initialize(&mut self, series: &[u64]) -> (result: Result<(), InitializeError>)
        ensures
            (final(self)@, result) == old(self)@.initialize(series@),
            result is Ok <==> old(self)@.thresholds is None && series@.len() > 0,
            final(self)@.wf(),
    {
        proof {
            use_type_invariant(&*self);
        }
        if self.thresholds.is_some() {
            return Err(InitializeError::AlreadyInitialized);
        }
        match compute_stats(series) {
            Err(_) => Err(InitializeError::EmptySeries),
            Ok(stats) => {
                let thresholds: ThresholdPair = compute_thresholds(&stats, DEFAULT_K);
                self.thresholds = Some(thresholds);
                Ok(())
            },
        }
    }

    /// One polling tick at `current_price`.
    ///
    /// A stopped controller is idle. A running one that waits for the report
    /// on an earlier order skips the tick. Otherwise a price below the low
    /// threshold asks for a buy at that price, one above the high threshold
    /// for a sell at that price, and any other price for nothing. An order
    /// that is asked for is in flight from then on.
    pub fn run_cycle(&mut self, current_price: u64) -> (step: CycleStep)
        ensures
            (final(self)@, step) == old(self)@.cycle(current_price),
            final(self)@.wf(),
            old(self)@.state == RunState::Stopped ==> step == CycleStep::Finished(
                CycleOutcome::Idle,
            ) && final(self)@ == old(self)@,
            step is Submit <==> final(self)@.in_flight is Some && old(self)@.in_flight is None,
            step is Finished ==> final(self)@ == old(self)@,
            old(self)@.state == RunState::Running && old(self)@.in_flight is None
                && old(self)@.thresholds is Some ==> {
                let thresholds = old(self)@.thresholds->0;
                &&& current_price < thresholds.low ==> step == CycleStep::Submit(
                    OrderRequest { side: Side::Buy, reference_price: current_price },
                )
                &&& current_price > thresholds.high ==> step == CycleStep::Submit(
                    OrderRequest { side: Side::Sell, reference_price: current_price },
                )
                &&& thresholds.low <= current_price <= thresholds.high ==> step
                    == CycleStep::Finished(CycleOutcome::NoSignal)
            },
    {
        proof {
            use_type_invariant(&*self);
        }
        match self.state {
            RunState::Stopped => {
                return CycleStep::Finished(CycleOutcome::Idle);
            },
            RunState::Running => {},
        }
        if self.in_flight.is_some() {
            return CycleStep::Finished(CycleOutcome::OrderPending);
        }
        let side: Option<Side> = match &self.thresholds {
            Some(thresholds) => thresholds.classify(current_price),
            None => None,
        };
        match side {
            Some(side) => {
                let request = OrderRequest { side, reference_price: current_price };
                self.in_flight = Some(request);
                CycleStep::Submit(request)
            },
            None => CycleStep::Finished(CycleOutcome::NoSignal),
        }
    }

    /// One polling tick for which the feed returned `reading`.
    ///
    /// A failure of the feed ends the cycle and changes nothing. A price is
    /// handed to [`TradingController::run_cycle`].
    pub fn poll(&mut self, reading: Result<u64, FeedUnavailableError>) -> (step: CycleStep)
        ensures
            (final(self)@, step) == old(self)@.poll(reading),
            final(self)@.wf(),
            reading matches Err(error) ==> step == CycleStep::Finished(
                CycleOutcome::FeedUnavailable(error),
            ) && final(self)@ == old(self)@,
    {
        proof {
            use_type_invariant(&*self);
        }
        match reading {
            Ok(price) => self.run_cycle(price),
            Err(error) => CycleStep::Finished(CycleOutcome::FeedUnavailable(error)),
        }
    }

    /// Takes the report on the order in flight, whatever it says, and ends
    /// the cycle that asked for the order.
    ///
    /// The run state and the thresholds stay as they are: a failed order
    /// stops nothing. Where no order was in flight the report is dropped and
    /// there is no outcome.
    pub fn complete_order(&mut self, result: Result<OrderResult, ExecutionError>) -> (outcome:
        Option<CycleOutcome>)
        ensures
            (final(self)@, outcome) == old(self)@.complete(result),
            final(self)@.wf(),
            final(self)@.in_flight is None,
            outcome is Some <==> old(self)@.in_flight is Some,
    {
        proof {
            use_type_invariant(&*self);
        }
        match self.in_flight {
            Some(request) => {
                self.in_flight = None;
                match result {
                    Ok(result) => Some(CycleOutcome::Executed { request, result }),
                    Err(error) => Some(CycleOutcome::Failed { request, error }),
                }
            },
            None => None,
        }
    }
}

} // verus!
