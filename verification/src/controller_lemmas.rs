//! What holds of the controller in every state and after every sequence of
//! operations.

use crate::controller::{
    ControllerView, CycleOutcome, CycleStep, ExecutionError, FeedUnavailableError, OrderRequest,
    OrderResult, RunState, Side,
};
use crate::volatility_lemmas::lemma_thresholds_enclose_mean;
use crate::volatility::DEFAULT_K;
use vstd::prelude::*;

verus! {

/// One operation on a controller, as a driver or the control surface may
/// perform it.
pub enum Operation {
    Start,
    Stop,
    Initialize(Seq<u64>),
    Poll(Result<u64, FeedUnavailableError>),
    Complete(Result<OrderResult, ExecutionError>),
}

impl ControllerView {
    /// The number of orders in flight: one or none.
    pub open spec fn orders_in_flight(self) -> nat {
        if self.in_flight is Some {
            1
        } else {
            0
        }
    }

    /// The state after `operation`.
    pub open spec fn apply(self, operation: Operation) -> ControllerView {
        match operation {
            Operation::Start => self.start(),
            Operation::Stop => self.stop(),
            Operation::Initialize(series) => self.initialize(series).0,
            Operation::Poll(reading) => self.poll(reading).0,
            Operation::Complete(result) => self.complete(result).0,
        }
    }

    /// Whether `operation` asks the driver to submit an order.
    pub open spec fn submits(self, operation: Operation) -> bool {
        operation matches Operation::Poll(reading) && self.poll(reading).1 is Submit
    }

    /// Whether `operation` reports on an order that was in flight.
    pub open spec fn completes(self, operation: Operation) -> bool {
        operation is Complete && self.in_flight is Some
    }

    /// The state after all of `operations`, the first one first.
    pub open spec fn run(self, operations: Seq<Operation>) -> ControllerView
        decreases operations.len(),
    {
        if operations.len() == 0 {
            self
        } else {
            self.run(operations.drop_last()).apply(operations.last())
        }
    }

    /// The number of orders that `operations` ask the driver to submit.
    pub open spec fn submitted(self, operations: Seq<Operation>) -> nat
        decreases operations.len(),
    {
        if operations.len() == 0 {
            0
        } else {
            let before = self.run(operations.drop_last());
            self.submitted(operations.drop_last()) + if before.submits(operations.last()) {
                1nat
            } else {
                0nat
            }
        }
    }

    /// The number of orders in flight that `operations` report on.
    pub open spec fn completed(self, operations: Seq<Operation>) -> nat
        decreases operations.len(),
    {
        if operations.len() == 0 {
            0
        } else {
            let before = self.run(operations.drop_last());
            self.completed(operations.drop_last()) + if before.completes(operations.last()) {
                1nat
            } else {
                0nat
            }
        }
    }
}

/// Starting twice is starting once, and leaves the controller running.
pub proof fn lemma_start_idempotent(controller: ControllerView)
    ensures
        controller.start().state == RunState::Running,
        controller.start().start() == controller.start(),
{
}

/// Stopping twice is stopping once, and leaves the controller stopped.
pub proof fn lemma_stop_idempotent(controller: ControllerView)
    ensures
        controller.stop().state == RunState::Stopped,
        controller.stop().stop() == controller.stop(),
{
}

/// Starting and stopping touch the run state alone, and the later of the two
/// decides it.
pub proof fn lemma_start_stop(controller: ControllerView)
    ensures
        controller.start().stop() == controller.stop(),
        controller.stop().start() == controller.start(),
        controller.start().thresholds == controller.thresholds,
        controller.start().in_flight == controller.in_flight,
        controller.stop().thresholds == controller.thresholds,
        controller.stop().in_flight == controller.in_flight,
{
}

/// A stopped controller is idle at every price: the tick changes nothing and
/// asks for no order.
pub proof fn lemma_stopped_is_idle(controller: ControllerView, price: u64)
    requires
        controller.state == RunState::Stopped,
    ensures
        controller.cycle(price) == (controller, CycleStep::Finished(CycleOutcome::Idle)),
        !controller.submits(Operation::Poll(Ok(price))),
{
}

/// A running controller with ordered thresholds and no order in flight asks
/// for exactly one of three things: a buy at the price where the price lies
/// below the low threshold, a sell at the price where it lies above the high
/// one, and nothing where it lies between them.
pub proof fn lemma_running_cycle(controller: ControllerView, price: u64)
    requires
        controller.wf(),
        controller.state == RunState::Running,
        controller.in_flight is None,
        controller.thresholds is Some,
    ensures
        price < controller.thresholds->0.low <==> controller.cycle(price).1 == CycleStep::Submit(
            OrderRequest { side: Side::Buy, reference_price: price },
        ),
        price > controller.thresholds->0.high <==> controller.cycle(price).1 == CycleStep::Submit(
            OrderRequest { side: Side::Sell, reference_price: price },
        ),
        controller.thresholds->0.low <= price <= controller.thresholds->0.high
            <==> controller.cycle(price).1 == CycleStep::Finished(CycleOutcome::NoSignal),
        controller.cycle(price).1 is Submit ==> controller.cycle(price).0.in_flight == Some(
            controller.cycle(price).1->Submit_0,
        ),
        controller.cycle(price).1 is Finished ==> controller.cycle(price).0 == controller,
{
}

/// Every operation keeps the thresholds ordered.
pub proof fn lemma_apply_keeps_wf(controller: ControllerView, operation: Operation)
    requires
        controller.wf(),
    ensures
        controller.apply(operation).wf(),
{
    if let Operation::Initialize(series) = operation {
        if controller.thresholds is None && series.len() > 0 {
            lemma_thresholds_enclose_mean(series, DEFAULT_K);
        }
    }
}

/// Whatever operations are performed, and in whatever order, the orders in
/// flight are those that were in flight before, plus those that the
/// operations asked for, less those that they reported on; and they are never
/// more than one. The thresholds stay ordered.
pub proof fn lemma_at_most_one_order_in_flight(
    controller: ControllerView,
    operations: Seq<Operation>,
)
    requires
        controller.wf(),
    ensures
        controller.run(operations).wf(),
        controller.run(operations).orders_in_flight() == controller.orders_in_flight()
            + controller.submitted(operations) - controller.completed(operations),
        controller.run(operations).orders_in_flight() <= 1,
    decreases operations.len(),
{
    if operations.len() > 0 {
        lemma_at_most_one_order_in_flight(controller, operations.drop_last());
        lemma_apply_keeps_wf(controller.run(operations.drop_last()), operations.last());
    }
}

/// A controller asks for an order only while none is in flight.
pub proof fn lemma_submit_needs_none_in_flight(controller: ControllerView, operation: Operation)
    requires
        controller.submits(operation),
    ensures
        controller.in_flight is None,
        controller.state == RunState::Running,
        controller.apply(operation).in_flight is Some,
{
}

/// A failed order leaves the controller as it was before the tick that asked
/// for the order, so every later tick is decided as if the order had never
/// been asked for.
pub proof fn lemma_failed_order_changes_nothing(
    controller: ControllerView,
    price: u64,
    error: ExecutionError,
    next_price: u64,
)
    requires
        controller.cycle(price).1 is Submit,
    ensures
        controller.cycle(price).0.complete(Err(error)).0 == controller,
        controller.cycle(price).0.complete(Err(error)).1 == Some(
            CycleOutcome::Failed { request: controller.cycle(price).1->Submit_0, error },
        ),
        controller.cycle(price).0.complete(Err(error)).0.cycle(next_price) == controller.cycle(
            next_price,
        ),
{
}

/// Whatever the report on an order says, the run state and the thresholds
/// stay as they are and no order is in flight afterwards.
pub proof fn lemma_complete_keeps_state(
    controller: ControllerView,
    result: Result<OrderResult, ExecutionError>,
)
    ensures
        controller.complete(result).0.state == controller.state,
        controller.complete(result).0.thresholds == controller.thresholds,
        controller.complete(result).0.in_flight is None,
{
}

} // verus!
