//! The polling service: configuration, alternation state and the decisions of
//! the poll cycle.
//!
//! The service does no network call and never sleeps. It is told what has
//! happened and answers with what to do next; whoever drives it performs the
//! call or the sleep and reports back. The service keeps track of what it is
//! waiting for, so that a report that does not answer its last request halts
//! it instead of leading it astray.

use crate::amount::Amount;
use core::time::Duration;
use vstd::prelude::*;

verus! {

/// The span of time that `Duration::from_secs` builds from a number of whole
/// seconds.
pub uninterp spec fn duration_of_secs(secs: u64) -> Duration;

/// `core::time::Duration::from_secs`: the result is the duration of exactly
/// `secs` whole seconds, the same for the same argument.
pub assume_specification[ Duration::from_secs ](secs: u64) -> (d: Duration)
    ensures
        d == duration_of_secs(secs),
;

/// Seconds between two polls when the configuration names no interval.
pub const DEFAULT_TIMEOUT_SECS: u64 = 3;

/// The poll interval used when the configuration names none: three seconds.
pub fn default_timeout() -> (d: Duration)
    ensures
        d == duration_of_secs(DEFAULT_TIMEOUT_SECS),
{
    Duration::from_secs(DEFAULT_TIMEOUT_SECS)
}

/// What the service is waiting for.
#[derive(Clone, Copy, Debug, PartialEq, Eq, Structural)]
pub enum Phase {
    /// For the next poll to be due: the state at the start and during the
    /// sleep between two polls.
    Waiting,
    /// For the balance that it has asked for.
    Polling,
    /// For the outcome of the withdrawal that it has asked for.
    Withdrawing,
    /// For nothing: it has halted and stays so.
    Halted,
}

/// What the driver reports to the service.
#[derive(Clone, Copy, Debug)]
pub enum Event {
    /// The service has been started, or the sleep between two polls is over.
    PollDue,
    /// The exchange has reported this balance.
    Balance(Amount),
    /// The exchange has accepted the withdrawal.
    Withdrawn,
    /// Reading the balance or withdrawing has failed.
    Failed,
    /// The driver has been asked to stop.
    StopRequested,
}

/// What the service asks the driver to do next.
#[derive(Debug)]
pub enum Action {
    /// Read the balance and report it.
    GetBalance,
    /// Withdraw this amount to this address and report the outcome.
    Withdraw { amount: Amount, address: String },
    /// Sleep for this long, then report that a poll is due.
    Sleep(Duration),
    /// Stop: nothing more is to be done.
    Halt,
}

/// The mathematical value of an [`Action`].
pub enum ActionView {
    GetBalance,
    Withdraw { amount: Amount, address: Seq<char> },
    Sleep(Duration),
    Halt,
}

impl View for Action {
    type V = ActionView;

    open spec fn view(&self) -> ActionView {
        match self {
            Action::GetBalance => ActionView::GetBalance,
            Action::Withdraw { amount, address } => ActionView::Withdraw {
                amount: *amount,
                address: address@,
            },
            Action::Sleep(interval) => ActionView::Sleep(*interval),
            Action::Halt => ActionView::Halt,
        }
    }
}

/// The service: what it was configured with, which of the two addresses the
/// next withdrawal goes to, and what it is waiting for. The configuration is
/// set once, by `new`; the alternation changes with every accepted
/// withdrawal and with nothing else.
pub struct Service {
    timeout: Duration,
    threshold: Amount,
    address_1: String,
    address_2: String,
    next_is_address_1: bool,
    phase: Phase,
}

/// The mathematical value of a [`Service`].
pub struct ServiceView {
    pub timeout: Duration,
    pub threshold: Amount,
    pub address_1: Seq<char>,
    pub address_2: Seq<char>,
    pub next_is_address_1: bool,
    pub phase: Phase,
}

impl ServiceView {
    /// The address that the next withdrawal goes to.
    pub open spec fn target(self) -> Seq<char> {
        if self.next_is_address_1 {
            self.address_1
        } else {
            self.address_2
        }
    }

    /// The same service in another phase.
    pub open spec fn in_phase(self, phase: Phase) -> ServiceView {
        ServiceView { phase, ..self }
    }

    /// The service after the event, and what it asks for.
    ///
    /// While it waits and a poll is due, it asks for the balance. A balance
    /// that it has asked for is withdrawn whole to the address that is next
    /// where it is strictly above the threshold, and leads to the sleep
    /// where it is not. The acceptance of a withdrawal that it has asked for
    /// flips the alternation and leads to the sleep. Everything else halts
    /// it and leaves the alternation as it was: a failure, a request to
    /// stop, a report that does not answer its last request, and any report
    /// after it has halted.
    pub open spec fn step(self, event: Event) -> (ServiceView, ActionView) {
        match (self.phase, event) {
            (Phase::Waiting, Event::PollDue) => (
                self.in_phase(Phase::Polling),
                ActionView::GetBalance,
            ),
            (Phase::Polling, Event::Balance(balance)) => if balance.greater_than(self.threshold) {
                (
                    self.in_phase(Phase::Withdrawing),
                    ActionView::Withdraw { amount: balance, address: self.target() },
                )
            } else {
                (self.in_phase(Phase::Waiting), ActionView::Sleep(self.timeout))
            },
            (Phase::Withdrawing, Event::Withdrawn) => (
                ServiceView {
                    next_is_address_1: !self.next_is_address_1,
                    phase: Phase::Waiting,
                    ..self
                },
                ActionView::Sleep(self.timeout),
            ),
            _ => (self.in_phase(Phase::Halted), ActionView::Halt),
        }
    }

    /// The service after a run of events, and what it asked for after each.
    pub open spec fn run(self, events: Seq<Event>) -> (ServiceView, Seq<ActionView>)
        decreases events.len(),
    {
        if events.len() == 0 {
            (self, Seq::empty())
        } else {
            let (next, action) = self.step(events[0]);
            let (last, actions) = next.run(events.drop_first());
            (last, seq![action] + actions)
        }
    }

    /// One poll cycle in which nothing fails, from the wait before it to the
    /// wait after it: the service after the cycle, and the withdrawal that
    /// it issued, if any.
    pub open spec fn cycle(self, balance: Amount) -> (ServiceView, Option<(Amount, Seq<char>)>) {
        let polling = self.step(Event::PollDue).0;
        match polling.step(Event::Balance(balance)) {
            (withdrawing, ActionView::Withdraw { amount, address }) => (
                withdrawing.step(Event::Withdrawn).0,
                Some((amount, address)),
            ),
            (waiting, _) => (waiting, None),
        }
    }

    /// The withdrawals that the service issues, in order, over the poll
    /// cycles that read the given balances, where nothing fails.
    pub open spec fn withdrawals(self, balances: Seq<Amount>) -> Seq<(Amount, Seq<char>)>
        decreases balances.len(),
    {
        if balances.len() == 0 {
            Seq::empty()
        } else {
            let (next, issued) = self.cycle(balances[0]);
            let rest = next.withdrawals(balances.drop_first());
            match issued {
                Some(w) => seq![w] + rest,
                None => rest,
            }
        }
    }

    /// The address that a withdrawal goes to after `n` more withdrawals have
    /// been accepted.
    pub open spec fn nth_target(self, n: nat) -> Seq<char> {
        if (n % 2 == 0) == self.next_is_address_1 {
            self.address_1
        } else {
            self.address_2
        }
    }

    /// How many acceptances stand between the service and its next request
    /// for a withdrawal: one while it waits for the outcome of a withdrawal,
    /// else none.
    pub open spec fn pending(self) -> nat {
        if self.phase is Withdrawing {
            1
        } else {
            0
        }
    }
}

/// The withdrawals among a run of actions, in order: amount and address.
pub open spec fn issued(actions: Seq<ActionView>) -> Seq<(Amount, Seq<char>)>
    decreases actions.len(),
{
    if actions.len() == 0 {
        Seq::empty()
    } else {
        let rest = issued(actions.drop_first());
        match actions[0] {
            ActionView::Withdraw { amount, address } => seq![(amount, address)] + rest,
            _ => rest,
        }
    }
}

impl View for Service {
    type V = ServiceView;

    closed spec fn view(&self) -> ServiceView {
        ServiceView {
            timeout: self.timeout,
            threshold: self.threshold,
            address_1: self.address_1@,
            address_2: self.address_2@,
            next_is_address_1: self.next_is_address_1,
            phase: self.phase,
        }
    }
}

impl Service {
    /// A service that has not withdrawn yet and waits for its first poll:
    /// the first withdrawal goes to `address_1`.
    pub fn new(
        timeout: Duration,
        threshold: Amount,
        address_1: String,
        address_2: String,
    ) -> (service: Service)
        ensures
            service@ == (ServiceView {
                timeout,
                threshold,
                address_1: address_1@,
                address_2: address_2@,
                next_is_address_1: true,
                phase: Phase::Waiting,
            }),
    {
        Service {
            timeout,
            threshold,
            address_1,
            address_2,
            next_is_address_1: true,
            phase: Phase::Waiting,
        }
    }

    /// The time to sleep between two polls.
    pub fn timeout(&self) -> (timeout: Duration)
        ensures
            timeout == self@.timeout,
    {
        self.timeout
    }

    /// The balance above which a withdrawal is issued.
    pub fn threshold(&self) -> (threshold: Amount)
        ensures
            threshold == self@.threshold,
    {
        self.threshold
    }

    /// The address of the first, third, fifth withdrawal and so on.
    pub fn address_1(&self) -> (address: &String)
        ensures
            address@ == self@.address_1,
    {
        &self.address_1
    }

    /// The address of the second, fourth, sixth withdrawal and so on.
    pub fn address_2(&self) -> (address: &String)
        ensures
            address@ == self@.address_2,
    {
        &self.address_2
    }

    /// Whether the next withdrawal goes to `address_1`.
    pub fn next_is_address_1(&self) -> (next: bool)
        ensures
            next == self@.next_is_address_1,
    {
        self.next_is_address_1
    }

    /// What the service is waiting for.
    pub fn phase(&self) -> (phase: Phase)
        ensures
            phase == self@.phase,
    {
        self.phase
    }

    /// Takes note of what has happened and says what to do next.
    pub fn step(&mut self, event: Event) -> (action: Action)
        ensures
            (final(self)@, action@) == old(self)@.step(event),
    {
        match (self.phase, event) {
            (Phase::Waiting, Event::PollDue) => {
                self.phase = Phase::Polling;
                Action::GetBalance
            },
            (Phase::Polling, Event::Balance(balance)) => {
                if balance.exceeds(&self.threshold) {
                    let address = if self.next_is_address_1 {
                        self.address_1.clone()
                    } else {
                        self.address_2.clone()
                    };
                    self.phase = Phase::Withdrawing;
                    Action::Withdraw { amount: balance, address }
                } else {
                    self.phase = Phase::Waiting;
                    Action::Sleep(self.timeout)
                }
            },
            (Phase::Withdrawing, Event::Withdrawn) => {
                self.next_is_address_1 = !self.next_is_address_1;
                self.phase = Phase::Waiting;
                Action::Sleep(self.timeout)
            },
            _ => {
                self.phase = Phase::Halted;
                Action::Halt
            },
        }
    }
}

/// A withdrawal is asked for in one case only: the service has asked for the
/// balance, and the balance that is reported is strictly above the
/// threshold. The withdrawal is then of the whole balance, to the address
/// that is next.
pub proof fn lemma_withdrawal_needs_excess(service: ServiceView, event: Event)
    ensures
        service.step(event).1 is Withdraw <==> service.phase is Polling && (event
            matches Event::Balance(balance) && balance.greater_than(service.threshold)),
        service.step(event).1 matches ActionView::Withdraw { amount, address } ==> event
            == Event::Balance(amount) && address == service.target(),
{
}

/// The threshold is strict: a balance that the service has asked for leads
/// to a withdrawal where it is strictly above the threshold and to the sleep
/// where it is not. A balance of the threshold's own rank, the threshold
/// itself among them, leads to the sleep.
pub proof fn lemma_threshold_is_strict(service: ServiceView, balance: Amount)
    requires
        service.phase is Polling,
    ensures
        balance.greater_than(service.threshold) ==> service.step(Event::Balance(balance)).1 == (
        ActionView::Withdraw { amount: balance, address: service.target() }),
        !balance.greater_than(service.threshold) ==> service.step(Event::Balance(balance)).1
            == ActionView::Sleep(service.timeout),
        balance.rank() == service.threshold.rank() || balance == service.threshold
            ==> service.step(Event::Balance(balance)).1 == ActionView::Sleep(service.timeout),
{
}

/// The alternation changes in one case only: the service has asked for a
/// withdrawal, and the withdrawal is reported as accepted. The
/// configuration never changes.
pub proof fn lemma_only_acceptance_flips(service: ServiceView, event: Event)
    ensures
        service.step(event).0.next_is_address_1 != service.next_is_address_1
            <==> service.phase is Withdrawing && event is Withdrawn,
        service.step(event).0.timeout == service.timeout,
        service.step(event).0.threshold == service.threshold,
        service.step(event).0.address_1 == service.address_1,
        service.step(event).0.address_2 == service.address_2,
{
}

/// A service that has halted stays halted and asks for nothing but to halt:
/// after a failure nothing is retried.
pub proof fn lemma_halt_is_final(service: ServiceView, events: Seq<Event>)
    requires
        service.phase is Halted,
    ensures
        service.run(events).0 == service,
        issued(service.run(events).1).len() == 0,
        forall|i: int|
            0 <= i < service.run(events).1.len() ==> #[trigger] service.run(events).1[i]
                == ActionView::Halt,
        service.run(events).1.len() == events.len(),
    decreases events.len(),
{
    if events.len() > 0 {
        let (next, action) = service.step(events[0]);
        assert(next == service);
        lemma_halt_is_final(service, events.drop_first());
        let rest = service.run(events.drop_first()).1;
        let all = service.run(events).1;
        assert(all == seq![action] + rest);
        assert(all.drop_first() =~= rest);
        assert forall|i: int| 0 <= i < all.len() implies #[trigger] all[i] == ActionView::Halt by {
            if i > 0 {
                assert(all[i] == rest[i - 1]);
            }
        }
    }
}

/// Whatever is reported to the service, in whatever order, the withdrawals
/// that it asks for alternate between the two addresses, and each is of an
/// amount strictly above the threshold: the withdrawal that follows `i`
/// earlier ones goes to the address that is next at the start where `i` is
/// even, and to the other one where `i` is odd (the other way round where
/// the service starts while it waits for the outcome of a withdrawal).
pub proof fn lemma_withdrawals_alternate(service: ServiceView, events: Seq<Event>)
    ensures
        forall|i: int|
            0 <= i < issued(service.run(events).1).len() ==> {
                let w = #[trigger] issued(service.run(events).1)[i];
                &&& w.1 == service.nth_target(i as nat + service.pending())
                &&& w.0.greater_than(service.threshold)
            },
    decreases events.len(),
{
    if events.len() > 0 {
        let (next, action) = service.step(events[0]);
        let tail = events.drop_first();
        let rest = next.run(tail).1;
        let all = service.run(events).1;
        lemma_withdrawals_alternate(next, tail);
        lemma_only_acceptance_flips(service, events[0]);
        if next.phase is Halted {
            lemma_halt_is_final(next, tail);
        }
        assert(all == seq![action] + rest);
        assert(all.drop_first() =~= rest);
        assert forall|i: int| 0 <= i < issued(all).len() implies {
            let w = #[trigger] issued(all)[i];
            &&& w.1 == service.nth_target(i as nat + service.pending())
            &&& w.0.greater_than(service.threshold)
        } by {
            match action {
                ActionView::Withdraw { amount, address } => {
                    if i > 0 {
                        assert(issued(all)[i] == issued(rest)[i - 1]);
                    }
                },
                _ => {
                    assert(issued(all)[i] == issued(rest)[i]);
                },
            }
        }
    }
}

/// From the start, whatever is reported, the service sends its withdrawals
/// to `address_1`, `address_2`, `address_1` and so on: no two in a row go to
/// the same of the two.
pub proof fn lemma_withdrawals_alternate_from_the_start(
    timeout: Duration,
    threshold: Amount,
    address_1: Seq<char>,
    address_2: Seq<char>,
    events: Seq<Event>,
)
    ensures
        ({
            let service = ServiceView {
                timeout,
                threshold,
                address_1,
                address_2,
                next_is_address_1: true,
                phase: Phase::Waiting,
            };
            forall|i: int|
                0 <= i < issued(service.run(events).1).len() ==> (#[trigger] issued(
                    service.run(events).1,
                )[i]).1 == (if i % 2 == 0 {
                    address_1
                } else {
                    address_2
                })
        }),
{
    let service = ServiceView {
        timeout,
        threshold,
        address_1,
        address_2,
        next_is_address_1: true,
        phase: Phase::Waiting,
    };
    lemma_withdrawals_alternate(service, events);
}

/// A poll cycle that starts from the wait ends in the wait. It withdraws
/// exactly where the balance is strictly above the threshold, then the
/// whole balance to the address that is next, and only a cycle that
/// withdraws changes which address is next.
pub proof fn lemma_cycle(service: ServiceView, balance: Amount)
    requires
        service.phase is Waiting,
    ensures
        service.cycle(balance).0.phase is Waiting,
        service.cycle(balance).1 is Some <==> balance.greater_than(service.threshold),
        balance.rank() == service.threshold.rank() || balance == service.threshold
            ==> service.cycle(balance).1 is None,
        service.cycle(balance).1 matches Some(w) ==> w == (balance, service.target())
            && service.cycle(balance).0 == (ServiceView {
            next_is_address_1: !service.next_is_address_1,
            ..service
        }),
        service.cycle(balance).1 is None ==> service.cycle(balance).0 == service,
{
}

/// Where every balance is strictly above the threshold, every poll cycle
/// withdraws, each the balance that it read, and a service that has not
/// withdrawn yet sends them to `address_1`, `address_2`, `address_1` and so
/// on.
pub proof fn lemma_triggered_withdrawals_alternate(service: ServiceView, balances: Seq<Amount>)
    requires
        service.phase is Waiting,
        forall|i: int|
            0 <= i < balances.len() ==> (#[trigger] balances[i]).greater_than(service.threshold),
    ensures
        service.withdrawals(balances).len() == balances.len(),
        forall|i: int|
            0 <= i < balances.len() ==> (#[trigger] service.withdrawals(balances)[i])
                == (balances[i], service.nth_target(i as nat)),
        service.next_is_address_1 ==> forall|i: int|
            0 <= i < balances.len() ==> (#[trigger] service.withdrawals(balances)[i]).1 == (if i
                % 2 == 0 {
                service.address_1
            } else {
                service.address_2
            }),
    decreases balances.len(),
{
    if balances.len() > 0 {
        let (next, first) = service.cycle(balances[0]);
        let tail = balances.drop_first();
        let rest = next.withdrawals(tail);
        lemma_cycle(service, balances[0]);
        assert(balances[0].greater_than(service.threshold));
        assert forall|i: int| 0 <= i < tail.len() implies (#[trigger] tail[i]).greater_than(
            next.threshold,
        ) by {
            assert(tail[i] == balances[i + 1]);
        }
        lemma_triggered_withdrawals_alternate(next, tail);
        let all = service.withdrawals(balances);
        assert forall|i: int| 0 <= i < balances.len() implies (#[trigger] all[i]) == (
            balances[i],
            service.nth_target(i as nat),
        ) by {
            if i > 0 {
                assert(all[i] == rest[i - 1]);
                assert(tail[i - 1] == balances[i]);
            }
        }
    }
}

/// The number of withdrawals is the number of balances that are strictly
/// above the threshold.
pub proof fn lemma_withdrawals_count(service: ServiceView, balances: Seq<Amount>)
    requires
        service.phase is Waiting,
    ensures
        service.withdrawals(balances).len() == balances.filter(
            |b: Amount| b.greater_than(service.threshold),
        ).len(),
    decreases balances.len(),
{
    let above = |b: Amount| b.greater_than(service.threshold);
    if balances.len() == 0 {
        assert(balances.filter(above) =~= Seq::empty()) by {
            reveal(Seq::filter);
        }
    } else {
        let (next, first) = service.cycle(balances[0]);
        let tail = balances.drop_first();
        lemma_cycle(service, balances[0]);
        lemma_withdrawals_count(next, tail);
        let next_above = |b: Amount| b.greater_than(next.threshold);
        assert(next_above =~= above);
        assert(seq![balances[0]] + tail =~= balances);
        Seq::filter_distributes_over_add(seq![balances[0]], tail, above);
        assert(seq![balances[0]].filter(above).len() == (if above(balances[0]) {
            1nat
        } else {
            0nat
        })) by {
            reveal(Seq::filter);
            let one = seq![balances[0]];
            assert(one.drop_last() =~= Seq::<Amount>::empty());
            assert(one.drop_last().filter(above) =~= Seq::<Amount>::empty());
        }
    }
}

} // verus!
