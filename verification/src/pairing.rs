//! Pairing with a phone.

use vstd::prelude::*;

use crate::choice;
use crate::choice::{chosen_phone, phone_options, with_option};
use crate::clock;
use crate::clock::{poll_delay, remaining_until, Nanos, MILLISECOND, SECOND};
use crate::device;
use crate::device::{ready_connected_phones, AdbDevice, ConnectedPhone, MdnsService, ServiceKind};
use crate::dialogue::{Next, Notice, PairingWaitOutcome, Reply, Request, Script, Step};
use crate::failure::Failure;
use crate::text::{three, two};

verus! {

/// What to do about phones that are ready already while a new one is waited for.
#[derive(Debug, PartialEq, Eq)]
pub enum ExistingPhones {
    /// Nothing.
    Ignore,
    /// Use this one.
    Use(ConnectedPhone),
    /// Let the user choose among these options.
    Offer(Vec<String>),
}

/// What to do about the phones that are ready already: a single one is used, and several are
/// offered to the user, but only once.
pub fn already_connected_phone_choice(
    phones: &Vec<ConnectedPhone>,
    offered_multiple_existing_devices: bool,
) -> (choice: ExistingPhones)
    ensures
        match choice {
            ExistingPhones::Ignore => phones@.len() == 0 || (phones@.len() > 1
                && offered_multiple_existing_devices),
            ExistingPhones::Use(phone) => phones@.len() == 1 && phone == phones@[0],
            ExistingPhones::Offer(options) => phones@.len() > 1
                && !offered_multiple_existing_devices && options.deep_view()
                == choice::options_for(phones@, seq!["Keep waiting for QR scan"@]),
        },
{
    if phones.len() == 0 {
        ExistingPhones::Ignore
    } else if phones.len() == 1 {
        ExistingPhones::Use(phones[0].clone())
    } else if offered_multiple_existing_devices {
        ExistingPhones::Ignore
    } else {
        let options = with_option(phone_options(phones), "Keep waiting for QR scan");
        assert(options.deep_view() =~= choice::options_for(
            phones@,
            seq!["Keep waiting for QR scan"@],
        ));
        ExistingPhones::Offer(options)
    }
}

/// The service offers pairing under this name.
pub open spec fn offers_pairing(service: MdnsService, instance: Seq<char>) -> bool {
    service.instance@ == instance && service.kind == ServiceKind::Pairing
}

/// The address of the first service that offers pairing under this name.
pub open spec fn pairing_address(services: Seq<MdnsService>, instance: Seq<char>) -> Option<String>
    decreases services.len(),
{
    if services.len() == 0 {
        None
    } else if offers_pairing(services.first(), instance) {
        Some(services.first().address)
    } else {
        pairing_address(services.drop_first(), instance)
    }
}

/// The address of the first service that offers pairing under this name.
pub fn find_pairing_address(services: &Vec<MdnsService>, instance: &String) -> (address: Option<
    String,
>)
    ensures
        address == pairing_address(services@, instance@),
{
    let mut i: usize = 0;
    assert(services@.skip(0) =~= services@);
    while i < services.len()
        invariant
            i <= services.len(),
            pairing_address(services@.skip(i as int), instance@) == pairing_address(
                services@,
                instance@,
            ),
        decreases services.len() - i,
    {
        assert(services@.skip(i as int).first() == services@[i as int]);
        assert(services@.skip(i as int).drop_first() =~= services@.skip(i + 1));
        if services[i].instance == *instance && services[i].is_pairing_service() {
            return Some(services[i].address.clone());
        }
        i = i + 1;
    }
    None
}

/// The wait for a phone to scan the QR code.
#[derive(Debug, PartialEq, Eq)]
pub struct PairingWait {
    pub instance: String,
    pub deadline: Nanos,
    /// The phones that the user chooses among.
    pub phones: Vec<ConnectedPhone>,
    pub reported_direct_check: bool,
    pub reported_device_check_error: bool,
    pub reported_adb_error: bool,
    pub reported_bonjour_error: bool,
    pub offered_multiple_existing_devices: bool,
    pub phase: PairingWaitPhase,
}

/// What the wait is waiting for.
#[derive(Debug, Clone, Copy, PartialEq, Eq, Structural)]
pub enum PairingWaitPhase {
    Ticking,
    Listing,
    Choosing,
    ListingServices,
    SearchingBonjour,
    Sleeping,
    Over,
}

impl PairingWait {
    /// The replies that the wait can go on with.
    pub open spec fn expects(self, reply: Reply) -> bool {
        match self.phase {
            PairingWaitPhase::Ticking | PairingWaitPhase::Sleeping => reply.is_done_or_failed(),
            PairingWaitPhase::Listing => reply is Devices || reply is Failed,
            PairingWaitPhase::Choosing => match reply {
                Reply::Choice(selected) => selected >= 1,
                _ => reply is Failed,
            },
            PairingWaitPhase::ListingServices => reply is Services || reply is Failed,
            PairingWaitPhase::SearchingBonjour => reply is MaybeText || reply is Failed,
            PairingWaitPhase::Over => false,
        }
    }

    /// Whether the reply is one of those.
    pub fn accepts(&self, reply: &Reply) -> (r: bool)
        ensures
            r == self.expects(*reply),
    {
        match (self.phase, reply) {
            (
                PairingWaitPhase::Ticking | PairingWaitPhase::Sleeping,
                Reply::Done | Reply::Failed(_),
            ) => true,
            (PairingWaitPhase::Listing, Reply::Devices(_) | Reply::Failed(_)) => true,
            (PairingWaitPhase::Choosing, Reply::Choice(selected)) => *selected >= 1,
            (PairingWaitPhase::Choosing, Reply::Failed(_)) => true,
            (PairingWaitPhase::ListingServices, Reply::Services(_) | Reply::Failed(_)) => true,
            (PairingWaitPhase::SearchingBonjour, Reply::MaybeText(_) | Reply::Failed(_)) => true,
            _ => false,
        }
    }

    /// A flow begins in this state and with this step.
    pub open spec fn opens(
        instance: String,
        timeout: Nanos,
        now: Nanos,
        flow: Self,
        step: Step,
    ) -> bool {
        &&& flow.instance == instance
        &&& flow.deadline == now + timeout
        &&& flow.phones@.len() == 0
        &&& !flow.reported_direct_check
        &&& !flow.reported_device_check_error
        &&& !flow.reported_adb_error
        &&& !flow.reported_bonjour_error
        &&& !flow.offered_multiple_existing_devices
        &&& flow.phase == PairingWaitPhase::Ticking
        &&& step.asks(
            seq![Notice::CountdownBegins("Waiting for QR scan"@)],
            Request::Tick(timeout),
        )
    }

    /// Begins the wait for a phone that pairs under this name.
    pub fn begin(instance: String, timeout: Nanos, now: Nanos) -> (begun: (PairingWait, Step))
        requires
            now + timeout <= Nanos::MAX,
        ensures
            Self::opens(instance, timeout, now, begun.0, begun.1),
    {
        let wait = PairingWait {
            instance,
            deadline: now + timeout,
            phones: Vec::new(),
            reported_direct_check: false,
            reported_device_check_error: false,
            reported_adb_error: false,
            reported_bonjour_error: false,
            offered_multiple_existing_devices: false,
            phase: PairingWaitPhase::Ticking,
        };
        let step = Script::new().say(
            Notice::CountdownBegins("Waiting for QR scan".to_owned()),
        ).ask(Request::Tick(timeout));
        (wait, step)
    }

    /// The wait ends with this result.
    pub open spec fn ends(
        self,
        said: Seq<Notice<Seq<char>>>,
        reply: Reply,
        then: PairingWait,
        step: Step,
    ) -> bool {
        &&& then == PairingWait { phase: PairingWaitPhase::Over, ..self }
        &&& step.gives(said, reply)
    }

    /// After saying `said`, the services that the bridge knows are looked at.
    pub open spec fn asks_services(
        self,
        said: Seq<Notice<Seq<char>>>,
        then: PairingWait,
        step: Step,
    ) -> bool {
        &&& then == PairingWait { phase: PairingWaitPhase::ListingServices, ..self }
        &&& step.asks(said, Request::MdnsServices)
    }

    /// After saying `said`, Bonjour is searched; the first time, the user is told so.
    pub open spec fn searches_bonjour(
        self,
        said: Seq<Notice<Seq<char>>>,
        then: PairingWait,
        step: Step,
    ) -> bool {
        &&& then == PairingWait {
            reported_direct_check: true,
            phase: PairingWaitPhase::SearchingBonjour,
            ..self
        }
        &&& step.asks(
            if self.reported_direct_check {
                said
            } else {
                said.push(Notice::CountdownEnds).push(
                    Notice::Status(
                        "Also checking macOS Bonjour directly for the QR pairing service..."@,
                    ),
                )
            },
            Request::DiscoverPairing { instance: self.instance, patience: 2_000_000_000 },
        )
    }

    /// After saying `said`, the wait goes on with another round, unless the time is up.
    pub open spec fn pauses(
        self,
        said: Seq<Notice<Seq<char>>>,
        now: Nanos,
        then: PairingWait,
        step: Step,
    ) -> bool {
        if now >= self.deadline {
            &&& then == PairingWait { phase: PairingWaitPhase::Over, ..self }
            &&& step.fails(
                said.push(Notice::CountdownEnds),
                "timed out waiting for the phone to advertise the QR pairing service `"@
                    + self.instance@ + "`"@,
            )
        } else {
            &&& then == PairingWait { phase: PairingWaitPhase::Sleeping, ..self }
            &&& step.asks(said, Request::Sleep(clock::delay(self.deadline, now, 500_000_000)))
        }
    }

    /// What is said of a failure, unless one of its kind was reported before.
    pub open spec fn reporting(reported: bool, what: Seq<char>, message: Seq<char>) -> Seq<
        Notice<Seq<char>>,
    > {
        if reported {
            seq![]
        } else {
            seq![Notice::CountdownEnds, Notice::Warning(what + message)]
        }
    }

    /// What the phones that are ready already lead to.
    pub open spec fn sees(
        self,
        phones: Seq<ConnectedPhone>,
        then: PairingWait,
        step: Step,
    ) -> bool {
        if phones.len() == 0 {
            self.asks_services(seq![], then, step)
        } else if phones.len() == 1 {
            self.ends(
                seq![
                    Notice::CountdownEnds,
                    Notice::Success(
                        "ADB already sees "@ + phones[0].display_name@ + "; skipping QR scan."@,
                    ),
                    Notice::CountdownEnds,
                ],
                Reply::Pairing(PairingWaitOutcome::AlreadyConnected(phones[0])),
                then,
                step,
            )
        } else if self.offered_multiple_existing_devices {
            self.asks_services(seq![Notice::CountdownEnds], then, step)
        } else {
            &&& then == PairingWait {
                phones: then.phones,
                phase: PairingWaitPhase::Choosing,
                ..self
            }
            &&& then.phones@ == phones
            &&& step.offers(
                seq![
                    Notice::CountdownEnds,
                    Notice::Status("ADB already sees multiple ready devices."@),
                ],
                choice::options_for(phones, seq!["Keep waiting for QR scan"@]),
            )
        }
    }

    /// What a reply leads to.
    pub open spec fn leads_to(
        self,
        reply: Reply,
        now: Nanos,
        then: PairingWait,
        step: Step,
    ) -> bool {
        match (self.phase, reply) {
            (PairingWaitPhase::Ticking, Reply::Failed(_)) => self.ends(seq![], reply, then, step),
            (PairingWaitPhase::Ticking, _) => {
                &&& then == PairingWait { phase: PairingWaitPhase::Listing, ..self }
                &&& step.asks(seq![], Request::Devices)
            },
            (PairingWaitPhase::Listing, Reply::Devices(devices)) => self.sees(
                device::ready_phones(devices@),
                then,
                step,
            ),
            (PairingWaitPhase::Listing, Reply::Failed(failure)) => (PairingWait {
                reported_device_check_error: true,
                ..self
            }).asks_services(
                Self::reporting(
                    self.reported_device_check_error,
                    "could not check existing ADB devices: "@,
                    failure.message@,
                ),
                then,
                step,
            ),
            (PairingWaitPhase::Choosing, Reply::Choice(selected)) => {
                let asked = PairingWait { offered_multiple_existing_devices: true, ..self };
                match choice::chosen(self.phones@, selected as int) {
                    Some(phone) => asked.ends(
                        seq![Notice::CountdownEnds],
                        Reply::Pairing(PairingWaitOutcome::AlreadyConnected(phone)),
                        then,
                        step,
                    ),
                    None => asked.asks_services(seq![], then, step),
                }
            },
            (PairingWaitPhase::Choosing, _) => self.ends(seq![], reply, then, step),
            (PairingWaitPhase::ListingServices, Reply::Services(services)) => {
                match pairing_address(services@, self.instance@) {
                    Some(address) => self.ends(
                        seq![Notice::CountdownEnds],
                        Reply::Pairing(PairingWaitOutcome::PairingEndpoint(address)),
                        then,
                        step,
                    ),
                    None => self.searches_bonjour(seq![], then, step),
                }
            },
            (PairingWaitPhase::ListingServices, Reply::Failed(failure)) => (PairingWait {
                reported_adb_error: true,
                ..self
            }).searches_bonjour(
                Self::reporting(
                    self.reported_adb_error,
                    "adb mDNS lookup failed: "@,
                    failure.message@,
                ),
                then,
                step,
            ),
            (PairingWaitPhase::SearchingBonjour, Reply::MaybeText(Some(address))) => self.ends(
                seq![
                    Notice::CountdownEnds,
                    Notice::Success("Phone found through macOS Bonjour."@),
                ],
                Reply::Pairing(PairingWaitOutcome::PairingEndpoint(address)),
                then,
                step,
            ),
            (PairingWaitPhase::SearchingBonjour, Reply::MaybeText(None)) => self.pauses(
                seq![],
                now,
                then,
                step,
            ),
            (PairingWaitPhase::SearchingBonjour, Reply::Failed(failure)) => (PairingWait {
                reported_bonjour_error: true,
                ..self
            }).pauses(
                Self::reporting(
                    self.reported_bonjour_error,
                    "Bonjour pairing lookup failed: "@,
                    failure.message@,
                ),
                now,
                then,
                step,
            ),
            (PairingWaitPhase::Sleeping, Reply::Failed(_)) => self.ends(
                seq![Notice::CountdownEnds],
                reply,
                then,
                step,
            ),
            (PairingWaitPhase::Sleeping, _) => {
                &&& then == PairingWait { phase: PairingWaitPhase::Ticking, ..self }
                &&& step.asks(seq![], Request::Tick(clock::time_left(self.deadline, now)))
            },
            _ => false,
        }
    }

    fn end(&mut self, script: Script, reply: Reply) -> (step: Step)
        ensures
            old(self).ends(script@, reply, *final(self), step),
    {
        self.phase = PairingWaitPhase::Over;
        script.give(reply)
    }

    fn ask_services(&mut self, script: Script) -> (step: Step)
        ensures
            old(self).asks_services(script@, *final(self), step),
    {
        self.phase = PairingWaitPhase::ListingServices;
        script.ask(Request::MdnsServices)
    }

    fn search_bonjour(&mut self, script: Script) -> (step: Step)
        ensures
            old(self).searches_bonjour(script@, *final(self), step),
    {
        let mut script = script;
        if !self.reported_direct_check {
            script = script.countdown_ends().status(
                "Also checking macOS Bonjour directly for the QR pairing service...",
            );
            self.reported_direct_check = true;
        }
        self.phase = PairingWaitPhase::SearchingBonjour;
        script.ask(
            Request::DiscoverPairing { instance: self.instance.clone(), patience: 2 * SECOND },
        )
    }

    fn pause(&mut self, script: Script, now: Nanos) -> (step: Step)
        ensures
            old(self).pauses(script@, now, *final(self), step),
    {
        if now >= self.deadline {
            self.phase = PairingWaitPhase::Over;
            script.countdown_ends().fail(
                three(
                    "timed out waiting for the phone to advertise the QR pairing service `",
                    self.instance.as_str(),
                    "`",
                ),
            )
        } else {
            self.phase = PairingWaitPhase::Sleeping;
            script.ask(Request::Sleep(poll_delay(self.deadline, now, 500 * MILLISECOND)))
        }
    }

    fn see(&mut self, phones: Vec<ConnectedPhone>) -> (step: Step)
        ensures
            old(self).sees(phones@, *final(self), step),
    {
        let mut script = Script::new();
        if phones.len() > 0 {
            script = script.countdown_ends();
        }
        match already_connected_phone_choice(&phones, self.offered_multiple_existing_devices) {
            ExistingPhones::Ignore => self.ask_services(script),
            ExistingPhones::Use(phone) => {
                script = script.success(
                    three(
                        "ADB already sees ",
                        phone.display_name.as_str(),
                        "; skipping QR scan.",
                    ).as_str(),
                ).countdown_ends();
                self.end(script, Reply::Pairing(PairingWaitOutcome::AlreadyConnected(phone)))
            },
            ExistingPhones::Offer(options) => {
                self.phones = phones;
                self.phase = PairingWaitPhase::Choosing;
                script.status("ADB already sees multiple ready devices.").ask(
                    Request::Menu(options),
                )
            },
        }
    }
}

/// The script for a failure, unless one of its kind was reported before.
fn report_once(reported: bool, what: &str, message: &String) -> (script: Script)
    ensures
        script@ == PairingWait::reporting(reported, what@, message@),
{
    if reported {
        Script::new()
    } else {
        let script = Script::new().countdown_ends().warning(two(what, message.as_str()).as_str());
        assert(script@ =~= PairingWait::reporting(reported, what@, message@));
        script
    }
}

/// Goes on with the wait for a phone to scan the QR code.
pub fn wait_for_pairing_endpoint(wait: &mut PairingWait, reply: Reply, now: Nanos) -> (step: Step)
    requires
        old(wait).expects(reply),
    ensures
        old(wait).leads_to(reply, now, *final(wait), step),
{
    match (wait.phase, reply) {
        (PairingWaitPhase::Ticking, Reply::Done) => {
            wait.phase = PairingWaitPhase::Listing;
            Script::new().ask(Request::Devices)
        },
        (PairingWaitPhase::Listing, Reply::Devices(devices)) => {
            wait.see(ready_connected_phones(devices))
        },
        (PairingWaitPhase::Listing, Reply::Failed(failure)) => {
            let script = report_once(
                wait.reported_device_check_error,
                "could not check existing ADB devices: ",
                &failure.message,
            );
            wait.reported_device_check_error = true;
            wait.ask_services(script)
        },
        (PairingWaitPhase::Choosing, Reply::Choice(selected)) => {
            wait.offered_multiple_existing_devices = true;
            match chosen_phone(&wait.phones, selected) {
                Some(phone) => wait.end(
                    Script::new().countdown_ends(),
                    Reply::Pairing(PairingWaitOutcome::AlreadyConnected(phone)),
                ),
                None => wait.ask_services(Script::new()),
            }
        },
        (PairingWaitPhase::ListingServices, Reply::Services(services)) => {
            match find_pairing_address(&services, &wait.instance) {
                Some(address) => wait.end(
                    Script::new().countdown_ends(),
                    Reply::Pairing(PairingWaitOutcome::PairingEndpoint(address)),
                ),
                None => wait.search_bonjour(Script::new()),
            }
        },
        (PairingWaitPhase::ListingServices, Reply::Failed(failure)) => {
            let script = report_once(
                wait.reported_adb_error,
                "adb mDNS lookup failed: ",
                &failure.message,
            );
            wait.reported_adb_error = true;
            wait.search_bonjour(script)
        },
        (PairingWaitPhase::SearchingBonjour, Reply::MaybeText(Some(address))) => {
            let script = Script::new().countdown_ends().success(
                "Phone found through macOS Bonjour.",
            );
            wait.end(script, Reply::Pairing(PairingWaitOutcome::PairingEndpoint(address)))
        },
        (PairingWaitPhase::SearchingBonjour, Reply::MaybeText(None)) => {
            wait.pause(Script::new(), now)
        },
        (PairingWaitPhase::SearchingBonjour, Reply::Failed(failure)) => {
            let script = report_once(
                wait.reported_bonjour_error,
                "Bonjour pairing lookup failed: ",
                &failure.message,
            );
            wait.reported_bonjour_error = true;
            wait.pause(script, now)
        },
        (PairingWaitPhase::Sleeping, Reply::Done) => {
            wait.phase = PairingWaitPhase::Ticking;
            Script::new().ask(Request::Tick(remaining_until(wait.deadline, now)))
        },
        (PairingWaitPhase::Sleeping, reply) => wait.end(Script::new().countdown_ends(), reply),
        (_, reply) => wait.end(Script::new(), reply),
    }
}

/// A run of the wait: from state to state by replies that were expected, each with the time at
/// which it came and the step that it led to.
pub open spec fn is_pairing_wait_run(
    states: Seq<PairingWait>,
    events: Seq<(Reply, Nanos)>,
    steps: Seq<Step>,
) -> bool {
    &&& states.len() == events.len() + 1
    &&& steps.len() == events.len()
    &&& forall|i: int|
        0 <= i < events.len() ==> states[i].expects(events[i].0) && states[i].leads_to(
            events[i].0,
            events[i].1,
            states[i + 1],
            #[trigger] steps[i],
        )
}

/// What the wait has told the user stays told.
proof fn lemma_reports_stay(
    states: Seq<PairingWait>,
    events: Seq<(Reply, Nanos)>,
    steps: Seq<Step>,
    from: int,
    to: int,
)
    requires
        is_pairing_wait_run(states, events, steps),
        0 <= from <= to < states.len(),
    ensures
        states[from].deadline == states[to].deadline,
        states[from].instance == states[to].instance,
        states[from].reported_direct_check ==> states[to].reported_direct_check,
        states[from].reported_device_check_error ==> states[to].reported_device_check_error,
        states[from].reported_adb_error ==> states[to].reported_adb_error,
        states[from].reported_bonjour_error ==> states[to].reported_bonjour_error,
        states[from].has_offered() ==> states[to].has_offered(),
    decreases to - from,
{
    if from < to {
        lemma_reports_stay(states, events, steps, from, to - 1);
        assert(states[to - 1].leads_to(
            events[to - 1].0,
            events[to - 1].1,
            states[to],
            steps[to - 1],
        ));
    }
}

impl PairingWait {
    /// The choice among several phones was offered, or will not be any more.
    pub open spec fn has_offered(self) -> bool {
        ||| self.offered_multiple_existing_devices
        ||| self.phase == PairingWaitPhase::Choosing
        ||| self.phase == PairingWaitPhase::Over
    }
}

/// However long the wait lasts, of the failures of one kind only the first is reported.
pub proof fn law_pairing_wait_reports_each_kind_of_failure_once(
    states: Seq<PairingWait>,
    events: Seq<(Reply, Nanos)>,
    steps: Seq<Step>,
    i: int,
    j: int,
)
    requires
        is_pairing_wait_run(states, events, steps),
        0 <= i < j < steps.len(),
        events[i].0 is Failed,
        events[j].0 is Failed,
        states[i].phase == states[j].phase,
    ensures
        !steps[j].warns(),
{
    assert(states[i].leads_to(events[i].0, events[i].1, states[i + 1], steps[i]));
    assert(states[j].leads_to(events[j].0, events[j].1, states[j + 1], steps[j]));
    lemma_reports_stay(states, events, steps, i + 1, j);
}

/// However long the wait lasts, the user is told only once that Bonjour is searched too.
pub proof fn law_pairing_wait_mentions_bonjour_once(
    states: Seq<PairingWait>,
    events: Seq<(Reply, Nanos)>,
    steps: Seq<Step>,
    i: int,
    j: int,
)
    requires
        is_pairing_wait_run(states, events, steps),
        0 <= i < j < steps.len(),
        steps[i].next is Ask && steps[i].next->Ask_0 is DiscoverPairing,
        steps[j].next is Ask && steps[j].next->Ask_0 is DiscoverPairing,
    ensures
        forall|k: int|
            0 <= k < steps[j].script@.len() ==> !(#[trigger] steps[j].script@[k] is Status),
{
    assert(states[i].leads_to(events[i].0, events[i].1, states[i + 1], steps[i]));
    assert(states[j].leads_to(events[j].0, events[j].1, states[j + 1], steps[j]));
    lemma_reports_stay(states, events, steps, i + 1, j);
}

/// However long the wait lasts, the user is asked only once which of several phones to use.
pub proof fn law_pairing_wait_offers_phones_once(
    states: Seq<PairingWait>,
    events: Seq<(Reply, Nanos)>,
    steps: Seq<Step>,
    i: int,
    j: int,
)
    requires
        is_pairing_wait_run(states, events, steps),
        0 <= i < j < steps.len(),
        steps[i].lets_choose(),
    ensures
        !steps[j].lets_choose(),
{
    assert(states[i].leads_to(events[i].0, events[i].1, states[i + 1], steps[i]));
    assert(states[j].leads_to(events[j].0, events[j].1, states[j + 1], steps[j]));
    lemma_reports_stay(states, events, steps, i + 1, j);
}

/// The wait gives up by itself only when its time is up, and never sleeps beyond that.
pub proof fn law_pairing_wait_respects_its_deadline(
    wait: PairingWait,
    reply: Reply,
    now: Nanos,
    then: PairingWait,
    step: Step,
)
    requires
        wait.expects(reply),
        wait.leads_to(reply, now, then, step),
    ensures
        then.deadline == wait.deadline,
        match step.next {
            Next::Give(Reply::Failed(failure)) => now >= wait.deadline || reply == Reply::Failed(
                failure,
            ),
            Next::Ask(Request::Sleep(delay)) => now + delay <= wait.deadline && delay <= 500
                * MILLISECOND,
            _ => true,
        },
{
}

/// An endpoint that the wait ends with was found for the name that it waits for: among the
/// services that the bridge knows, or by Bonjour.
pub proof fn law_pairing_wait_gives_only_what_was_found(
    wait: PairingWait,
    reply: Reply,
    now: Nanos,
    then: PairingWait,
    step: Step,
    address: String,
)
    requires
        wait.expects(reply),
        wait.leads_to(reply, now, then, step),
        step.next == Next::Give(Reply::Pairing(PairingWaitOutcome::PairingEndpoint(address))),
    ensures
        match reply {
            Reply::Services(services) => exists|i: int|
                0 <= i < services@.len() && #[trigger] offers_pairing(services@[i], wait.instance@)
                    && services@[i].address == address,
            Reply::MaybeText(found) => found == Some(address),
            _ => false,
        },
{
    if let Reply::Services(services) = reply {
        lemma_pairing_address(services@, wait.instance@);
    }
}

/// A service that offers pairing under the name that the wait waits for is not missed.
pub proof fn law_pairing_wait_misses_no_service(
    wait: PairingWait,
    services: Vec<MdnsService>,
    now: Nanos,
    then: PairingWait,
    step: Step,
    i: int,
)
    requires
        wait.expects(Reply::Services(services)),
        wait.leads_to(Reply::Services(services), now, then, step),
        0 <= i < services@.len(),
        offers_pairing(services@[i], wait.instance@),
    ensures
        match step.next {
            Next::Give(Reply::Pairing(PairingWaitOutcome::PairingEndpoint(_))) => true,
            _ => false,
        },
{
    lemma_pairing_address(services@, wait.instance@);
}

/// What `pairing_address` finds is there, and it finds something if it is there.
proof fn lemma_pairing_address(services: Seq<MdnsService>, instance: Seq<char>)
    ensures
        match pairing_address(services, instance) {
            Some(address) => exists|i: int|
                0 <= i < services.len() && #[trigger] offers_pairing(services[i], instance)
                    && services[i].address == address,
            None => forall|i: int|
                0 <= i < services.len() ==> !#[trigger] offers_pairing(services[i], instance),
        },
    decreases services.len(),
{
    if services.len() > 0 {
        let rest = services.drop_first();
        lemma_pairing_address(rest, instance);
        assert(services[0] == services.first());
        assert(forall|i: int| 0 < i < services.len() ==> #[trigger] services[i] == rest[i - 1]);
        if !offers_pairing(services.first(), instance) {
            match pairing_address(rest, instance) {
                Some(address) => {
                    let i = choose|i: int|
                        0 <= i < rest.len() && #[trigger] offers_pairing(rest[i], instance)
                            && rest[i].address == address;
                    assert(services[i + 1] == rest[i]);
                    assert(offers_pairing(services[i + 1], instance));
                },
                None => {
                    assert forall|i: int| 0 <= i < services.len() implies !#[trigger] offers_pairing(
                        services[i],
                        instance,
                    ) by {
                        if i > 0 {
                            assert(!offers_pairing(rest[i - 1], instance));
                        }
                    }
                },
            }
        } else {
            assert(offers_pairing(services[0], instance));
        }
    }
}

/// From the menu of phones that the wait shows, the user gets what the option says: the phone
/// of that name at that place among the ready ones, or else the wait goes on.
pub proof fn law_pairing_wait_takes_the_phone_that_was_selected(
    before: PairingWait,
    devices: Vec<AdbDevice>,
    shown_at: Nanos,
    wait: PairingWait,
    offer: Step,
    options: Vec<String>,
    selected: usize,
    now: Nanos,
    then: PairingWait,
    step: Step,
)
    requires
        before.expects(Reply::Devices(devices)),
        before.leads_to(Reply::Devices(devices), shown_at, wait, offer),
        offer.next == Next::Ask(Request::Menu(options)),
        1 <= selected <= options@.len(),
        wait.leads_to(Reply::Choice(selected), now, then, step),
    ensures
        options@.len() == device::ready_phones(devices@).len() + 1,
        then.offered_multiple_existing_devices,
        match step.next {
            Next::Give(Reply::Pairing(PairingWaitOutcome::AlreadyConnected(phone))) => {
                &&& selected <= device::ready_phones(devices@).len()
                &&& phone == device::ready_phones(devices@)[selected - 1]
                &&& options@[selected - 1]@ == "Use "@ + phone.display_name@
            },
            Next::Ask(Request::MdnsServices) => {
                &&& selected == device::ready_phones(devices@).len() + 1
                &&& options@[selected - 1]@ == "Keep waiting for QR scan"@
            },
            _ => false,
        },
{
    assert(options@.len() == options.deep_view().len());
    assert(options.deep_view()[selected - 1] == options@[selected - 1]@);
}

/// Phones that are ready already decide how the wait goes on: a single one ends it, several are
/// offered unless they were before, and otherwise the services are looked at.
pub proof fn law_pairing_wait_heeds_ready_phones(
    wait: PairingWait,
    devices: Vec<AdbDevice>,
    now: Nanos,
    then: PairingWait,
    step: Step,
)
    requires
        wait.expects(Reply::Devices(devices)),
        wait.leads_to(Reply::Devices(devices), now, then, step),
    ensures
        then.instance == wait.instance,
        match step.next {
            Next::Give(result) => {
                let phones = device::ready_phones(devices@);
                &&& phones.len() == 1
                &&& result == Reply::Pairing(PairingWaitOutcome::AlreadyConnected(phones[0]))
                &&& step.script@.contains(
                    Notice::Success(
                        "ADB already sees "@ + phones[0].display_name@ + "; skipping QR scan."@,
                    ),
                )
            },
            Next::Ask(Request::Menu(_)) => device::ready_phones(devices@).len() > 1
                && !wait.offered_multiple_existing_devices,
            Next::Ask(Request::MdnsServices) => device::ready_phones(devices@).len() == 0 || (
            device::ready_phones(devices@).len() > 1 && wait.offered_multiple_existing_devices),
            _ => false,
        },
{
    if device::ready_phones(devices@).len() == 1 {
        assert(step.script@[1] is Success);
    }
}

/// The endpoint that the wait takes from the services of the bridge is that of the first one
/// that offers pairing under its name.
pub proof fn law_pairing_wait_takes_the_first_service(
    wait: PairingWait,
    services: Vec<MdnsService>,
    now: Nanos,
    then: PairingWait,
    step: Step,
    i: int,
)
    requires
        wait.expects(Reply::Services(services)),
        wait.leads_to(Reply::Services(services), now, then, step),
        0 <= i < services@.len(),
        services@[i].instance@ == wait.instance@,
        services@[i].kind == ServiceKind::Pairing,
        forall|j: int|
            0 <= j < i ==> !((#[trigger] services@[j]).instance@ == wait.instance@
                && services@[j].kind == ServiceKind::Pairing),
    ensures
        step.next == Next::Give(
            Reply::Pairing(PairingWaitOutcome::PairingEndpoint(services@[i].address)),
        ),
{
    lemma_first_pairing_address(services@, wait.instance@, i);
}

proof fn lemma_first_pairing_address(services: Seq<MdnsService>, instance: Seq<char>, i: int)
    requires
        0 <= i < services.len(),
        offers_pairing(services[i], instance),
        forall|j: int| 0 <= j < i ==> !offers_pairing(#[trigger] services[j], instance),
    ensures
        pairing_address(services, instance) == Some(services[i].address),
    decreases i,
{
    if i > 0 {
        let rest = services.drop_first();
        assert(!offers_pairing(services[0], instance));
        assert forall|j: int| 0 <= j < i - 1 implies !offers_pairing(
            #[trigger] rest[j],
            instance,
        ) by {
            assert(rest[j] == services[j + 1]);
        }
        lemma_first_pairing_address(rest, instance, i - 1);
    }
}

/// Where the bridge knows no such service, or cannot say, Bonjour is searched for the same name;
/// what it finds ends the wait, and otherwise the wait sleeps as long as it may, or fails in the
/// name of the service that did not come.
pub proof fn law_pairing_wait_searches_bonjour_and_sleeps(
    wait: PairingWait,
    reply: Reply,
    now: Nanos,
    then: PairingWait,
    step: Step,
)
    requires
        wait.expects(reply),
        wait.leads_to(reply, now, then, step),
        wait.phase == PairingWaitPhase::ListingServices || wait.phase
            == PairingWaitPhase::SearchingBonjour,
    ensures
        match step.next {
            Next::Ask(Request::DiscoverPairing { instance, patience }) => {
                &&& wait.phase == PairingWaitPhase::ListingServices
                &&& then.phase == PairingWaitPhase::SearchingBonjour
                &&& instance@ == wait.instance@
                &&& patience == 2 * SECOND
            },
            Next::Give(Reply::Pairing(PairingWaitOutcome::PairingEndpoint(address))) => wait.phase
                == PairingWaitPhase::SearchingBonjour ==> reply == Reply::MaybeText(Some(address)),
            Next::Ask(Request::Sleep(span)) => {
                &&& wait.phase == PairingWaitPhase::SearchingBonjour
                &&& then.phase == PairingWaitPhase::Sleeping
                &&& reply == Reply::MaybeText(None) || reply is Failed
                &&& now < wait.deadline
                &&& now + span <= wait.deadline
                &&& span == 500 * MILLISECOND || (span < 500 * MILLISECOND && now + span
                    == wait.deadline)
            },
            Next::Give(Reply::Failed(failure)) => {
                &&& wait.phase == PairingWaitPhase::SearchingBonjour
                &&& reply == Reply::MaybeText(None) || reply is Failed
                &&& now >= wait.deadline
                &&& !failure.cancelled
                &&& failure.message@
                    == "timed out waiting for the phone to advertise the QR pairing service `"@
                    + wait.instance@ + "`"@
            },
            _ => false,
        },
        wait.phase == PairingWaitPhase::SearchingBonjour && reply is MaybeText
            && reply->MaybeText_0 is Some ==> step.next == Next::Give(
            Reply::Pairing(PairingWaitOutcome::PairingEndpoint(reply->MaybeText_0->0)),
        ),
{
}

/// The first failure of its kind is told with its reason, and the wait goes on to the next way to
/// find the phone.
pub proof fn law_pairing_wait_tells_what_failed(
    wait: PairingWait,
    failure: Failure,
    now: Nanos,
    then: PairingWait,
    step: Step,
)
    requires
        wait.expects(Reply::Failed(failure)),
        wait.leads_to(Reply::Failed(failure), now, then, step),
    ensures
        wait.phase == PairingWaitPhase::Listing ==> step.next == Next::Ask(Request::MdnsServices)
            && (wait.reported_device_check_error || step.script@[1] == Notice::Warning(
            "could not check existing ADB devices: "@ + failure.message@,
        )),
        wait.phase == PairingWaitPhase::ListingServices ==> wait.reported_adb_error
            || step.script@[1] == Notice::Warning(
            "adb mDNS lookup failed: "@ + failure.message@,
        ),
        wait.phase == PairingWaitPhase::SearchingBonjour ==> wait.reported_bonjour_error
            || step.script@[1] == Notice::Warning(
            "Bonjour pairing lookup failed: "@ + failure.message@,
        ),
        wait.phase == PairingWaitPhase::Ticking || wait.phase == PairingWaitPhase::Choosing
            || wait.phase == PairingWaitPhase::Sleeping ==> step.next == Next::Give(
            Reply::Failed(failure),
        ),
{
}

/// Between two rounds the wait shows the time that is left and lists the devices again.
pub proof fn law_pairing_wait_goes_round(
    wait: PairingWait,
    now: Nanos,
    then: PairingWait,
    step: Step,
)
    requires
        wait.expects(Reply::Done),
        wait.leads_to(Reply::Done, now, then, step),
    ensures
        match step.next {
            Next::Ask(Request::Devices) => wait.phase == PairingWaitPhase::Ticking && then.phase
                == PairingWaitPhase::Listing,
            Next::Ask(Request::Tick(left)) => {
                &&& wait.phase == PairingWaitPhase::Sleeping
                &&& then.phase == PairingWaitPhase::Ticking
                &&& if now < wait.deadline {
                    now + left == wait.deadline
                } else {
                    left == 0
                }
            },
            _ => false,
        },
{
}

/// What the wait remembers is what it did: each kind of failure counts as reported from the first
/// one on and not before, Bonjour as mentioned from the first search on, and the phones as offered
/// once the user has chosen. What it waits for does not change.
pub proof fn law_pairing_wait_remembers_what_it_did(
    wait: PairingWait,
    reply: Reply,
    now: Nanos,
    then: PairingWait,
    step: Step,
)
    requires
        wait.expects(reply),
        wait.leads_to(reply, now, then, step),
    ensures
        then.instance == wait.instance,
        then.deadline == wait.deadline,
        then.reported_device_check_error <==> wait.reported_device_check_error || (wait.phase
            == PairingWaitPhase::Listing && reply is Failed),
        then.reported_adb_error <==> wait.reported_adb_error || (wait.phase
            == PairingWaitPhase::ListingServices && reply is Failed),
        then.reported_bonjour_error <==> wait.reported_bonjour_error || (wait.phase
            == PairingWaitPhase::SearchingBonjour && reply is Failed),
        then.reported_direct_check <==> wait.reported_direct_check || (step.next is Ask
            && step.next->Ask_0 is DiscoverPairing),
        then.offered_multiple_existing_devices <==> wait.offered_multiple_existing_devices
            || reply is Choice,
        step.next is Give <==> then.phase == PairingWaitPhase::Over,
{
}

/// The user is told of the first search by Bonjour, and that several phones are ready when they
/// are offered.
pub proof fn law_pairing_wait_tells_what_it_does(
    wait: PairingWait,
    reply: Reply,
    now: Nanos,
    then: PairingWait,
    step: Step,
)
    requires
        wait.expects(reply),
        wait.leads_to(reply, now, then, step),
    ensures
        match step.next {
            Next::Ask(Request::DiscoverPairing { .. }) => wait.reported_direct_check
                || step.script@.last() == Notice::Status(
                "Also checking macOS Bonjour directly for the QR pairing service..."@,
            ),
            Next::Ask(Request::Menu(_)) => step.script@.last() == Notice::Status(
                "ADB already sees multiple ready devices."@,
            ),
            Next::Give(Reply::Pairing(PairingWaitOutcome::PairingEndpoint(_))) => reply is MaybeText
                ==> step.script@.last() == Notice::Success("Phone found through macOS Bonjour."@),
            _ => true,
        },
{
}

/// The countdown line is given up before anything else is said, and before the wait ends, unless
/// showing the time or the menu is what failed.
pub proof fn law_pairing_wait_gives_its_line_up(
    wait: PairingWait,
    reply: Reply,
    now: Nanos,
    then: PairingWait,
    step: Step,
)
    requires
        wait.expects(reply),
        wait.leads_to(reply, now, then, step),
    ensures
        forall|k: int|
            0 <= k < step.script@.len() && !(#[trigger] step.script@[k] is CountdownEnds) ==> k > 0
                && step.script@[k - 1] is CountdownEnds,
        match step.next {
            Next::Give(Reply::Failed(_)) => {
                if wait.phase == PairingWaitPhase::Ticking || wait.phase
                    == PairingWaitPhase::Choosing {
                    step.script@.len() == 0
                } else {
                    step.script@.last() is CountdownEnds
                }
            },
            Next::Give(_) => step.script@.first() is CountdownEnds,
            _ => true,
        },
{
}

} // verus!
