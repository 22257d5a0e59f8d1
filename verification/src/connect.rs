//! Connecting to a phone at an endpoint, and waiting until it is ready.

use vstd::pervasive::unreached;
use vstd::prelude::*;

use crate::clock;
use crate::clock::{poll_delay, remaining_until, Nanos, SECOND};
use crate::device;
use crate::device::{as_phone, AdbDevice};
use crate::dialogue::{Next, Notice, Reply, Request, Script, Step, Topic};
use crate::endpoint;
use crate::endpoint::is_plausible_endpoint;
use crate::text::{copy_texts, three, two};

verus! {

/// The wait for a device to be listed as ready.
#[derive(Debug, PartialEq, Eq)]
pub struct ReadyDeviceWait {
    pub expected_serial: String,
    pub baseline: Vec<String>,
    pub deadline: Nanos,
    pub phase: ReadyDevicePhase,
}

/// What the wait is waiting for.
#[derive(Debug, Clone, Copy, PartialEq, Eq, Structural)]
pub enum ReadyDevicePhase {
    Ticking,
    Listing,
    Matching,
    Sleeping,
    Over,
}

impl ReadyDeviceWait {
    /// The replies that the wait can go on with.
    pub open spec fn expects(self, reply: Reply) -> bool {
        match self.phase {
            ReadyDevicePhase::Ticking | ReadyDevicePhase::Sleeping => reply.is_done_or_failed(),
            ReadyDevicePhase::Listing => reply is Devices || reply is Failed,
            ReadyDevicePhase::Matching => reply is MaybeDevice,
            ReadyDevicePhase::Over => false,
        }
    }

    /// Whether the reply is one of those.
    pub fn accepts(&self, reply: &Reply) -> (r: bool)
        ensures
            r == self.expects(*reply),
    {
        match (self.phase, reply) {
            (ReadyDevicePhase::Ticking, Reply::Done | Reply::Failed(_)) => true,
            (ReadyDevicePhase::Sleeping, Reply::Done | Reply::Failed(_)) => true,
            (ReadyDevicePhase::Listing, Reply::Devices(_) | Reply::Failed(_)) => true,
            (ReadyDevicePhase::Matching, Reply::MaybeDevice(_)) => true,
            _ => false,
        }
    }

    /// A flow begins in this state and with this step.
    pub open spec fn opens(
        expected_serial: String,
        baseline: Vec<String>,
        timeout: Nanos,
        now: Nanos,
        flow: Self,
        step: Step,
    ) -> bool {
        &&& flow == (ReadyDeviceWait {
            expected_serial,
            baseline,
            deadline: (now + timeout) as Nanos,
            phase: ReadyDevicePhase::Ticking,
        })
        &&& step.asks(
            seq![
                Notice::Status("Waiting for adb devices..."@),
                Notice::CancelHint,
                Notice::CountdownBegins("ADB device wait"@),
            ],
            Request::Tick(timeout),
        )
    }

    /// Begins the wait. It lasts until the device is ready, the time is up or the user
    /// cancels.
    pub fn begin(
        expected_serial: String,
        baseline: Vec<String>,
        timeout: Nanos,
        now: Nanos,
    ) -> (begun: (ReadyDeviceWait, Step))
        requires
            now + timeout <= Nanos::MAX,
        ensures
            Self::opens(expected_serial, baseline, timeout, now, begun.0, begun.1),
    {
        let wait = ReadyDeviceWait {
            expected_serial,
            baseline,
            deadline: now + timeout,
            phase: ReadyDevicePhase::Ticking,
        };
        let step = Script::new().status("Waiting for adb devices...").say(Notice::CancelHint).say(
            Notice::CountdownBegins("ADB device wait".to_owned()),
        ).ask(Request::Tick(timeout));
        (wait, step)
    }

    /// What a reply leads to.
    pub open spec fn leads_to(
        self,
        reply: Reply,
        now: Nanos,
        then: ReadyDeviceWait,
        step: Step,
    ) -> bool {
        &&& then == ReadyDeviceWait { phase: then.phase, ..self }
        &&& match (self.phase, reply) {
            (ReadyDevicePhase::Ticking, Reply::Failed(failure)) => {
                &&& then.phase == ReadyDevicePhase::Over
                &&& step.gives(seq![], reply)
            },
            (ReadyDevicePhase::Ticking, _) => {
                &&& then.phase == ReadyDevicePhase::Listing
                &&& step.asks(seq![], Request::Devices)
            },
            (ReadyDevicePhase::Listing, _) => {
                &&& then.phase == ReadyDevicePhase::Matching
                &&& step.asks_to_match(
                    seq![],
                    reply.listed_devices(),
                    self.expected_serial@,
                    self.baseline@,
                )
            },
            (ReadyDevicePhase::Matching, Reply::MaybeDevice(Some(found))) => {
                &&& then.phase == ReadyDevicePhase::Over
                &&& step.gives(
                    seq![
                        Notice::CountdownEnds,
                        Notice::Success("ADB device is ready: "@ + found.display_name@),
                    ],
                    Reply::Device(found),
                )
            },
            (ReadyDevicePhase::Matching, _) => if now >= self.deadline {
                &&& then.phase == ReadyDevicePhase::Over
                &&& step.fails(
                    seq![Notice::CountdownEnds],
                    "timed out waiting for "@ + self.expected_serial@
                        + " to appear in adb devices"@,
                )
            } else {
                &&& then.phase == ReadyDevicePhase::Sleeping
                &&& step.asks(
                    seq![],
                    Request::Sleep(clock::delay(self.deadline, now, 2_000_000_000)),
                )
            },
            (ReadyDevicePhase::Sleeping, Reply::Failed(failure)) => {
                &&& then.phase == ReadyDevicePhase::Over
                &&& step.gives(seq![Notice::CountdownEnds], reply)
            },
            (ReadyDevicePhase::Sleeping, _) => {
                &&& then.phase == ReadyDevicePhase::Ticking
                &&& step.asks(seq![], Request::Tick(clock::time_left(self.deadline, now)))
            },
            (ReadyDevicePhase::Over, _) => false,
        }
    }
}

/// Goes on with the wait for a device to be listed as ready.
pub fn wait_for_ready_device(wait: &mut ReadyDeviceWait, reply: Reply, now: Nanos) -> (step: Step)
    requires
        old(wait).expects(reply),
    ensures
        old(wait).leads_to(reply, now, *final(wait), step),
{
    match wait.phase {
        ReadyDevicePhase::Ticking => match reply {
            Reply::Failed(_) => {
                wait.phase = ReadyDevicePhase::Over;
                Script::new().give(reply)
            },
            _ => {
                wait.phase = ReadyDevicePhase::Listing;
                Script::new().ask(Request::Devices)
            },
        },
        ReadyDevicePhase::Listing => {
            wait.phase = ReadyDevicePhase::Matching;
            Script::new().ask(
                Request::MatchReadyDevice {
                    devices: reply.into_devices(),
                    expected_serial: wait.expected_serial.clone(),
                    baseline: copy_texts(&wait.baseline),
                },
            )
        },
        ReadyDevicePhase::Matching => match reply {
            Reply::MaybeDevice(Some(found)) => {
                wait.phase = ReadyDevicePhase::Over;
                Script::new().countdown_ends().success(
                    two("ADB device is ready: ", found.display_name.as_str()).as_str(),
                ).give(Reply::Device(found))
            },
            _ => if now >= wait.deadline {
                wait.phase = ReadyDevicePhase::Over;
                Script::new().countdown_ends().fail(
                    three(
                        "timed out waiting for ",
                        wait.expected_serial.as_str(),
                        " to appear in adb devices",
                    ),
                )
            } else {
                wait.phase = ReadyDevicePhase::Sleeping;
                Script::new().ask(Request::Sleep(poll_delay(wait.deadline, now, 2 * SECOND)))
            },
        },
        ReadyDevicePhase::Sleeping => match reply {
            Reply::Failed(_) => {
                wait.phase = ReadyDevicePhase::Over;
                Script::new().countdown_ends().give(reply)
            },
            _ => {
                wait.phase = ReadyDevicePhase::Ticking;
                Script::new().ask(Request::Tick(remaining_until(wait.deadline, now)))
            },
        },
        ReadyDevicePhase::Over => unreached(),
    }
}

/// A connection to a phone at an endpoint.
#[derive(Debug, PartialEq, Eq)]
pub struct EndpointConnection {
    pub endpoint: String,
    pub baseline: Vec<String>,
    pub timeout: Nanos,
    pub phase: EndpointPhase,
}

/// What the connection is waiting for.
#[derive(Debug, Clone, Copy, PartialEq, Eq, Structural)]
pub enum EndpointPhase {
    Connecting,
    ReadingSerial,
    Waiting,
    Over,
}

impl EndpointConnection {
    /// The replies that the connection can go on with.
    pub open spec fn expects(self, reply: Reply) -> bool {
        match self.phase {
            EndpointPhase::Connecting => reply is Text || reply is Failed,
            EndpointPhase::ReadingSerial => reply is MaybeText,
            EndpointPhase::Waiting => reply is Device || reply is Failed,
            EndpointPhase::Over => false,
        }
    }

    /// Whether the reply is one of those.
    pub fn accepts(&self, reply: &Reply) -> (r: bool)
        ensures
            r == self.expects(*reply),
    {
        match (self.phase, reply) {
            (EndpointPhase::Connecting, Reply::Text(_) | Reply::Failed(_)) => true,
            (EndpointPhase::ReadingSerial, Reply::MaybeText(_)) => true,
            (EndpointPhase::Waiting, Reply::Device(_) | Reply::Failed(_)) => true,
            _ => false,
        }
    }

    /// A flow begins in this state and with this step.
    pub open spec fn opens(
        endpoint: String,
        baseline: Vec<String>,
        timeout: Nanos,
        flow: Self,
        step: Step,
    ) -> bool {
        &&& flow == (EndpointConnection {
            endpoint,
            baseline,
            timeout,
            phase: EndpointPhase::Connecting,
        })
        &&& step.asks(
            seq![Notice::Status("Connecting to "@ + endpoint@ + "..."@)],
            Request::Connect(endpoint),
        )
    }

    /// Begins to connect.
    pub fn begin(endpoint: String, baseline: Vec<String>, timeout: Nanos) -> (begun: (
        EndpointConnection,
        Step,
    ))
        ensures
            Self::opens(endpoint, baseline, timeout, begun.0, begun.1),
    {
        let step = Script::new().status(
            three("Connecting to ", endpoint.as_str(), "...").as_str(),
        ).ask(Request::Connect(endpoint.clone()));
        (EndpointConnection { endpoint, baseline, timeout, phase: EndpointPhase::Connecting }, step)
    }

    /// What a reply leads to. The device to wait for is the one that the bridge named when
    /// it connected, or else the one named like the endpoint.
    pub open spec fn leads_to(self, reply: Reply, then: EndpointConnection, step: Step) -> bool {
        &&& then == EndpointConnection { phase: then.phase, ..self }
        &&& match (self.phase, reply) {
            (EndpointPhase::Connecting, Reply::Text(output)) => {
                &&& then.phase == EndpointPhase::ReadingSerial
                &&& step.asks(seq![], Request::SerialFromOutput(output))
            },
            (EndpointPhase::ReadingSerial, Reply::MaybeText(serial)) => {
                &&& then.phase == EndpointPhase::Waiting
                &&& step.asks_to_wait(
                    seq![Notice::Status("Verifying the device is ready..."@)],
                    match serial {
                        Some(serial) => serial@,
                        None => self.endpoint@,
                    },
                    self.baseline@,
                    self.timeout,
                )
            },
            (EndpointPhase::Connecting, _) | (EndpointPhase::Waiting, _) => {
                &&& then.phase == EndpointPhase::Over
                &&& step.gives(seq![], reply)
            },
            _ => false,
        }
    }
}

/// Goes on with connecting to an endpoint.
pub fn connect_to_endpoint(connection: &mut EndpointConnection, reply: Reply) -> (step: Step)
    requires
        old(connection).expects(reply),
    ensures
        old(connection).leads_to(reply, *final(connection), step),
{
    match (connection.phase, reply) {
        (EndpointPhase::Connecting, Reply::Text(output)) => {
            connection.phase = EndpointPhase::ReadingSerial;
            Script::new().ask(Request::SerialFromOutput(output))
        },
        (EndpointPhase::ReadingSerial, Reply::MaybeText(serial)) => {
            connection.phase = EndpointPhase::Waiting;
            let expected_serial = match serial {
                Some(serial) => serial,
                None => connection.endpoint.clone(),
            };
            Script::new().status("Verifying the device is ready...").ask(
                Request::WaitForReadyDevice {
                    expected_serial,
                    baseline: copy_texts(&connection.baseline),
                    timeout: connection.timeout,
                },
            )
        },
        (_, reply) => {
            connection.phase = EndpointPhase::Over;
            Script::new().give(reply)
        },
    }
}

/// The question for an endpoint, repeated until the answer is plausible.
#[derive(Debug, PartialEq, Eq)]
pub struct EndpointPrompt {
    pub label: &'static str,
    pub over: bool,
}

impl EndpointPrompt {
    /// The replies that the question can go on with.
    pub open spec fn expects(self, reply: Reply) -> bool {
        !self.over && (reply is Text || reply is Failed)
    }

    /// Whether the reply is one of those.
    pub fn accepts(&self, reply: &Reply) -> (r: bool)
        ensures
            r == self.expects(*reply),
    {
        match reply {
            Reply::Text(_) | Reply::Failed(_) => !self.over,
            _ => false,
        }
    }

    /// A flow begins in this state and with this step.
    pub open spec fn opens(label: &'static str, flow: Self, step: Step) -> bool {
        &&& flow == (EndpointPrompt { label, over: false })
        &&& step.asks(seq![], Request::Prompt(label))
    }

    /// Asks for the first time.
    pub fn begin(label: &'static str) -> (begun: (EndpointPrompt, Step))
        ensures
            Self::opens(label, begun.0, begun.1),
    {
        (EndpointPrompt { label, over: false }, Script::new().ask(Request::Prompt(label)))
    }

    /// What a reply leads to.
    pub open spec fn leads_to(self, reply: Reply, then: EndpointPrompt, step: Step) -> bool {
        &&& then == EndpointPrompt { over: then.over, ..self }
        &&& match reply {
            Reply::Text(answer) if !endpoint::plausible_endpoint(answer@) => {
                &&& !then.over
                &&& step.asks(
                    seq![
                        Notice::Warning(
                            "Use the full value shown on the phone, for example 192.168.68.54:37123."@,
                        ),
                    ],
                    Request::Prompt(self.label),
                )
            },
            _ => {
                &&& then.over
                &&& step.gives(seq![], reply)
            },
        }
    }
}

/// Goes on with the question for an endpoint.
pub fn prompt_endpoint(prompt: &mut EndpointPrompt, reply: Reply) -> (step: Step)
    requires
        old(prompt).expects(reply),
    ensures
        old(prompt).leads_to(reply, *final(prompt), step),
{
    match reply {
        Reply::Text(answer) => if is_plausible_endpoint(answer.as_str()) {
            prompt.over = true;
            Script::new().give(Reply::Text(answer))
        } else {
            Script::new().warning(
                "Use the full value shown on the phone, for example 192.168.68.54:37123.",
            ).ask(Request::Prompt(prompt.label))
        },
        _ => {
            prompt.over = true;
            Script::new().give(reply)
        },
    }
}

/// A connection to an endpoint that the user enters.
#[derive(Debug, PartialEq, Eq)]
pub struct ManualDevice {
    pub baseline: Vec<String>,
    pub timeout: Nanos,
    pub phase: ManualDevicePhase,
}

/// What the connection is waiting for.
#[derive(Debug, Clone, Copy, PartialEq, Eq, Structural)]
pub enum ManualDevicePhase {
    Prompting,
    Connecting,
    Over,
}

impl ManualDevice {
    /// The replies that the connection can go on with.
    pub open spec fn expects(self, reply: Reply) -> bool {
        match self.phase {
            ManualDevicePhase::Prompting => reply is Text || reply is Failed,
            ManualDevicePhase::Connecting => reply is Device || reply is Failed,
            ManualDevicePhase::Over => false,
        }
    }

    /// Whether the reply is one of those.
    pub fn accepts(&self, reply: &Reply) -> (r: bool)
        ensures
            r == self.expects(*reply),
    {
        match (self.phase, reply) {
            (ManualDevicePhase::Prompting, Reply::Text(_) | Reply::Failed(_)) => true,
            (ManualDevicePhase::Connecting, Reply::Device(_) | Reply::Failed(_)) => true,
            _ => false,
        }
    }

    /// A flow begins in this state and with this step.
    pub open spec fn opens(baseline: Vec<String>, timeout: Nanos, flow: Self, step: Step) -> bool {
        &&& flow == (ManualDevice { baseline, timeout, phase: ManualDevicePhase::Prompting })
        &&& step.asks(
            seq![Notice::Section(Topic::ManualConnection)],
            Request::PromptEndpoint("Enter phone IP:port"),
        )
    }

    /// Explains what to enter, and asks for it.
    pub fn begin(baseline: Vec<String>, timeout: Nanos) -> (begun: (ManualDevice, Step))
        ensures
            Self::opens(baseline, timeout, begun.0, begun.1),
    {
        let step = Script::new().say(Notice::Section(Topic::ManualConnection)).ask(
            Request::PromptEndpoint("Enter phone IP:port"),
        );
        (ManualDevice { baseline, timeout, phase: ManualDevicePhase::Prompting }, step)
    }

    /// What a reply leads to.
    pub open spec fn leads_to(self, reply: Reply, then: ManualDevice, step: Step) -> bool {
        &&& then == ManualDevice { phase: then.phase, ..self }
        &&& match (self.phase, reply) {
            (ManualDevicePhase::Prompting, Reply::Text(endpoint)) => {
                &&& then.phase == ManualDevicePhase::Connecting
                &&& step.asks_to_connect(seq![], endpoint@, self.baseline@, self.timeout)
            },
            _ => {
                &&& then.phase == ManualDevicePhase::Over
                &&& step.gives(seq![], reply)
            },
        }
    }
}

/// Goes on with connecting to an endpoint that the user enters.
pub fn manual_connect_device(manual: &mut ManualDevice, reply: Reply) -> (step: Step)
    requires
        old(manual).expects(reply),
    ensures
        old(manual).leads_to(reply, *final(manual), step),
{
    match (manual.phase, reply) {
        (ManualDevicePhase::Prompting, Reply::Text(endpoint)) => {
            manual.phase = ManualDevicePhase::Connecting;
            Script::new().ask(
                Request::ConnectToEndpoint {
                    endpoint,
                    baseline: copy_texts(&manual.baseline),
                    timeout: manual.timeout,
                },
            )
        },
        (_, reply) => {
            manual.phase = ManualDevicePhase::Over;
            Script::new().give(reply)
        },
    }
}

/// The way to a phone by an endpoint that the user enters.
#[derive(Debug, PartialEq, Eq)]
pub struct ManualFlow {
    pub timeout: Nanos,
    pub phase: ManualFlowPhase,
}

/// What the flow is waiting for.
#[derive(Debug, Clone, Copy, PartialEq, Eq, Structural)]
pub enum ManualFlowPhase {
    Listing,
    Sorting,
    Connecting,
    Over,
}

impl ManualFlow {
    /// The replies that the flow can go on with.
    pub open spec fn expects(self, reply: Reply) -> bool {
        match self.phase {
            ManualFlowPhase::Listing => reply is Devices || reply is Failed,
            ManualFlowPhase::Sorting => reply is Texts,
            ManualFlowPhase::Connecting => reply is Device || reply is Failed,
            ManualFlowPhase::Over => false,
        }
    }

    /// Whether the reply is one of those.
    pub fn accepts(&self, reply: &Reply) -> (r: bool)
        ensures
            r == self.expects(*reply),
    {
        match (self.phase, reply) {
            (ManualFlowPhase::Listing, Reply::Devices(_) | Reply::Failed(_)) => true,
            (ManualFlowPhase::Sorting, Reply::Texts(_)) => true,
            (ManualFlowPhase::Connecting, Reply::Device(_) | Reply::Failed(_)) => true,
            _ => false,
        }
    }

    /// A flow begins in this state and with this step.
    pub open spec fn opens(timeout: Nanos, flow: Self, step: Step) -> bool {
        &&& flow == (ManualFlow { timeout, phase: ManualFlowPhase::Listing })
        &&& step.asks(seq![], Request::Devices)
    }

    /// Begins with a look at the devices that are there already.
    pub fn begin(timeout: Nanos) -> (begun: (ManualFlow, Step))
        ensures
            Self::opens(timeout, begun.0, begun.1),
    {
        let step = Script::new().ask(Request::Devices);
        (ManualFlow { timeout, phase: ManualFlowPhase::Listing }, step)
    }

    /// What a reply leads to.
    pub open spec fn leads_to(self, reply: Reply, then: ManualFlow, step: Step) -> bool {
        &&& then == ManualFlow { phase: then.phase, ..self }
        &&& match (self.phase, reply) {
            (ManualFlowPhase::Listing, _) => {
                &&& then.phase == ManualFlowPhase::Sorting
                &&& step.asks_ready_serials(seq![], reply.listed_devices())
            },
            (ManualFlowPhase::Sorting, Reply::Texts(baseline)) => {
                &&& then.phase == ManualFlowPhase::Connecting
                &&& step.asks_by_hand(seq![], baseline@, self.timeout)
            },
            (ManualFlowPhase::Connecting, Reply::Device(found)) => {
                &&& then.phase == ManualFlowPhase::Over
                &&& step.gives(seq![], Reply::Phone(device::phone_of(found)))
            },
            (ManualFlowPhase::Connecting, _) => {
                &&& then.phase == ManualFlowPhase::Over
                &&& step.gives(seq![], reply)
            },
            _ => false,
        }
    }
}

/// Goes on with the way to a phone by an endpoint that the user enters.
pub fn manual_connect_flow(flow: &mut ManualFlow, reply: Reply) -> (step: Step)
    requires
        old(flow).expects(reply),
    ensures
        old(flow).leads_to(reply, *final(flow), step),
{
    match (flow.phase, reply) {
        (ManualFlowPhase::Listing, reply) => {
            flow.phase = ManualFlowPhase::Sorting;
            Script::new().ask(Request::ReadySerials(reply.into_devices()))
        },
        (ManualFlowPhase::Sorting, Reply::Texts(baseline)) => {
            flow.phase = ManualFlowPhase::Connecting;
            Script::new().ask(Request::ManualConnectDevice { baseline, timeout: flow.timeout })
        },
        (_, Reply::Device(found)) => {
            flow.phase = ManualFlowPhase::Over;
            Script::new().give(Reply::Phone(as_phone(&found)))
        },
        (_, reply) => {
            flow.phase = ManualFlowPhase::Over;
            Script::new().give(reply)
        },
    }
}

/// A device is given up on only when its time is up, and every wait for it ends by then.
pub proof fn law_ready_device_wait_respects_its_deadline(
    wait: ReadyDeviceWait,
    reply: Reply,
    now: Nanos,
    then: ReadyDeviceWait,
    step: Step,
)
    requires
        wait.expects(reply),
        wait.leads_to(reply, now, then, step),
    ensures
        then.deadline == wait.deadline,
        step.next is Give && !(reply is Failed) && !(step.next->Give_0 is Device) ==> now
            >= wait.deadline,
        match step.next {
            Next::Ask(Request::Sleep(delay)) => now + delay <= wait.deadline && delay <= 2
                * SECOND,
            _ => true,
        },
{
}

/// The device that the wait ends with is the one that matched, whatever came before.
pub proof fn law_ready_device_wait_gives_only_what_matched(
    wait: ReadyDeviceWait,
    reply: Reply,
    now: Nanos,
    then: ReadyDeviceWait,
    step: Step,
    found: AdbDevice,
)
    requires
        wait.expects(reply),
        wait.leads_to(reply, now, then, step),
        step.next == Next::Give(Reply::Device(found)),
    ensures
        reply == Reply::MaybeDevice(Some(found)),
{
}

/// The question for an endpoint never gives an answer that is not plausible.
pub proof fn law_prompted_endpoint_is_plausible(
    prompt: EndpointPrompt,
    reply: Reply,
    then: EndpointPrompt,
    step: Step,
    answer: String,
)
    requires
        prompt.expects(reply),
        prompt.leads_to(reply, then, step),
        step.next == Next::Give(Reply::Text(answer)),
    ensures
        endpoint::plausible_endpoint(answer@),
        reply == Reply::Text(answer),
{
}

/// Every device that is listed is looked at, for the device that is waited for and against what
/// was there before; only a listing that failed counts as empty.
pub proof fn law_ready_device_wait_looks_at_what_is_listed(
    wait: ReadyDeviceWait,
    reply: Reply,
    now: Nanos,
    then: ReadyDeviceWait,
    step: Step,
)
    requires
        wait.expects(reply),
        wait.leads_to(reply, now, then, step),
        wait.phase == ReadyDevicePhase::Listing,
    ensures
        match step.next {
            Next::Ask(Request::MatchReadyDevice { devices, expected_serial, baseline }) => {
                &&& expected_serial@ == wait.expected_serial@
                &&& baseline@ == wait.baseline@
                &&& match reply {
                    Reply::Devices(listed) => devices@ == listed@,
                    _ => reply is Failed && devices@.len() == 0,
                }
            },
            _ => false,
        },
{
}

/// A device that matches ends the wait at once, under its own name; without one the wait sleeps
/// as long as it may, or fails in the name of the device that did not come.
pub proof fn law_ready_device_wait_ends_with_a_match_or_in_time(
    wait: ReadyDeviceWait,
    matched: Option<AdbDevice>,
    now: Nanos,
    then: ReadyDeviceWait,
    step: Step,
)
    requires
        wait.expects(Reply::MaybeDevice(matched)),
        wait.leads_to(Reply::MaybeDevice(matched), now, then, step),
    ensures
        match (matched, step.next) {
            (Some(found), Next::Give(result)) => {
                &&& result == Reply::Device(found)
                &&& step.script@.last() == Notice::Success(
                    "ADB device is ready: "@ + found.display_name@,
                )
            },
            (None, Next::Ask(Request::Sleep(span))) => {
                &&& now < wait.deadline
                &&& now + span <= wait.deadline
                &&& span == 2 * SECOND || (span < 2 * SECOND && now + span == wait.deadline)
            },
            (None, Next::Give(Reply::Failed(failure))) => {
                &&& now >= wait.deadline
                &&& !failure.cancelled
                &&& failure.message@ == "timed out waiting for "@ + wait.expected_serial@
                    + " to appear in adb devices"@
            },
            _ => false,
        },
{
}

/// Between two looks the wait shows the time that is left and lists the devices again; a
/// failure there ends it, as it came.
pub proof fn law_ready_device_wait_goes_round(
    wait: ReadyDeviceWait,
    reply: Reply,
    now: Nanos,
    then: ReadyDeviceWait,
    step: Step,
)
    requires
        wait.expects(reply),
        wait.leads_to(reply, now, then, step),
        wait.phase == ReadyDevicePhase::Ticking || wait.phase == ReadyDevicePhase::Sleeping,
    ensures
        then.expected_serial == wait.expected_serial,
        then.baseline == wait.baseline,
        match step.next {
            Next::Give(result) => reply is Failed && result == reply,
            Next::Ask(Request::Devices) => reply is Done && wait.phase
                == ReadyDevicePhase::Ticking && then.phase == ReadyDevicePhase::Listing,
            Next::Ask(Request::Tick(left)) => {
                &&& reply is Done
                &&& wait.phase == ReadyDevicePhase::Sleeping
                &&& then.phase == ReadyDevicePhase::Ticking
                &&& if now < wait.deadline {
                    now + left == wait.deadline
                } else {
                    left == 0
                }
            },
            _ => false,
        },
{
}

/// A connection hands on exactly what it got: the output of the bridge to find the serial in,
/// that serial, or else the endpoint itself, to wait for, and the outcome of the wait.
pub proof fn law_connection_waits_for_the_device_that_was_named(
    connection: EndpointConnection,
    reply: Reply,
    then: EndpointConnection,
    step: Step,
)
    requires
        connection.expects(reply),
        connection.leads_to(reply, then, step),
    ensures
        then.endpoint == connection.endpoint,
        then.baseline == connection.baseline,
        then.timeout == connection.timeout,
        match (reply, step.next) {
            (Reply::Text(output), Next::Ask(Request::SerialFromOutput(read))) => read@ == output@,
            (
                Reply::MaybeText(named),
                Next::Ask(Request::WaitForReadyDevice { expected_serial, baseline, timeout }),
            ) => {
                &&& named is Some ==> expected_serial@ == named->0@
                &&& named is None ==> expected_serial@ == connection.endpoint@
                &&& baseline@ == connection.baseline@
                &&& timeout == connection.timeout
            },
            (Reply::Device(found), Next::Give(Reply::Device(given))) => given == found,
            (Reply::Failed(failure), Next::Give(Reply::Failed(given))) => given == failure,
            _ => false,
        },
{
}

/// The user is asked the same question again exactly as long as the answers are not plausible.
pub proof fn law_prompt_ends_with_the_first_plausible_answer(
    prompt: EndpointPrompt,
    reply: Reply,
    then: EndpointPrompt,
    step: Step,
)
    requires
        prompt.expects(reply),
        prompt.leads_to(reply, then, step),
    ensures
        match (reply, step.next) {
            (Reply::Text(answer), Next::Give(result)) => endpoint::plausible_endpoint(answer@)
                && result == reply,
            (Reply::Text(answer), Next::Ask(Request::Prompt(label))) => {
                &&& !endpoint::plausible_endpoint(answer@)
                &&& label@ == prompt.label@
                &&& then.label@ == prompt.label@
                &&& step.warns()
                &&& then.expects(reply)
            },
            (Reply::Failed(_), Next::Give(result)) => result == reply,
            _ => false,
        },
{
    assert(reply is Text && step.next is Ask ==> step.script@[0] is Warning);
}

/// What the user entered is what is connected to, and what came of that is the result.
pub proof fn law_manual_device_is_the_one_that_was_entered(
    manual: ManualDevice,
    reply: Reply,
    then: ManualDevice,
    step: Step,
)
    requires
        manual.expects(reply),
        manual.leads_to(reply, then, step),
    ensures
        match (reply, step.next) {
            (
                Reply::Text(entered),
                Next::Ask(Request::ConnectToEndpoint { endpoint, baseline, timeout }),
            ) => {
                &&& endpoint@ == entered@
                &&& baseline@ == manual.baseline@
                &&& timeout == manual.timeout
            },
            (Reply::Device(_), Next::Give(result)) => result == reply,
            (Reply::Failed(_), Next::Give(result)) => result == reply,
            _ => false,
        },
{
}

/// A connection by hand is compared with the devices that were ready before, and ends with the
/// phone that the connected device is.
pub proof fn law_manual_flow_hands_on_what_it_got(
    flow: ManualFlow,
    reply: Reply,
    then: ManualFlow,
    step: Step,
)
    requires
        flow.expects(reply),
        flow.leads_to(reply, then, step),
    ensures
        then.timeout == flow.timeout,
        match (reply, step.next) {
            (Reply::Devices(listed), Next::Ask(Request::ReadySerials(devices))) => devices@
                == listed@,
            (Reply::Failed(_), Next::Ask(Request::ReadySerials(devices))) => flow.phase
                == ManualFlowPhase::Listing && devices@.len() == 0,
            (Reply::Texts(ready), Next::Ask(Request::ManualConnectDevice { baseline, timeout })) => {
                baseline@ == ready@ && timeout == flow.timeout
            },
            (Reply::Device(found), Next::Give(Reply::Phone(phone))) => phone.serial
                == found.serial && phone.display_name == found.display_name,
            (Reply::Failed(_), Next::Give(result)) => flow.phase == ManualFlowPhase::Connecting
                && result == reply,
            _ => false,
        },
{
}

/// The countdown line is given up before anything else is said, and before the wait ends, unless
/// showing the time is what failed; as long as the wait goes on, it says nothing.
pub proof fn law_ready_device_wait_gives_its_line_up(
    wait: ReadyDeviceWait,
    reply: Reply,
    now: Nanos,
    then: ReadyDeviceWait,
    step: Step,
)
    requires
        wait.expects(reply),
        wait.leads_to(reply, now, then, step),
    ensures
        match step.next {
            Next::Ask(_) => step.script@.len() == 0,
            Next::Give(_) => if wait.phase == ReadyDevicePhase::Ticking {
                step.script@.len() == 0
            } else {
                step.script@.first() == Notice::<Seq<char>>::CountdownEnds
            },
        },
{
}

} // verus!
