//! The program as one: its flows, each of which waits for the one above it.

use vstd::pervasive::unreached;
use vstd::prelude::*;

use crate::cli::Args;
use crate::clock::{Nanos, SECOND};
use crate::connect::{
    connect_to_endpoint, manual_connect_device, manual_connect_flow, prompt_endpoint,
    wait_for_ready_device, EndpointConnection, EndpointPhase, EndpointPrompt, ManualDevice,
    ManualDevicePhase, ManualFlow, ManualFlowPhase, ReadyDeviceWait,
};
use crate::dialogue::{Next, Notice, Reply, Request, Script, Step};
use crate::discovery;
use crate::discovery::{
    try_direct_bonjour_connect, try_ui_hierarchy_connect, BonjourAttempt, BonjourPhase,
    ScreenAttempt, ScreenPhase,
};
use crate::flows::{
    pair_and_connect, pairing_code_flow, retrying_pairing_flow, CodePairing, CodePairingPhase,
    PairingRetry, QrPairing, QrPairingPhase, RetryPhase,
};
use crate::mirror::{
    connected_phone_menu, handle_connected_phone, resolve_scrcpy, start_scrcpy_background,
    start_scrcpy_foreground, PhoneHandling, PhoneMenu, PhoneMenuPhase, ScrcpySearch, ScrcpyStart,
    ScrcpyStartPhase,
};
use crate::path;
use crate::pairing::{wait_for_pairing_endpoint, PairingWait};
use crate::search::{connect_and_wait_for_device, DeviceSearch, SearchPhase};
use crate::startup::{
    reset_adb_server, run, startup_device_choice, wait_for_startup_connected_phones,
    warn_if_mdns_check_fails, DiscoveryCheck, ServerReset, Session, SessionPhase, StartupChoice,
    StartupChoicePhase, StartupWait,
};

verus! {

/// The longest time that a flow can be told to wait for something.
pub open spec fn longest() -> int {
    u64::MAX * SECOND
}

/// One of the flows.
#[derive(Debug, PartialEq, Eq)]
pub enum Flow {
    Session(Session),
    ServerReset(ServerReset),
    DiscoveryCheck(DiscoveryCheck),
    StartupWait(StartupWait),
    StartupChoice(StartupChoice),
    PairingRetry(PairingRetry),
    QrPairing(QrPairing),
    CodePairing(CodePairing),
    PairingWait(PairingWait),
    DeviceSearch(DeviceSearch),
    BonjourAttempt(BonjourAttempt),
    ScreenAttempt(ScreenAttempt),
    ManualFlow(ManualFlow),
    ManualDevice(ManualDevice),
    EndpointPrompt(EndpointPrompt),
    EndpointConnection(EndpointConnection),
    ReadyDeviceWait(ReadyDeviceWait),
    PhoneHandling(PhoneHandling),
    PhoneMenu(PhoneMenu),
    ScrcpySearch(ScrcpySearch),
    BackgroundStart(ScrcpyStart),
    ForegroundStart(ScrcpyStart),
}

impl Flow {
    /// The flow is in a state that it can be in.
    pub open spec fn wf(self) -> bool {
        match self {
            Flow::DeviceSearch(flow) => flow.wf(),
            Flow::BonjourAttempt(flow) => flow.wf(),
            Flow::ScreenAttempt(flow) => flow.wf(),
            Flow::BackgroundStart(flow) => flow.wf(),
            Flow::ForegroundStart(flow) => flow.wf(),
            _ => true,
        }
    }

    /// The replies that the flow can go on with.
    pub open spec fn expects(self, reply: Reply) -> bool {
        match self {
            Flow::Session(flow) => flow.expects(reply),
            Flow::ServerReset(flow) => flow.expects(reply),
            Flow::DiscoveryCheck(flow) => flow.expects(reply),
            Flow::StartupWait(flow) => flow.expects(reply),
            Flow::StartupChoice(flow) => flow.expects(reply),
            Flow::PairingRetry(flow) => flow.expects(reply),
            Flow::QrPairing(flow) => flow.expects(reply),
            Flow::CodePairing(flow) => flow.expects(reply),
            Flow::PairingWait(flow) => flow.expects(reply),
            Flow::DeviceSearch(flow) => flow.expects(reply),
            Flow::BonjourAttempt(flow) => flow.expects(reply),
            Flow::ScreenAttempt(flow) => flow.expects(reply),
            Flow::ManualFlow(flow) => flow.expects(reply),
            Flow::ManualDevice(flow) => flow.expects(reply),
            Flow::EndpointPrompt(flow) => flow.expects(reply),
            Flow::EndpointConnection(flow) => flow.expects(reply),
            Flow::ReadyDeviceWait(flow) => flow.expects(reply),
            Flow::PhoneHandling(flow) => flow.expects(reply),
            Flow::PhoneMenu(flow) => flow.expects(reply),
            Flow::ScrcpySearch(flow) => flow.expects(reply),
            Flow::BackgroundStart(flow) => flow.expects_background(reply),
            Flow::ForegroundStart(flow) => flow.expects_foreground(reply),
        }
    }

    /// Whether the reply is one of those.
    pub fn accepts(&self, reply: &Reply) -> (r: bool)
        ensures
            r == self.expects(*reply),
    {
        match self {
            Flow::Session(flow) => flow.accepts(reply),
            Flow::ServerReset(flow) => flow.accepts(reply),
            Flow::DiscoveryCheck(flow) => flow.accepts(reply),
            Flow::StartupWait(flow) => flow.accepts(reply),
            Flow::StartupChoice(flow) => flow.accepts(reply),
            Flow::PairingRetry(flow) => flow.accepts(reply),
            Flow::QrPairing(flow) => flow.accepts(reply),
            Flow::CodePairing(flow) => flow.accepts(reply),
            Flow::PairingWait(flow) => flow.accepts(reply),
            Flow::DeviceSearch(flow) => flow.accepts(reply),
            Flow::BonjourAttempt(flow) => flow.accepts(reply),
            Flow::ScreenAttempt(flow) => flow.accepts(reply),
            Flow::ManualFlow(flow) => flow.accepts(reply),
            Flow::ManualDevice(flow) => flow.accepts(reply),
            Flow::EndpointPrompt(flow) => flow.accepts(reply),
            Flow::EndpointConnection(flow) => flow.accepts(reply),
            Flow::ReadyDeviceWait(flow) => flow.accepts(reply),
            Flow::PhoneHandling(flow) => flow.accepts(reply),
            Flow::PhoneMenu(flow) => flow.accepts(reply),
            Flow::ScrcpySearch(flow) => flow.accepts(reply),
            Flow::BackgroundStart(flow) => flow.accepts_background(reply),
            Flow::ForegroundStart(flow) => flow.accepts_foreground(reply),
        }
    }

    /// What a reply leads to.
    pub open spec fn leads_to(self, reply: Reply, now: Nanos, then: Flow, step: Step) -> bool {
        match (self, then) {
            (Flow::Session(flow), Flow::Session(then)) => flow.leads_to(reply, then, step),
            (Flow::ServerReset(flow), Flow::ServerReset(then)) => flow.leads_to(reply, then, step),
            (Flow::DiscoveryCheck(flow), Flow::DiscoveryCheck(then)) => flow.leads_to(
                reply,
                then,
                step,
            ),
            (Flow::StartupWait(flow), Flow::StartupWait(then)) => flow.leads_to(
                reply,
                now,
                then,
                step,
            ),
            (Flow::StartupChoice(flow), Flow::StartupChoice(then)) => flow.leads_to(
                reply,
                then,
                step,
            ),
            (Flow::PairingRetry(flow), Flow::PairingRetry(then)) => flow.leads_to(
                reply,
                then,
                step,
            ),
            (Flow::QrPairing(flow), Flow::QrPairing(then)) => flow.leads_to(reply, then, step),
            (Flow::CodePairing(flow), Flow::CodePairing(then)) => flow.leads_to(reply, then, step),
            (Flow::PairingWait(flow), Flow::PairingWait(then)) => flow.leads_to(
                reply,
                now,
                then,
                step,
            ),
            (Flow::DeviceSearch(flow), Flow::DeviceSearch(then)) => flow.leads_to(
                reply,
                now,
                then,
                step,
            ),
            (Flow::BonjourAttempt(flow), Flow::BonjourAttempt(then)) => flow.leads_to(
                reply,
                then,
                step,
            ),
            (Flow::ScreenAttempt(flow), Flow::ScreenAttempt(then)) => flow.leads_to(
                reply,
                then,
                step,
            ),
            (Flow::ManualFlow(flow), Flow::ManualFlow(then)) => flow.leads_to(reply, then, step),
            (Flow::ManualDevice(flow), Flow::ManualDevice(then)) => flow.leads_to(
                reply,
                then,
                step,
            ),
            (Flow::EndpointPrompt(flow), Flow::EndpointPrompt(then)) => flow.leads_to(
                reply,
                then,
                step,
            ),
            (Flow::EndpointConnection(flow), Flow::EndpointConnection(then)) => flow.leads_to(
                reply,
                then,
                step,
            ),
            (Flow::ReadyDeviceWait(flow), Flow::ReadyDeviceWait(then)) => flow.leads_to(
                reply,
                now,
                then,
                step,
            ),
            (Flow::PhoneHandling(flow), Flow::PhoneHandling(then)) => flow.leads_to(
                reply,
                then,
                step,
            ),
            (Flow::PhoneMenu(flow), Flow::PhoneMenu(then)) => flow.leads_to(reply, then, step),
            (Flow::ScrcpySearch(flow), Flow::ScrcpySearch(then)) => flow.leads_to(
                reply,
                then,
                step,
            ),
            (Flow::BackgroundStart(flow), Flow::BackgroundStart(then)) => flow.leads_to_background(
                reply,
                then,
                step,
            ),
            (Flow::ForegroundStart(flow), Flow::ForegroundStart(then)) => flow.leads_to_foreground(
                reply,
                then,
                step,
            ),
            _ => false,
        }
    }

    /// Goes on with the flow.
    fn go_on(&mut self, reply: Reply, now: Nanos) -> (step: Step)
        requires
            old(self).wf(),
            old(self).expects(reply),
        ensures
            final(self).wf(),
            old(self).leads_to(reply, now, *final(self), step),
    {
        match self {
            Flow::Session(flow) => run(flow, reply),
            Flow::ServerReset(flow) => reset_adb_server(flow, reply),
            Flow::DiscoveryCheck(flow) => warn_if_mdns_check_fails(flow, reply),
            Flow::StartupWait(flow) => wait_for_startup_connected_phones(flow, reply, now),
            Flow::StartupChoice(flow) => startup_device_choice(flow, reply),
            Flow::PairingRetry(flow) => retrying_pairing_flow(flow, reply),
            Flow::QrPairing(flow) => pair_and_connect(flow, reply),
            Flow::CodePairing(flow) => pairing_code_flow(flow, reply),
            Flow::PairingWait(flow) => wait_for_pairing_endpoint(flow, reply, now),
            Flow::DeviceSearch(flow) => connect_and_wait_for_device(flow, reply, now),
            Flow::BonjourAttempt(flow) => try_direct_bonjour_connect(flow, reply),
            Flow::ScreenAttempt(flow) => try_ui_hierarchy_connect(flow, reply),
            Flow::ManualFlow(flow) => manual_connect_flow(flow, reply),
            Flow::ManualDevice(flow) => manual_connect_device(flow, reply),
            Flow::EndpointPrompt(flow) => prompt_endpoint(flow, reply),
            Flow::EndpointConnection(flow) => connect_to_endpoint(flow, reply),
            Flow::ReadyDeviceWait(flow) => wait_for_ready_device(flow, reply, now),
            Flow::PhoneHandling(flow) => handle_connected_phone(flow, reply),
            Flow::PhoneMenu(flow) => connected_phone_menu(flow, reply),
            Flow::ScrcpySearch(flow) => resolve_scrcpy(flow, reply),
            Flow::BackgroundStart(flow) => start_scrcpy_background(flow, reply),
            Flow::ForegroundStart(flow) => start_scrcpy_foreground(flow, reply),
        }
    }
}

/// The flow that does what is asked for begins in this state and with this step.
pub open spec fn begins(
    request: Request,
    args: Args,
    now: Nanos,
    flow: Flow,
    step: Step,
) -> bool {
    match (request, flow) {
        (Request::ResetAdbServer, Flow::ServerReset(flow)) => ServerReset::opens(flow, step),
        (Request::WarnIfMdnsCheckFails, Flow::DiscoveryCheck(flow)) => DiscoveryCheck::opens(
            flow,
            step,
        ),
        (Request::StartupDeviceChoice, Flow::StartupChoice(flow)) => StartupChoice::opens(
            flow,
            step,
        ),
        (Request::WaitForStartupConnectedPhones(timeout), Flow::StartupWait(flow)) => {
            StartupWait::opens(timeout, now, flow, step)
        },
        (Request::RetryingPairingFlow(timeout), Flow::PairingRetry(flow)) => PairingRetry::opens(
            timeout,
            flow,
            step,
        ),
        (Request::PairAndConnect(timeout), Flow::QrPairing(flow)) => QrPairing::opens(
            timeout,
            flow,
            step,
        ),
        (Request::ManualConnectFlow(timeout), Flow::ManualFlow(flow)) => ManualFlow::opens(
            timeout,
            flow,
            step,
        ),
        (Request::PairingCodeFlow(timeout), Flow::CodePairing(flow)) => CodePairing::opens(
            timeout,
            flow,
            step,
        ),
        (Request::PromptEndpoint(label), Flow::EndpointPrompt(flow)) => EndpointPrompt::opens(
            label,
            flow,
            step,
        ),
        (Request::ManualConnectDevice { baseline, timeout }, Flow::ManualDevice(flow)) => {
            ManualDevice::opens(baseline, timeout, flow, step)
        },
        (
            Request::ConnectToEndpoint { endpoint, baseline, timeout },
            Flow::EndpointConnection(flow),
        ) => EndpointConnection::opens(endpoint, baseline, timeout, flow, step),
        (
            Request::WaitForReadyDevice { expected_serial, baseline, timeout },
            Flow::ReadyDeviceWait(flow),
        ) => ReadyDeviceWait::opens(expected_serial, baseline, timeout, now, flow, step),
        (Request::WaitForPairingEndpoint { instance, timeout }, Flow::PairingWait(flow)) => {
            PairingWait::opens(instance, timeout, now, flow, step)
        },
        (
            Request::ConnectAndWaitForDevice {
                pairing_address,
                baseline_services,
                baseline,
                timeout,
            },
            Flow::DeviceSearch(flow),
        ) => DeviceSearch::opens(
            pairing_address,
            baseline_services,
            baseline,
            timeout,
            now,
            flow,
            step,
        ),
        (
            Request::TryDirectBonjourConnect { pairing_address, baseline, skipped, timeout },
            Flow::BonjourAttempt(flow),
        ) => BonjourAttempt::opens(pairing_address, baseline, skipped, timeout, flow, step),
        (Request::TryUiHierarchyConnect { baseline, timeout }, Flow::ScreenAttempt(flow)) => {
            ScreenAttempt::opens(baseline, timeout, flow, step)
        },
        (Request::HandleConnectedPhone(phone), Flow::PhoneHandling(flow)) => PhoneHandling::opens(
            phone,
            args,
            flow,
            step,
        ),
        (Request::ConnectedPhoneMenu(phone), Flow::PhoneMenu(flow)) => PhoneMenu::opens(
            phone,
            flow,
            step,
        ),
        (Request::StartScrcpyBackground(phone), Flow::BackgroundStart(flow)) => ScrcpyStart::opens(
            phone,
            args,
            flow,
            step,
        ),
        (Request::StartScrcpyForeground(phone), Flow::ForegroundStart(flow)) => ScrcpyStart::opens(
            phone,
            args,
            flow,
            step,
        ),
        (Request::ResolveScrcpy, Flow::ScrcpySearch(flow)) => ScrcpySearch::opens(
            args,
            flow,
            step,
        ),
        _ => false,
    }
}

/// The time that a request allows.
pub open spec fn allows(request: Request) -> Nanos {
    match request {
        Request::WaitForStartupConnectedPhones(timeout)
        | Request::RetryingPairingFlow(timeout)
        | Request::PairAndConnect(timeout)
        | Request::ManualConnectFlow(timeout)
        | Request::PairingCodeFlow(timeout) => timeout,
        Request::ManualConnectDevice { timeout, .. } => timeout,
        Request::ConnectToEndpoint { timeout, .. } => timeout,
        Request::WaitForReadyDevice { timeout, .. } => timeout,
        Request::WaitForPairingEndpoint { timeout, .. } => timeout,
        Request::ConnectAndWaitForDevice { timeout, .. } => timeout,
        Request::TryDirectBonjourConnect { timeout, .. } => timeout,
        Request::TryUiHierarchyConnect { timeout, .. } => timeout,
        _ => 0,
    }
}

/// Begins the flow that does what is asked for.
fn begin_flow(request: Request, args: &Args, now: Nanos) -> (begun: (Flow, Step))
    requires
        request.is_flow(),
        allows(request) <= longest(),
        now + longest() <= Nanos::MAX,
    ensures
        begun.0.wf(),
        begins(request, *args, now, begun.0, begun.1),
{
    match request {
        Request::ResetAdbServer => {
            let (flow, step) = ServerReset::begin();
            (Flow::ServerReset(flow), step)
        },
        Request::WarnIfMdnsCheckFails => {
            let (flow, step) = DiscoveryCheck::begin();
            (Flow::DiscoveryCheck(flow), step)
        },
        Request::StartupDeviceChoice => {
            let (flow, step) = StartupChoice::begin();
            (Flow::StartupChoice(flow), step)
        },
        Request::WaitForStartupConnectedPhones(timeout) => {
            let (flow, step) = StartupWait::begin(timeout, now);
            (Flow::StartupWait(flow), step)
        },
        Request::RetryingPairingFlow(timeout) => {
            let (flow, step) = PairingRetry::begin(timeout);
            (Flow::PairingRetry(flow), step)
        },
        Request::PairAndConnect(timeout) => {
            let (flow, step) = QrPairing::begin(timeout);
            (Flow::QrPairing(flow), step)
        },
        Request::ManualConnectFlow(timeout) => {
            let (flow, step) = ManualFlow::begin(timeout);
            (Flow::ManualFlow(flow), step)
        },
        Request::PairingCodeFlow(timeout) => {
            let (flow, step) = CodePairing::begin(timeout);
            (Flow::CodePairing(flow), step)
        },
        Request::PromptEndpoint(label) => {
            let (flow, step) = EndpointPrompt::begin(label);
            (Flow::EndpointPrompt(flow), step)
        },
        Request::ManualConnectDevice { baseline, timeout } => {
            let (flow, step) = ManualDevice::begin(baseline, timeout);
            (Flow::ManualDevice(flow), step)
        },
        Request::ConnectToEndpoint { endpoint, baseline, timeout } => {
            let (flow, step) = EndpointConnection::begin(endpoint, baseline, timeout);
            (Flow::EndpointConnection(flow), step)
        },
        Request::WaitForReadyDevice { expected_serial, baseline, timeout } => {
            let (flow, step) = ReadyDeviceWait::begin(expected_serial, baseline, timeout, now);
            (Flow::ReadyDeviceWait(flow), step)
        },
        Request::WaitForPairingEndpoint { instance, timeout } => {
            let (flow, step) = PairingWait::begin(instance, timeout, now);
            (Flow::PairingWait(flow), step)
        },
        Request::ConnectAndWaitForDevice {
            pairing_address,
            baseline_services,
            baseline,
            timeout,
        } => {
            let (flow, step) = DeviceSearch::begin(
                pairing_address,
                baseline_services,
                baseline,
                timeout,
                now,
            );
            (Flow::DeviceSearch(flow), step)
        },
        Request::TryDirectBonjourConnect { pairing_address, baseline, skipped, timeout } => {
            let (flow, step) = BonjourAttempt::begin(pairing_address, baseline, skipped, timeout);
            (Flow::BonjourAttempt(flow), step)
        },
        Request::TryUiHierarchyConnect { baseline, timeout } => {
            let (flow, step) = ScreenAttempt::begin(baseline, timeout);
            (Flow::ScreenAttempt(flow), step)
        },
        Request::HandleConnectedPhone(phone) => {
            let (flow, step) = PhoneHandling::begin(phone, args);
            (Flow::PhoneHandling(flow), step)
        },
        Request::ConnectedPhoneMenu(phone) => {
            let (flow, step) = PhoneMenu::begin(phone);
            (Flow::PhoneMenu(flow), step)
        },
        Request::StartScrcpyBackground(phone) => {
            let (flow, step) = ScrcpyStart::begin(phone, args);
            (Flow::BackgroundStart(flow), step)
        },
        Request::StartScrcpyForeground(phone) => {
            let (flow, step) = ScrcpyStart::begin(phone, args);
            (Flow::ForegroundStart(flow), step)
        },
        Request::ResolveScrcpy => {
            let (flow, step) = ScrcpySearch::begin(args);
            (Flow::ScrcpySearch(flow), step)
        },
        _ => unreached(),
    }
}

impl Flow {
    /// The flow can end with this result.
    pub open spec fn may_give(self, result: Reply) -> bool {
        match self {
            Flow::DiscoveryCheck(_) => result is Done,
            Flow::Session(_)
            | Flow::ServerReset(_)
            | Flow::PhoneHandling(_)
            | Flow::PhoneMenu(_)
            | Flow::BackgroundStart(_)
            | Flow::ForegroundStart(_) => result is Done || result is Failed,
            Flow::StartupWait(_) => result is Phones || result is Failed,
            Flow::StartupChoice(_) => result is Startup || result is Failed,
            Flow::PairingRetry(_)
            | Flow::QrPairing(_)
            | Flow::CodePairing(_)
            | Flow::ManualFlow(_) => result is Phone || result is Failed,
            Flow::PairingWait(_) => result is Pairing || result is Failed,
            Flow::BonjourAttempt(_) | Flow::ScreenAttempt(_) => result is MaybeDevice
                || result is Failed,
            Flow::DeviceSearch(_)
            | Flow::ManualDevice(_)
            | Flow::EndpointConnection(_)
            | Flow::ReadyDeviceWait(_) => result is Device || result is Failed,
            Flow::EndpointPrompt(_) => result is Text || result is Failed,
            Flow::ScrcpySearch(_) => result is Scrcpy || result is Failed,
        }
    }

    /// The time that the flow may pass on to others.
    pub open spec fn limit(self) -> Nanos {
        match self {
            Flow::Session(flow) => flow.timeout,
            Flow::PairingRetry(flow) => flow.timeout,
            Flow::QrPairing(flow) => flow.timeout,
            Flow::CodePairing(flow) => flow.timeout,
            Flow::DeviceSearch(flow) => flow.timeout,
            Flow::BonjourAttempt(flow) => flow.timeout,
            Flow::ScreenAttempt(flow) => flow.timeout,
            Flow::ManualFlow(flow) => flow.timeout,
            Flow::ManualDevice(flow) => flow.timeout,
            Flow::EndpointConnection(flow) => flow.timeout,
            _ => 0,
        }
    }

    /// The connections that the search tries cannot be counted any further.
    pub open spec fn out_of_attempts(self) -> bool {
        match self {
            Flow::DeviceSearch(search) => !search.can_try(),
            _ => false,
        }
    }

    /// A bound on how many flows can begin and go on in a row, without anything from outside,
    /// once the flow that this one waits for has ended. It is zero if this one waits for
    /// something from outside.
    pub open spec fn momentum(self) -> int {
        match self {
            Flow::Session(flow) => match flow.phase {
                SessionPhase::Resetting => 17,
                SessionPhase::Checking => 15,
                SessionPhase::Choosing => 11,
                SessionPhase::Pairing => 7,
                SessionPhase::Using => 1,
                _ => 0,
            },
            Flow::StartupChoice(flow) => if flow.phase == StartupChoicePhase::Waiting {
                1
            } else {
                0
            },
            Flow::PairingRetry(flow) => match flow.phase {
                RetryPhase::Pairing => 1,
                RetryPhase::Manual => 3,
                RetryPhase::Checking => 3,
                RetryPhase::Resetting => 5,
                _ => 0,
            },
            Flow::QrPairing(flow) => match flow.phase {
                QrPairingPhase::WaitingForScan | QrPairingPhase::Searching => 1,
                _ => 0,
            },
            Flow::CodePairing(flow) => match flow.phase {
                CodePairingPhase::PromptingPairingEndpoint
                | CodePairingPhase::PromptingEndpoint
                | CodePairingPhase::Connecting => 1,
                _ => 0,
            },
            Flow::DeviceSearch(flow) => match flow.phase {
                SearchPhase::SearchingBonjour | SearchPhase::BonjourAfterFailure => 9,
                SearchPhase::ScreensAfterFailure | SearchPhase::ScreensAtDeadline => 7,
                SearchPhase::Manual => 1,
                _ => 0,
            },
            Flow::BonjourAttempt(flow) => if flow.phase == BonjourPhase::Connecting {
                2 * (flow.endpoints@.len() - flow.position)
            } else {
                0
            },
            Flow::ScreenAttempt(flow) => if flow.phase == ScreenPhase::Connecting {
                2 * (flow.endpoints@.len() - flow.endpoint_at)
            } else {
                0
            },
            Flow::ManualFlow(flow) => if flow.phase == ManualFlowPhase::Connecting {
                1
            } else {
                0
            },
            Flow::ManualDevice(flow) => match flow.phase {
                ManualDevicePhase::Prompting => 3,
                ManualDevicePhase::Connecting => 1,
                _ => 0,
            },
            Flow::EndpointConnection(flow) => if flow.phase == EndpointPhase::Waiting {
                1
            } else {
                0
            },
            Flow::PhoneHandling(flow) => if flow.over {
                0
            } else {
                1
            },
            Flow::PhoneMenu(flow) => match flow.phase {
                PhoneMenuPhase::Leaving | PhoneMenuPhase::Mirroring => 1,
                _ => 0,
            },
            Flow::BackgroundStart(flow) => if flow.phase == ScrcpyStartPhase::Resolving {
                1
            } else {
                0
            },
            Flow::ForegroundStart(flow) => if flow.phase == ScrcpyStartPhase::Resolving {
                1
            } else {
                0
            },
            _ => 0,
        }
    }

    /// This flow can go on with whatever the request can be answered by.
    pub open spec fn waits_for(self, request: Request) -> bool {
        forall|reply: Reply| #[trigger]
            request.answered_by(reply) ==> self.expects(reply) || self.out_of_attempts()
    }

    /// This flow can go on with whatever the other one can end with.
    pub open spec fn waits_for_flow(self, other: Flow) -> bool {
        forall|result: Reply| #[trigger] other.may_give(result) ==> self.expects(result)
    }
}

/// A bound on how many flows can begin and go on in a row, without anything from outside, once
/// this is asked for.
pub open spec fn weight(next: Next) -> int {
    match next {
        Next::Ask(request) => match request {
            Request::StartupDeviceChoice
            | Request::RetryingPairingFlow(_)
            | Request::PairingCodeFlow(_)
            | Request::StartScrcpyBackground(_)
            | Request::StartScrcpyForeground(_) => 3,
            Request::ManualConnectDevice { .. } | Request::HandleConnectedPhone(_) => 5,
            _ => if request.is_flow() {
                1
            } else {
                0
            },
        },
        Next::Give(_) => 0,
    }
}

/// What a step of a flow in this state asks for, it can go on with; what it gives is what it
/// may give; and it asks for no more time than it was given.
pub open spec fn is_sound(flow: Flow, step: Step) -> bool {
    &&& flow.limit() <= longest()
    &&& match step.next {
        Next::Ask(request) => is_sound_request(flow, request),
        Next::Give(result) => flow.may_give(result),
    }
}

/// What a flow in this state asks for, it can go on with, and it asks for no more time than
/// there is.
pub open spec fn is_sound_request(flow: Flow, request: Request) -> bool {
    &&& flow.waits_for(request)
    &&& allows(request) <= longest()
    &&& request.is_flow() ==> flow.momentum() > 0
    &&& request.is_flow() ==> forall|result: Reply| #[trigger]
        request.answered_by(result) ==> flow.expects(result)
}

proof fn lemma_begin(request: Request, args: Args, now: Nanos, flow: Flow, step: Step)
    requires
        begins(request, args, now, flow, step),
        allows(request) <= longest(),
    ensures
        is_sound(flow, step),
        flow.momentum() + weight(step.next) < weight(Next::Ask(request)),
        forall|result: Reply| #[trigger] flow.may_give(result) ==> request.answered_by(result),
{
    lemma_menu(step);
}

/// A menu has as many options as their texts.
proof fn lemma_menu(step: Step)
    ensures
        match step.next {
            Next::Ask(Request::Menu(options)) => options@.len() == options.deep_view().len(),
            _ => true,
        },
{
}

/// A step that this flow takes to that state is sound, keeps what the flow may give, and loses
/// momentum.
pub open spec fn goes_well(flow: Flow, then: Flow, step: Step) -> bool {
    &&& is_sound(then, step)
    &&& flow.momentum() > 0 ==> then.momentum() + weight(step.next) < flow.momentum()
    &&& forall|result: Reply| #[trigger] then.may_give(result) == flow.may_give(result)
}

proof fn lemma_step_startup(flow: Flow, reply: Reply, now: Nanos, then: Flow, step: Step)
    requires
        flow.wf(),
        flow.expects(reply),
        flow.leads_to(reply, now, then, step),
        flow.limit() <= longest(),
        flow is Session
            || flow is ServerReset
            || flow is DiscoveryCheck
            || flow is StartupWait
            || flow is StartupChoice,
    ensures
        goes_well(flow, then, step),
{
    lemma_menu(step);
}

proof fn lemma_step_flows(flow: Flow, reply: Reply, now: Nanos, then: Flow, step: Step)
    requires
        flow.wf(),
        flow.expects(reply),
        flow.leads_to(reply, now, then, step),
        flow.limit() <= longest(),
        flow is PairingRetry
            || flow is QrPairing
            || flow is CodePairing,
    ensures
        goes_well(flow, then, step),
{
    lemma_menu(step);
}

proof fn lemma_step_wait(flow: Flow, reply: Reply, now: Nanos, then: Flow, step: Step)
    requires
        flow.wf(),
        flow.expects(reply),
        flow.leads_to(reply, now, then, step),
        flow.limit() <= longest(),
        flow is PairingWait,
    ensures
        goes_well(flow, then, step),
{
    lemma_menu(step);
}

proof fn lemma_step_search(flow: Flow, reply: Reply, now: Nanos, then: Flow, step: Step)
    requires
        flow.wf(),
        flow.expects(reply),
        flow.leads_to(reply, now, then, step),
        flow.limit() <= longest(),
        flow is DeviceSearch,
    ensures
        goes_well(flow, then, step),
{
    lemma_menu(step);
}

proof fn lemma_step_bonjour(flow: Flow, reply: Reply, now: Nanos, then: Flow, step: Step)
    requires
        flow.wf(),
        flow.expects(reply),
        flow.leads_to(reply, now, then, step),
        flow.limit() <= longest(),
        flow is BonjourAttempt,
    ensures
        goes_well(flow, then, step),
{
    lemma_menu(step);
    if let Flow::BonjourAttempt(attempt) = flow {
        match reply {
            Reply::Texts(endpoints) => {
                discovery::lemma_next_position(endpoints@, attempt.skipped, 0);
            },
            _ => if attempt.phase == BonjourPhase::Connecting {
                discovery::lemma_next_position(
                    attempt.endpoints@,
                    attempt.skipped,
                    attempt.position + 1,
                );
            },
        }
    }
}

proof fn lemma_step_screens(flow: Flow, reply: Reply, now: Nanos, then: Flow, step: Step)
    requires
        flow.wf(),
        flow.expects(reply),
        flow.leads_to(reply, now, then, step),
        flow.limit() <= longest(),
        flow is ScreenAttempt,
    ensures
        goes_well(flow, then, step),
{
    lemma_menu(step);
    if let (Flow::ScreenAttempt(attempt), Flow::ScreenAttempt(then)) = (flow, then) {
        assert(then.endpoints@.len() == then.endpoints.deep_view().len());
        match reply {
            Reply::Text(_) => discovery::lemma_next_unseen(then.endpoints@, attempt.seen, 0),
            _ => if attempt.phase == ScreenPhase::Connecting {
                discovery::lemma_next_unseen(
                    attempt.endpoints@,
                    attempt.seen,
                    attempt.endpoint_at + 1,
                );
            },
        }
    }
}

proof fn lemma_step_connect(flow: Flow, reply: Reply, now: Nanos, then: Flow, step: Step)
    requires
        flow.wf(),
        flow.expects(reply),
        flow.leads_to(reply, now, then, step),
        flow.limit() <= longest(),
        flow is ManualFlow
            || flow is ManualDevice
            || flow is EndpointPrompt
            || flow is EndpointConnection
            || flow is ReadyDeviceWait,
    ensures
        goes_well(flow, then, step),
{
    lemma_menu(step);
}

proof fn lemma_step_mirror(flow: Flow, reply: Reply, now: Nanos, then: Flow, step: Step)
    requires
        flow.wf(),
        flow.expects(reply),
        flow.leads_to(reply, now, then, step),
        flow.limit() <= longest(),
        flow is PhoneHandling
            || flow is PhoneMenu
            || flow is ScrcpySearch
            || flow is BackgroundStart
            || flow is ForegroundStart,
    ensures
        goes_well(flow, then, step),
{
    lemma_menu(step);
}

proof fn lemma_step(flow: Flow, reply: Reply, now: Nanos, then: Flow, step: Step)
    requires
        flow.wf(),
        flow.expects(reply),
        flow.leads_to(reply, now, then, step),
        flow.limit() <= longest(),
    ensures
        goes_well(flow, then, step),
{
    match flow {
        Flow::Session(_)
        | Flow::ServerReset(_)
        | Flow::DiscoveryCheck(_)
        | Flow::StartupWait(_)
        | Flow::StartupChoice(_) => {
            lemma_step_startup(flow, reply, now, then, step)
        },
        Flow::PairingRetry(_)
        | Flow::QrPairing(_)
        | Flow::CodePairing(_) => {
            lemma_step_flows(flow, reply, now, then, step)
        },
        Flow::PairingWait(_) => lemma_step_wait(flow, reply, now, then, step),
        Flow::DeviceSearch(_) => lemma_step_search(flow, reply, now, then, step),
        Flow::BonjourAttempt(_) => lemma_step_bonjour(flow, reply, now, then, step),
        Flow::ScreenAttempt(_) => lemma_step_screens(flow, reply, now, then, step),
        Flow::ManualFlow(_)
        | Flow::ManualDevice(_)
        | Flow::EndpointPrompt(_)
        | Flow::EndpointConnection(_)
        | Flow::ReadyDeviceWait(_) => {
            lemma_step_connect(flow, reply, now, then, step)
        },
        Flow::PhoneHandling(_)
        | Flow::PhoneMenu(_)
        | Flow::ScrcpySearch(_)
        | Flow::BackgroundStart(_)
        | Flow::ForegroundStart(_) => {
            lemma_step_mirror(flow, reply, now, then, step)
        },
    }
}

/// No flow is ever at a loss: whatever can come back for what it asks for, it can go on with
/// (unless its attempts cannot be counted any further), and what it ends with is of the one kind
/// that whoever asked for it can go on with.
pub proof fn law_flows_are_never_at_a_loss(
    flow: Flow,
    reply: Reply,
    now: Nanos,
    then: Flow,
    step: Step,
)
    requires
        flow.wf(),
        flow.limit() <= longest(),
        flow.expects(reply),
        flow.leads_to(reply, now, then, step),
    ensures
        match step.next {
            Next::Ask(request) => forall|answer: Reply| #[trigger]
                request.answered_by(answer) ==> then.expects(answer) || then.out_of_attempts(),
            Next::Give(result) => flow.may_give(result),
        },
{
    lemma_step(flow, reply, now, then, step);
}

/// A flow that is begun by a request can go on with every answer to what it asks for first, and
/// ends only with answers to that request.
pub proof fn law_flows_answer_what_began_them(
    request: Request,
    args: Args,
    now: Nanos,
    flow: Flow,
    step: Step,
)
    requires
        begins(request, args, now, flow, step),
        allows(request) <= longest(),
    ensures
        match step.next {
            Next::Ask(first) => flow.waits_for(first),
            Next::Give(result) => flow.may_give(result),
        },
        forall|result: Reply| #[trigger] flow.may_give(result) ==> request.answered_by(result),
{
    lemma_begin(request, args, now, flow, step);
}

/// The flows of the program, from the first to the one that goes on next.
#[derive(Debug, PartialEq, Eq)]
pub struct Program {
    pub args: Args,
    pub flows: Vec<Flow>,
}

/// The flows after one of them took a step: one that has given its result is gone.
pub open spec fn settled(below: Seq<Flow>, flow: Flow, step: Step) -> Seq<Flow> {
    match step.next {
        Next::Ask(_) => below.push(flow),
        Next::Give(_) => below,
    }
}

/// From what comes next to one more step: a flow that is asked for begins, and a result goes to
/// the flow that waits for it.
pub open spec fn moves(
    args: Args,
    now: Nanos,
    flows: Seq<Flow>,
    next: Next,
    then: Seq<Flow>,
    step: Step,
) -> bool {
    match next {
        Next::Ask(request) => exists|flow: Flow| #[trigger]
            begins(request, args, now, flow, step) && then == settled(flows, flow, step),
        Next::Give(result) => flows.len() > 0 && flows.last().expects(result) && exists|
            flow: Flow,
        | #[trigger]
            flows.last().leads_to(result, now, flow, step) && then == settled(
                flows.drop_last(),
                flow,
                step,
            ),
    }
}

/// The steps follow from each other, beginning with `next`.
pub open spec fn is_chain(
    args: Args,
    now: Nanos,
    next: Next,
    stacks: Seq<Seq<Flow>>,
    steps: Seq<Step>,
) -> bool {
    &&& stacks.len() == steps.len() + 1
    &&& forall|i: int|
        0 <= i < steps.len() ==> moves(
            args,
            now,
            stacks[i],
            if i == 0 {
                next
            } else {
                steps[i - 1].next
            },
            stacks[i + 1],
            #[trigger] steps[i],
        )
}

/// All that the steps say, one after the other.
pub open spec fn said(steps: Seq<Step>) -> Seq<Notice<Seq<char>>>
    decreases steps.len(),
{
    if steps.len() == 0 {
        seq![]
    } else {
        said(steps.drop_last()) + steps.last().script@
    }
}

/// Nothing can go on without something from outside, or nothing is left to go on.
pub open spec fn rests(flows: Seq<Flow>, next: Next) -> bool {
    match next {
        Next::Ask(request) => !request.is_flow() && flows.len() > 0,
        Next::Give(_) => flows.len() == 0,
    }
}

/// The sum of the momentum of all flows.
pub open spec fn total_momentum(flows: Seq<Flow>) -> int
    decreases flows.len(),
{
    if flows.len() == 0 {
        0
    } else {
        total_momentum(flows.drop_last()) + flows.last().momentum()
    }
}

/// Each flow but the last waits for the one above it, the first one is the program as a whole,
/// and none has more time to give than there is.
pub open spec fn is_stack(flows: Seq<Flow>) -> bool {
    &&& forall|i: int|
        0 <= i < flows.len() ==> (#[trigger] flows[i]).wf() && flows[i].limit() <= longest()
    &&& forall|i: int|
        0 <= i < flows.len() - 1 ==> (#[trigger] flows[i]).waits_for_flow(flows[i + 1])
            && flows[i].momentum() > 0
    &&& flows.len() > 0 ==> flows[0] is Session
}

impl Program {
    /// The flows fit each other.
    pub open spec fn wf(self) -> bool {
        is_stack(self.flows@)
    }

    /// The replies that the program can go on with.
    pub open spec fn expects(self, reply: Reply) -> bool {
        self.flows@.len() > 0 && self.flows@.last().expects(reply)
    }

    /// The program can go on with whatever the request can be answered by; and if it has ended,
    /// its result is `Done` or a failure.
    pub open spec fn is_ready_for(self, next: Next) -> bool {
        match next {
            Next::Ask(request) => self.flows@.len() > 0 && self.flows@.last().waits_for(request),
            Next::Give(result) => result is Done || result is Failed,
        }
    }

    /// From what comes next the program gets to this state, with this step in all.
    pub open spec fn gets_to(self, next: Next, now: Nanos, then: Program, step: Step) -> bool {
        exists|stacks: Seq<Seq<Flow>>, steps: Seq<Step>| #[trigger]
            is_chain(self.args, now, next, stacks, steps) && {
                &&& steps.len() > 0
                &&& stacks[0] == self.flows@
                &&& stacks.last() == then.flows@
                &&& step.script@ == said(steps)
                &&& step.next == steps.last().next
                &&& rests(then.flows@, step.next)
                &&& then.args == self.args
            }
    }

    /// Whether the reply is one of those.
    pub fn accepts(&self, reply: &Reply) -> (r: bool)
        ensures
            r == self.expects(*reply),
    {
        match self.flows.last() {
            Some(flow) => flow.accepts(reply),
            None => false,
        }
    }
}

/// The flows fit each other and what comes next: whoever asked for it waits for it, and a result
/// has somewhere to go.
pub open spec fn is_in_order(flows: Seq<Flow>, next: Next) -> bool {
    &&& is_stack(flows)
    &&& match next {
        Next::Ask(request) => flows.len() > 0 && is_sound_request(flows.last(), request),
        Next::Give(result) => if flows.len() > 0 {
            flows.last().expects(result) && flows.last().momentum() > 0
        } else {
            result is Done || result is Failed
        },
    }
}

/// Momentum is never negative.
proof fn lemma_momentum(flow: Flow)
    requires
        flow.wf(),
    ensures
        flow.momentum() >= 0,
{
}

/// Momentum is never negative, and neither is that of all flows together.
proof fn lemma_total_momentum(flows: Seq<Flow>)
    requires
        forall|i: int| 0 <= i < flows.len() ==> (#[trigger] flows[i]).wf(),
    ensures
        total_momentum(flows) >= 0,
    decreases flows.len(),
{
    if flows.len() > 0 {
        lemma_momentum(flows[flows.len() - 1]);
        lemma_total_momentum(flows.drop_last());
    }
}

/// A flow that is put above others, with a step that is sound, keeps them in order.
proof fn lemma_settled(below: Seq<Flow>, flow: Flow, step: Step)
    requires
        is_stack(below),
        flow.wf(),
        is_sound(flow, step),
        below.len() > 0 ==> below.last().waits_for_flow(flow) && below.last().momentum() > 0,
        below.len() == 0 ==> flow is Session,
    ensures
        is_in_order(settled(below, flow, step), step.next),
        total_momentum(settled(below, flow, step)) <= total_momentum(below) + flow.momentum(),
{
    let all = below.push(flow);
    assert(all.drop_last() =~= below);
    assert forall|i: int| 0 <= i < all.len() implies (#[trigger] all[i]).wf() && all[i].limit()
        <= longest() by {
        if i < below.len() {
            assert(all[i] == below[i]);
        }
    }
    assert forall|i: int| 0 <= i < all.len() - 1 implies (#[trigger] all[i]).waits_for_flow(
        all[i + 1],
    ) && all[i].momentum() > 0 by {
        assert(all[i] == below[i]);
        if i < below.len() - 1 {
            assert(all[i + 1] == below[i + 1]);
        }
    }
    if let Next::Give(result) = step.next {
        assert(flow.may_give(result));
        lemma_momentum(flow);
    }
}

impl Program {
    /// Begins with the first flow.
    pub fn begin(args: Args) -> (begun: (Program, Step))
        ensures
            begun.0.wf(),
            begun.0.args == args,
            begun.0.flows@.len() == 1,
            begun.0.flows@[0] is Session,
            Session::opens(args, begun.0.flows@[0]->Session_0, begun.1),
            rests(begun.0.flows@, begun.1.next),
            begun.0.is_ready_for(begun.1.next),
    {
        let (session, step) = Session::begin(&args);
        let mut flows: Vec<Flow> = Vec::new();
        flows.push(Flow::Session(session));
        proof {
            assert(args.timeout * SECOND <= longest()) by (nonlinear_arith)
                requires
                    args.timeout <= u64::MAX,
                    longest() == u64::MAX * SECOND,
                    SECOND == 1_000_000_000,
            ;
        }
        (Program { args, flows }, step)
    }

    /// Gives a reply to the flow that waits for it.
    fn deliver(&mut self, reply: Reply, now: Nanos) -> (step: Step)
        requires
            old(self).wf(),
            old(self).expects(reply),
        ensures
            final(self).args == old(self).args,
            moves(
                old(self).args,
                now,
                old(self).flows@,
                Next::Give(reply),
                final(self).flows@,
                step,
            ),
            is_in_order(final(self).flows@, step.next),
            old(self).flows@.last().momentum() > 0 ==> total_momentum(final(self).flows@) + weight(
                step.next,
            ) < total_momentum(old(self).flows@),
    {
        let ghost before = self.flows@;
        let mut flow = match self.flows.pop() {
            Some(flow) => flow,
            None => unreached(),
        };
        let ghost was = flow;
        assert(was == before.last());
        assert(was == before[before.len() - 1]);
        let step = flow.go_on(reply, now);
        let ghost below = self.flows@;
        assert(below == before.drop_last());
        proof {
            lemma_step(was, reply, now, flow, step);
            if below.len() > 0 {
                assert(below.last() == before[before.len() - 2]);
                assert(before[before.len() - 2].waits_for_flow(before[before.len() - 1]));
                assert(below.last().waits_for_flow(flow));
            }
            assert forall|i: int| 0 <= i < below.len() - 1 implies (
            #[trigger] below[i]).waits_for_flow(below[i + 1]) && below[i].momentum() > 0 by {
                assert(below[i] == before[i]);
                assert(below[i + 1] == before[i + 1]);
            }
            lemma_settled(below, flow, step);
        }
        match &step.next {
            Next::Ask(_) => self.flows.push(flow),
            Next::Give(_) => {},
        }
        assert(self.flows@ =~= settled(below, flow, step));
        step
    }

    /// Begins a flow that is asked for.
    fn enter(&mut self, request: Request, now: Nanos) -> (step: Step)
        requires
            request.is_flow(),
            is_in_order(old(self).flows@, Next::Ask(request)),
            now + longest() <= Nanos::MAX,
        ensures
            final(self).args == old(self).args,
            moves(
                old(self).args,
                now,
                old(self).flows@,
                Next::Ask(request),
                final(self).flows@,
                step,
            ),
            is_in_order(final(self).flows@, step.next),
            total_momentum(final(self).flows@) + weight(step.next) < total_momentum(
                old(self).flows@,
            ) + weight(Next::Ask(request)),
    {
        let ghost below = self.flows@;
        let (flow, step) = begin_flow(request, &self.args, now);
        proof {
            lemma_begin(request, self.args, now, flow, step);
            lemma_settled(below, flow, step);
        }
        match &step.next {
            Next::Ask(_) => self.flows.push(flow),
            Next::Give(_) => {},
        }
        assert(self.flows@ =~= settled(below, flow, step));
        step
    }

    /// Goes on with what comes next, if that needs nothing from outside.
    fn advance(&mut self, next: Next, now: Nanos) -> (outcome: Result<Step, Next>)
        requires
            is_in_order(old(self).flows@, next),
            now + longest() <= Nanos::MAX,
        ensures
            final(self).args == old(self).args,
            match outcome {
                Ok(step) => {
                    &&& moves(
                        old(self).args,
                        now,
                        old(self).flows@,
                        next,
                        final(self).flows@,
                        step,
                    )
                    &&& is_in_order(final(self).flows@, step.next)
                    &&& 0 <= total_momentum(final(self).flows@) + weight(step.next)
                        < total_momentum(old(self).flows@) + weight(next)
                },
                Err(same) => {
                    &&& same == next
                    &&& final(self).flows@ == old(self).flows@
                    &&& rests(final(self).flows@, next)
                },
            },
    {
        match next {
            Next::Ask(request) => if request.needs_flow() {
                let step = self.enter(request, now);
                proof {
                    lemma_total_momentum(self.flows@);
                }
                Ok(step)
            } else {
                Err(Next::Ask(request))
            },
            Next::Give(result) => if self.flows.len() > 0 {
                let step = self.deliver(result, now);
                proof {
                    lemma_total_momentum(self.flows@);
                }
                Ok(step)
            } else {
                Err(Next::Give(result))
            },
        }
    }

    /// Goes on with a reply, until something from outside is needed again or the program is
    /// over.
    pub fn resume(&mut self, reply: Reply, now: Nanos) -> (step: Step)
        requires
            old(self).wf(),
            old(self).expects(reply),
            now + longest() <= Nanos::MAX,
        ensures
            final(self).wf(),
            old(self).gets_to(Next::Give(reply), now, *final(self), step),
            final(self).is_ready_for(step.next),
    {
        let ghost args = self.args;
        let ghost start = self.flows@;
        let first = self.deliver(reply, now);
        let ghost mut stacks: Seq<Seq<Flow>> = seq![start, self.flows@];
        let ghost mut steps: Seq<Step> = seq![first];
        let Step { script, next } = first;
        let mut script = script;
        let mut next = next;
        proof {
            reveal_with_fuel(said, 2);
            assert(steps.drop_last() =~= seq![]);
            assert(said(steps) =~= script@);
        }
        loop
            invariant
                self.args == args,
                is_in_order(self.flows@, next),
                is_chain(args, now, Next::Give(reply), stacks, steps),
                steps.len() > 0,
                stacks[0] == start,
                stacks.last() == self.flows@,
                script@ == said(steps),
                next == steps.last().next,
                now + longest() <= Nanos::MAX,
            ensures
                self.args == args,
                is_in_order(self.flows@, next),
                is_chain(args, now, Next::Give(reply), stacks, steps),
                steps.len() > 0,
                stacks[0] == start,
                stacks.last() == self.flows@,
                script@ == said(steps),
                next == steps.last().next,
                rests(self.flows@, next),
            decreases total_momentum(self.flows@) + weight(next),
        {
            let step = match self.advance(next, now) {
                Ok(step) => step,
                Err(same) => {
                    next = same;
                    break ;
                },
            };
            proof {
                lemma_longer_chain(
                    args,
                    now,
                    Next::Give(reply),
                    stacks,
                    steps,
                    self.flows@,
                    step,
                );
                assert(steps.push(step).drop_last() =~= steps);
                stacks = stacks.push(self.flows@);
                steps = steps.push(step);
            }
            let Step { script: more, next: then } = step;
            script = script.followed_by(more);
            next = then;
        }
        assert(is_chain(args, now, Next::Give(reply), stacks, steps));
        Step { script, next }
    }
}

/// One more step makes a chain longer.
proof fn lemma_longer_chain(
    args: Args,
    now: Nanos,
    next: Next,
    stacks: Seq<Seq<Flow>>,
    steps: Seq<Step>,
    flows: Seq<Flow>,
    step: Step,
)
    requires
        is_chain(args, now, next, stacks, steps),
        steps.len() > 0,
        moves(args, now, stacks.last(), steps.last().next, flows, step),
    ensures
        is_chain(args, now, next, stacks.push(flows), steps.push(step)),
{
    let (stacks1, steps1) = (stacks.push(flows), steps.push(step));
    assert forall|i: int| 0 <= i < steps1.len() implies moves(
        args,
        now,
        stacks1[i],
        if i == 0 {
            next
        } else {
            steps1[i - 1].next
        },
        stacks1[i + 1],
        #[trigger] steps1[i],
    ) by {
        if i < steps.len() {
            assert(steps1[i] == steps[i]);
            assert(stacks1[i] == stacks[i]);
            assert(stacks1[i + 1] == stacks[i + 1]);
            if i > 0 {
                assert(steps1[i - 1] == steps[i - 1]);
            }
        }
    }
}

/// A flow is begun with exactly what the request for it says, under the arguments of the program
/// and at the present time; and the first thing that it asks for is about that.
pub proof fn law_flows_begin_with_what_was_asked(
    request: Request,
    args: Args,
    now: Nanos,
    flow: Flow,
    step: Step,
)
    requires
        begins(request, args, now, flow, step),
        now + allows(request) <= Nanos::MAX,
    ensures
        match (request, flow) {
            (Request::ResetAdbServer, Flow::ServerReset(_)) => step.next == Next::Ask(
                Request::ResetServer,
            ) && step.script@ == seq![Notice::Status("Resetting local ADB server..."@)],
            (Request::WarnIfMdnsCheckFails, Flow::DiscoveryCheck(_)) => step.next == Next::Ask(
                Request::MdnsCheck,
            ),
            (Request::StartupDeviceChoice, Flow::StartupChoice(_)) => step.next == Next::Ask(
                Request::WaitForStartupConnectedPhones((2 * SECOND) as Nanos),
            ),
            (Request::WaitForStartupConnectedPhones(timeout), Flow::StartupWait(flow)) => {
                flow.deadline == now + timeout && step.next == Next::Ask(Request::Devices)
            },
            (Request::RetryingPairingFlow(timeout), Flow::PairingRetry(flow)) => flow.timeout
                == timeout && step.next == Next::Ask(Request::PairAndConnect(timeout)),
            (Request::PairAndConnect(timeout), Flow::QrPairing(flow)) => flow.timeout == timeout
                && step.next == Next::Ask(Request::MdnsServices),
            (Request::ManualConnectFlow(timeout), Flow::ManualFlow(flow)) => flow.timeout
                == timeout && step.next == Next::Ask(Request::Devices),
            (Request::PairingCodeFlow(timeout), Flow::CodePairing(flow)) => {
                &&& flow.timeout == timeout
                &&& step.script@ == seq![
                    Notice::<Seq<char>>::Section(crate::dialogue::Topic::PairWithPairingCode),
                ]
                &&& match step.next {
                    Next::Ask(Request::PromptEndpoint(label)) => label@ == "Enter pairing IP:port"@,
                    _ => false,
                }
            },
            (Request::PromptEndpoint(label), Flow::EndpointPrompt(flow)) => flow.label@ == label@
                && match step.next {
                Next::Ask(Request::Prompt(asked)) => asked@ == label@,
                _ => false,
            },
            (Request::ManualConnectDevice { baseline, timeout }, Flow::ManualDevice(flow)) => {
                &&& flow.baseline@ == baseline@
                &&& flow.timeout == timeout
                &&& step.script@ == seq![
                    Notice::<Seq<char>>::Section(crate::dialogue::Topic::ManualConnection),
                ]
                &&& match step.next {
                    Next::Ask(Request::PromptEndpoint(label)) => label@ == "Enter phone IP:port"@,
                    _ => false,
                }
            },
            (
                Request::ConnectToEndpoint { endpoint, baseline, timeout },
                Flow::EndpointConnection(flow),
            ) => {
                &&& flow.endpoint@ == endpoint@
                &&& flow.baseline@ == baseline@
                &&& flow.timeout == timeout
                &&& step.script@ == seq![
                    Notice::Status("Connecting to "@ + endpoint@ + "..."@),
                ]
                &&& match step.next {
                    Next::Ask(Request::Connect(address)) => address@ == endpoint@,
                    _ => false,
                }
            },
            (
                Request::WaitForReadyDevice { expected_serial, baseline, timeout },
                Flow::ReadyDeviceWait(flow),
            ) => {
                &&& flow.expected_serial@ == expected_serial@
                &&& flow.baseline@ == baseline@
                &&& flow.deadline == now + timeout
                &&& step.script@.contains(Notice::CancelHint)
                &&& step.script@.last() == Notice::CountdownBegins("ADB device wait"@)
                &&& step.next == Next::Ask(Request::Tick(timeout))
            },
            (Request::WaitForPairingEndpoint { instance, timeout }, Flow::PairingWait(flow)) => {
                &&& flow.instance@ == instance@
                &&& flow.deadline == now + timeout
                &&& !flow.offered_multiple_existing_devices
                &&& !flow.reported_direct_check
                &&& !flow.reported_device_check_error
                &&& !flow.reported_adb_error
                &&& !flow.reported_bonjour_error
                &&& step.script@.last() == Notice::CountdownBegins("Waiting for QR scan"@)
                &&& step.next == Next::Ask(Request::Tick(timeout))
            },
            (
                Request::ConnectAndWaitForDevice {
                    pairing_address,
                    baseline_services,
                    baseline,
                    timeout,
                },
                Flow::DeviceSearch(flow),
            ) => {
                &&& flow.pairing_address@ == pairing_address@
                &&& flow.expected_serial@ == pairing_address@
                &&& flow.baseline_services@ == baseline_services@
                &&& flow.baseline@ == baseline@
                &&& flow.timeout == timeout
                &&& flow.deadline == now + timeout
                &&& flow.attempt == 0
                &&& flow.announced@.len() == 0
                &&& flow.last_bonjour_check is None
                &&& flow.last_summary@.len() == 0
                &&& !flow.reported_waiting
                &&& !flow.reported_mdns_error
                &&& step.script@.last() == Notice::CountdownBegins("Connection endpoint wait"@)
                &&& step.next == Next::Ask(Request::Tick(timeout))
            },
            (
                Request::TryDirectBonjourConnect { pairing_address, baseline, skipped, timeout },
                Flow::BonjourAttempt(flow),
            ) => {
                &&& flow.baseline@ == baseline@
                &&& flow.skipped == skipped
                &&& flow.timeout == timeout
                &&& step.script@ == seq![
                    Notice::Status(
                        "Checking macOS Bonjour directly for wireless debugging endpoints..."@,
                    ),
                ]
                &&& match step.next {
                    Next::Ask(Request::DiscoverConnect { pairing_address: searched, patience }) => {
                        searched@ == pairing_address@ && patience == 6 * SECOND
                    },
                    _ => false,
                }
            },
            (Request::TryUiHierarchyConnect { baseline, timeout }, Flow::ScreenAttempt(flow)) => {
                &&& flow.baseline@ == baseline@
                &&& flow.timeout == timeout
                &&& flow.seen@.len() == 0
                &&& step.next == Next::Ask(Request::Devices)
            },
            (Request::HandleConnectedPhone(phone), Flow::PhoneHandling(_)) => step.next
                == Next::Ask(
                if args.background {
                    Request::StartScrcpyBackground(phone)
                } else if args.foreground {
                    Request::StartScrcpyForeground(phone)
                } else {
                    Request::ConnectedPhoneMenu(phone)
                },
            ),
            (Request::ConnectedPhoneMenu(phone), Flow::PhoneMenu(flow)) => flow.phone == phone
                && step.lets_choose(),
            (Request::StartScrcpyBackground(phone), Flow::BackgroundStart(flow)) => flow.phone
                == phone && args.ask_for(flow.options) && step.next == Next::Ask(
                Request::ResolveScrcpy,
            ),
            (Request::StartScrcpyForeground(phone), Flow::ForegroundStart(flow)) => flow.phone
                == phone && args.ask_for(flow.options) && step.next == Next::Ask(
                Request::ResolveScrcpy,
            ),
            (Request::ResolveScrcpy, Flow::ScrcpySearch(_)) => match step.next {
                Next::Give(Reply::Scrcpy(scrcpy)) => {
                    &&& args.no_scrcpy_check
                    &&& args.scrcpy is Some ==> path::encoded(scrcpy.path) == path::encoded(
                        args.scrcpy->0,
                    )
                    &&& args.scrcpy is None ==> path::encoded(scrcpy.path)
                        == vstd::utf8::encode_utf8("scrcpy"@)
                },
                Next::Ask(Request::FindProgram { program, override_path }) => {
                    &&& !args.no_scrcpy_check
                    &&& program@ == "scrcpy"@
                    &&& path::encoded_option(override_path) == path::encoded_option(args.scrcpy)
                },
                _ => false,
            },
            _ => false,
        },
{
    if let Request::WaitForReadyDevice { .. } = request {
        assert(step.script@[1] == Notice::<Seq<char>>::CancelHint);
    }
}

/// The program begins by finding the bridge where the arguments say, and keeps what they say about
/// the server and the time.
pub proof fn law_session_begins_with_the_arguments(args: Args, session: Session, step: Step)
    requires
        Session::opens(args, session, step),
    ensures
        session.reset_adb == args.reset_adb,
        session.timeout == args.timeout * SECOND,
        step.script@ == seq![
            Notice::Title("airadb"@, "Android wireless debugging companion"@),
            Notice::Status("Checking ADB..."@),
        ],
        match step.next {
            Next::Ask(Request::ResolveAdb(given)) => {
                &&& args.adb is Some <==> given is Some
                &&& args.adb is Some ==> path::encoded(given->0) == path::encoded(args.adb->0)
            },
            _ => false,
        },
{
}

/// What the steps say is what each of them says, in their order.
pub proof fn law_all_that_is_said_is_kept(first: Seq<Step>, second: Seq<Step>)
    ensures
        first.len() == 1 ==> said(first) == first[0].script@,
        said(first + second) == said(first) + said(second),
    decreases second.len(),
{
    reveal_with_fuel(said, 2);
    if first.len() == 1 {
        assert(first.drop_last() =~= seq![]);
        assert(said(first) =~= first[0].script@);
    }
    if second.len() == 0 {
        assert(first + second =~= first);
        assert(said(first + second) =~= said(first) + said(second));
    } else {
        let whole = first + second;
        law_all_that_is_said_is_kept(first, second.drop_last());
        assert(whole.drop_last() =~= first + second.drop_last());
        assert(whole.last() == second.last());
        assert(said(whole) =~= said(first) + said(second));
    }
}

/// A reply goes to the flow that went on last, and its step is the first of what the program does
/// with the reply: if that step needs something from outside, it is all that is done, and the
/// other flows stay as they are.
#[verifier::rlimit(40)]
pub proof fn law_replies_go_to_the_flow_that_asked(
    program: Program,
    reply: Reply,
    now: Nanos,
    then: Program,
    step: Step,
)
    requires
        program.gets_to(Next::Give(reply), now, then, step),
    ensures
        program.flows@.len() > 0,
        exists|flow: Flow, first: Step| #[trigger]
            program.flows@.last().leads_to(reply, now, flow, first) && first.script@.is_prefix_of(
                step.script@,
            ) && (match first.next {
                Next::Ask(request) => !request.is_flow() ==> {
                    &&& step.next == first.next
                    &&& step.script@ == first.script@
                    &&& then.flows@ == program.flows@.drop_last().push(flow)
                },
                Next::Give(result) => program.flows@.len() == 1 ==> {
                    &&& step.next == first.next
                    &&& step.script@ == first.script@
                    &&& then.flows@.len() == 0
                },
            }),
{
    let (stacks, steps) = choose|stacks: Seq<Seq<Flow>>, steps: Seq<Step>| #[trigger]
        is_chain(program.args, now, Next::Give(reply), stacks, steps) && {
            &&& steps.len() > 0
            &&& stacks[0] == program.flows@
            &&& stacks.last() == then.flows@
            &&& step.script@ == said(steps)
            &&& step.next == steps.last().next
            &&& rests(then.flows@, step.next)
            &&& then.args == program.args
        };
    let first = steps[0];
    assert(moves(program.args, now, stacks[0], Next::Give(reply), stacks[1], steps[0]));
    let flow = choose|flow: Flow| #[trigger]
        stacks[0].last().leads_to(reply, now, flow, first) && stacks[1] == settled(
            stacks[0].drop_last(),
            flow,
            first,
        );
    assert(program.flows@.last().leads_to(reply, now, flow, first));
    let rest = steps.skip(1);
    assert(seq![first] + rest =~= steps);
    law_all_that_is_said_is_kept(seq![first], rest);
    assert(first.script@.is_prefix_of(step.script@));
    if steps.len() > 1 {
        assert(moves(program.args, now, stacks[1], steps[0].next, stacks[2], steps[1]));
        match first.next {
            Next::Ask(request) => {
                if !request.is_flow() {
                    let begun = choose|begun: Flow| #[trigger]
                        begins(request, program.args, now, begun, steps[1]) && stacks[2] == settled(
                            stacks[1],
                            begun,
                            steps[1],
                        );
                    assert(!begins(request, program.args, now, begun, steps[1]));
                }
            },
            Next::Give(_) => {},
        }
    } else {
        assert(rest =~= seq![]);
        assert(said(rest) =~= seq![]);
        assert(step.script@ =~= first.script@);
    }
}

/// What the first two of some steps say comes first, and is all if there are only two.
proof fn lemma_said_first(steps: Seq<Step>)
    requires
        steps.len() >= 2,
    ensures
        (steps[0].script@ + steps[1].script@).is_prefix_of(said(steps)),
        steps.len() == 2 ==> said(steps) == steps[0].script@ + steps[1].script@,
{
    let rest = steps.skip(2);
    assert(seq![steps[0]] + (seq![steps[1]] + rest) =~= steps);
    law_all_that_is_said_is_kept(seq![steps[0]], seq![steps[1]] + rest);
    law_all_that_is_said_is_kept(seq![steps[1]], rest);
    assert(said(steps) =~= steps[0].script@ + steps[1].script@ + said(rest));
    if steps.len() == 2 {
        assert(rest =~= seq![]);
        assert(said(rest) =~= seq![]);
        assert(said(steps) =~= steps[0].script@ + steps[1].script@);
    }
}

/// Only what is a flow begins.
proof fn lemma_only_flows_begin(
    args: Args,
    now: Nanos,
    flows: Seq<Flow>,
    request: Request,
    then: Seq<Flow>,
    step: Step,
)
    requires
        moves(args, now, flows, Next::Ask(request), then, step),
    ensures
        request.is_flow(),
{
}

/// Where a flow asks for another one, that one begins at once, above it. What each of them says
/// comes in this order, and what is then needed from outside is what the new one asks for.
#[verifier::rlimit(40)]
#[verifier::spinoff_prover]
pub proof fn law_flows_that_are_asked_for_begin_at_once(
    program: Program,
    reply: Reply,
    now: Nanos,
    then: Program,
    step: Step,
)
    requires
        program.gets_to(Next::Give(reply), now, then, step),
    ensures
        exists|flow: Flow, first: Step| #[trigger]
            program.flows@.last().leads_to(reply, now, flow, first) && match first.next {
                Next::Ask(request) => request.is_flow() ==> exists|begun: Flow, second: Step|
                    #[trigger]
                    begins(request, program.args, now, begun, second) && (first.script@
                        + second.script@).is_prefix_of(step.script@) && (match second.next {
                        Next::Ask(needed) => !needed.is_flow() ==> {
                            &&& step.next == second.next
                            &&& step.script@ == first.script@ + second.script@
                            &&& then.flows@ == program.flows@.drop_last().push(flow).push(begun)
                        },
                        Next::Give(_) => true,
                    }),
                Next::Give(_) => true,
            },
{
    let (stacks, steps) = choose|stacks: Seq<Seq<Flow>>, steps: Seq<Step>| #[trigger]
        is_chain(program.args, now, Next::Give(reply), stacks, steps) && {
            &&& steps.len() > 0
            &&& stacks[0] == program.flows@
            &&& stacks.last() == then.flows@
            &&& step.script@ == said(steps)
            &&& step.next == steps.last().next
            &&& rests(then.flows@, step.next)
            &&& then.args == program.args
        };
    let first = steps[0];
    assert(moves(program.args, now, stacks[0], Next::Give(reply), stacks[1], steps[0]));
    let flow = choose|flow: Flow| #[trigger]
        stacks[0].last().leads_to(reply, now, flow, first) && stacks[1] == settled(
            stacks[0].drop_last(),
            flow,
            first,
        );
    assert(program.flows@.last().leads_to(reply, now, flow, first));
    if let Next::Ask(request) = first.next {
        if request.is_flow() {
            assert(steps.len() > 1);
            let second = steps[1];
            lemma_said_first(steps);
            assert(moves(program.args, now, stacks[1], steps[0].next, stacks[2], steps[1]));
            let begun = choose|begun: Flow| #[trigger]
                begins(request, program.args, now, begun, second) && stacks[2] == settled(
                    stacks[1],
                    begun,
                    second,
                );
            assert(begins(request, program.args, now, begun, second));
            if steps.len() > 2 {
                assert(moves(program.args, now, stacks[2], steps[1].next, stacks[3], steps[2]));
                if let Next::Ask(needed) = second.next {
                    lemma_only_flows_begin(
                        program.args,
                        now,
                        stacks[2],
                        needed,
                        stacks[3],
                        steps[2],
                    );
                }
            }
        }
    }
}

/// The step that a result leads to is one of the flow that it goes to.
proof fn lemma_result_step(
    args: Args,
    now: Nanos,
    flows: Seq<Flow>,
    result: Reply,
    then: Seq<Flow>,
    step: Step,
) -> (flow: Flow)
    requires
        moves(args, now, flows, Next::Give(result), then, step),
    ensures
        flows.len() > 0,
        goes_on(flows.last(), result, now, flow, step),
        then == settled(flows.drop_last(), flow, step),
{
    reveal(goes_on);
    choose|flow: Flow| #[trigger]
        flows.last().leads_to(result, now, flow, step) && then == settled(
            flows.drop_last(),
            flow,
            step,
        )
}

/// The reply leads the flow to this state and this step.
#[verifier::opaque]
pub open spec fn goes_on(flow: Flow, reply: Reply, now: Nanos, then: Flow, step: Step) -> bool {
    flow.leads_to(reply, now, then, step)
}

/// One step follows from another, whatever it is.
#[verifier::opaque]
pub open spec fn follows(
    args: Args,
    now: Nanos,
    flows: Seq<Flow>,
    next: Next,
    then: Seq<Flow>,
    step: Step,
) -> bool {
    moves(args, now, flows, next, then, step)
}

/// What is left to do when the program waits is to get something from outside, and when it has
/// ended, no flow is left.
pub proof fn law_program_waits_only_for_what_is_outside(
    program: Program,
    next: Next,
    now: Nanos,
    then: Program,
    step: Step,
)
    requires
        program.gets_to(next, now, then, step),
    ensures
        then.args == program.args,
        match step.next {
            Next::Ask(request) => then.flows@.len() > 0 && !request.is_flow(),
            Next::Give(_) => then.flows@.len() == 0,
        },
{
}

/// The steps by which the program gets somewhere.
proof fn lemma_chain_to(program: Program, reply: Reply, now: Nanos, then: Program, step: Step) -> (
    chain: (Seq<Seq<Flow>>, Seq<Step>))
    requires
        program.gets_to(Next::Give(reply), now, then, step),
    ensures
        chain.1.len() > 0,
        chain.0.len() == chain.1.len() + 1,
        chain.0[0] == program.flows@,
        chain.0.last() == then.flows@,
        step.script@ == said(chain.1),
        step.next == chain.1.last().next,
        rests(then.flows@, step.next),
        follows(program.args, now, chain.0[0], Next::Give(reply), chain.0[1], chain.1[0]),
        chain.1.len() > 1 ==> follows(
            program.args,
            now,
            chain.0[1],
            chain.1[0].next,
            chain.0[2],
            chain.1[1],
        ),
        chain.1.len() > 2 ==> follows(
            program.args,
            now,
            chain.0[2],
            chain.1[1].next,
            chain.0[3],
            chain.1[2],
        ),
{
    reveal(follows);
    let (stacks, steps) = choose|stacks: Seq<Seq<Flow>>, steps: Seq<Step>| #[trigger]
        is_chain(program.args, now, Next::Give(reply), stacks, steps) && {
            &&& steps.len() > 0
            &&& stacks[0] == program.flows@
            &&& stacks.last() == then.flows@
            &&& step.script@ == said(steps)
            &&& step.next == steps.last().next
            &&& rests(then.flows@, step.next)
            &&& then.args == program.args
        };
    assert(moves(program.args, now, stacks[0], Next::Give(reply), stacks[1], steps[0]));
    if steps.len() > 1 {
        assert(moves(program.args, now, stacks[1], steps[0].next, stacks[2], steps[1]));
    }
    if steps.len() > 2 {
        assert(moves(program.args, now, stacks[2], steps[1].next, stacks[3], steps[2]));
    }
    (stacks, steps)
}

/// A result leads to a step of the flow that it goes to.
proof fn lemma_follows_result(
    args: Args,
    now: Nanos,
    flows: Seq<Flow>,
    result: Reply,
    then: Seq<Flow>,
    step: Step,
) -> (flow: Flow)
    requires
        follows(args, now, flows, Next::Give(result), then, step),
    ensures
        flows.len() > 0,
        goes_on(flows.last(), result, now, flow, step),
        then == settled(flows.drop_last(), flow, step),
{
    reveal(follows);
    lemma_result_step(args, now, flows, result, then, step)
}

/// Only what is a flow begins.
proof fn lemma_follows_request(
    args: Args,
    now: Nanos,
    flows: Seq<Flow>,
    request: Request,
    then: Seq<Flow>,
    step: Step,
)
    requires
        follows(args, now, flows, Next::Ask(request), then, step),
    ensures
        request.is_flow(),
{
    reveal(follows);
    lemma_only_flows_begin(args, now, flows, request, then, step);
}

/// The first two steps, where the first one ends a flow above another.
proof fn lemma_result_goes_below(
    args: Args,
    reply: Reply,
    now: Nanos,
    stacks: Seq<Seq<Flow>>,
    steps: Seq<Step>,
) -> (both: (Flow, Flow))
    requires
        steps.len() > 0,
        stacks.len() == steps.len() + 1,
        rests(stacks.last(), steps.last().next),
        follows(args, now, stacks[0], Next::Give(reply), stacks[1], steps[0]),
        steps.len() > 1 ==> follows(args, now, stacks[1], steps[0].next, stacks[2], steps[1]),
        steps.len() > 2 ==> follows(args, now, stacks[2], steps[1].next, stacks[3], steps[2]),
        stacks[0].len() > 1,
        steps[0].next is Give,
    ensures
        goes_on(stacks[0].last(), reply, now, both.0, steps[0]),
        steps.len() > 1,
        goes_on(
            stacks[0][stacks[0].len() - 2],
            steps[0].next->Give_0,
            now,
            both.1,
            steps[1],
        ),
        (steps[0].script@ + steps[1].script@).is_prefix_of(said(steps)),
        match steps[1].next {
            Next::Ask(needed) => !needed.is_flow() ==> {
                &&& steps.len() == 2
                &&& said(steps) == steps[0].script@ + steps[1].script@
                &&& stacks.last() == stacks[0].drop_last().drop_last().push(both.1)
            },
            Next::Give(_) => true,
        },
{
    let flow = lemma_follows_result(args, now, stacks[0], reply, stacks[1], steps[0]);
    assert(stacks[1] == stacks[0].drop_last());
    assert(steps.len() > 1);
    let result = steps[0].next->Give_0;
    let below = lemma_follows_result(args, now, stacks[1], result, stacks[2], steps[1]);
    assert(stacks[1].last() == stacks[0][stacks[0].len() - 2]);
    lemma_said_first(steps);
    if steps.len() > 2 {
        if let Next::Ask(needed) = steps[1].next {
            lemma_follows_request(args, now, stacks[2], needed, stacks[3], steps[2]);
        }
    }
    (flow, below)
}

/// Where a flow ends, its result goes at once to the one below it. What each of them says comes in
/// this order, and what is then needed from outside is what that one asks for.
pub proof fn law_results_go_to_the_flow_below(
    program: Program,
    reply: Reply,
    now: Nanos,
    then: Program,
    step: Step,
)
    requires
        program.gets_to(Next::Give(reply), now, then, step),
        program.flows@.len() > 1,
    ensures
        exists|flow: Flow, first: Step| #[trigger]
            goes_on(program.flows@.last(), reply, now, flow, first) && match first.next {
                Next::Ask(_) => true,
                Next::Give(result) => exists|below: Flow, second: Step| #[trigger]
                    goes_on(
                        program.flows@[program.flows@.len() - 2],
                        result,
                        now,
                        below,
                        second,
                    ) && (first.script@ + second.script@).is_prefix_of(step.script@) && (
                    match second.next {
                        Next::Ask(needed) => !needed.is_flow() ==> {
                            &&& step.next == second.next
                            &&& step.script@ == first.script@ + second.script@
                            &&& then.flows@ == program.flows@.drop_last().drop_last().push(below)
                        },
                        Next::Give(_) => true,
                    }),
            },
{
    let (stacks, steps) = lemma_chain_to(program, reply, now, then, step);
    let first = steps[0];
    if first.next is Give {
        let (flow, below) = lemma_result_goes_below(program.args, reply, now, stacks, steps);
        assert(goes_on(program.flows@.last(), reply, now, flow, first));
        assert(goes_on(
            program.flows@[program.flows@.len() - 2],
            first.next->Give_0,
            now,
            below,
            steps[1],
        ));
    } else {
        let flow = lemma_follows_result(
            program.args,
            now,
            stacks[0],
            reply,
            stacks[1],
            first,
        );
        assert(goes_on(program.flows@.last(), reply, now, flow, first));
    }
}

} // verus!
