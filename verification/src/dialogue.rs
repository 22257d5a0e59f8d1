//! What the flows of the program exchange with the world around them.
//!
//! A flow decides; it does nothing by itself. It says something to the user and asks for one
//! thing to be done, gets a reply, and goes on from there until it has a result to give.

use std::path::PathBuf;

use vstd::prelude::*;

use crate::clock::Nanos;
use crate::device::{AdbDevice, ConnectedPhone, MdnsService};
use crate::failure::Failure;
use crate::path;
use crate::scrcpy::{ExitReport, Scrcpy, ScrcpyCommand};

verus! {

/// Instructions that are shown as a block.
#[derive(Debug, Clone, Copy, PartialEq, Eq, Structural)]
pub enum Topic {
    PairWithQrCode,
    PairWithPairingCode,
    ConnectPairedPhone,
    ManualConnection,
}

/// Something that is shown to the user. `T` is the type of texts.
#[derive(Debug, PartialEq, Eq)]
pub enum Notice<T = String> {
    /// The name of the program and what it is.
    Title(T, T),
    Status(T),
    Success(T),
    Warning(T),
    Error(T),
    Section(Topic),
    /// A QR code, drawn for the terminal.
    QrCode(T),
    BlankLine,
    /// How to cancel the wait that follows.
    CancelHint,
    /// A countdown of this name begins.
    CountdownBegins(T),
    /// The countdown line is given up, so that other lines can follow.
    CountdownEnds,
}

impl View for Notice<String> {
    type V = Notice<Seq<char>>;

    open spec fn view(&self) -> Notice<Seq<char>> {
        match self {
            Notice::Title(name, about) => Notice::Title(name@, about@),
            Notice::Status(text) => Notice::Status(text@),
            Notice::Success(text) => Notice::Success(text@),
            Notice::Warning(text) => Notice::Warning(text@),
            Notice::Error(text) => Notice::Error(text@),
            Notice::Section(topic) => Notice::Section(*topic),
            Notice::QrCode(text) => Notice::QrCode(text@),
            Notice::BlankLine => Notice::BlankLine,
            Notice::CancelHint => Notice::CancelHint,
            Notice::CountdownBegins(text) => Notice::CountdownBegins(text@),
            Notice::CountdownEnds => Notice::CountdownEnds,
        }
    }
}

/// What is shown to the user, in this order.
#[derive(Debug, PartialEq, Eq)]
pub struct Script {
    pub notices: Vec<Notice>,
}

impl View for Script {
    type V = Seq<Notice<Seq<char>>>;

    open spec fn view(&self) -> Seq<Notice<Seq<char>>> {
        self.notices@.map_values(|notice: Notice| notice@)
    }
}

/// How the startup ends: with a phone that is connected, with the wish to pair one, or not
/// at all.
#[derive(Debug, PartialEq, Eq)]
pub enum StartupDeviceChoice {
    Connected(ConnectedPhone),
    PairNew,
    Close,
}

/// How the wait for a scanned QR code ends well.
#[derive(Debug, PartialEq, Eq)]
pub enum PairingWaitOutcome {
    PairingEndpoint(String),
    AlreadyConnected(ConnectedPhone),
}

/// Something that a flow asks for.
#[derive(Debug, PartialEq, Eq)]
pub enum Request {
    // The debug bridge.
    /// Find the bridge, at this path if there is one. Reply: `Done`.
    ResolveAdb(Option<PathBuf>),
    /// Ask the bridge for its version. Reply: `Done`.
    AdbVersion,
    /// Restart the server of the bridge. Reply: `Done`.
    ResetServer,
    /// Check the service discovery of the bridge. Reply: `MdnsCheck`.
    MdnsCheck,
    /// List the devices. Reply: `Devices`.
    Devices,
    /// List the services that were discovered. Reply: `Services`.
    MdnsServices,
    /// Connect to an endpoint. Reply: `Text`, what the bridge printed.
    Connect(String),
    /// Pair with the phone at an address. Reply: `Done`.
    Pair { address: String, secret: String },
    /// Read the screen of a device. Reply: `Text`.
    DumpUiHierarchy(String),
    /// Find the device that is ready and was waited for. Reply: `MaybeDevice`.
    MatchReadyDevice { devices: Vec<AdbDevice>, expected_serial: String, baseline: Vec<String> },
    /// The serials of the devices that are ready. Reply: `Texts`.
    ReadySerials(Vec<AdbDevice>),
    /// The services among these that a paired phone offers for connecting. Reply: `Services`.
    ConnectServices(Vec<MdnsService>),
    /// The services among these that may belong to a phone. Reply: `Services`.
    ConnectCandidates {
        services: Vec<MdnsService>,
        pairing_address: String,
        baseline_services: Vec<MdnsService>,
    },
    /// The serial that the bridge printed on connecting. Reply: `MaybeText`.
    SerialFromOutput(String),
    // Bonjour.
    /// Search for the endpoint of a pairing service. Reply: `MaybeText`.
    DiscoverPairing { instance: String, patience: Nanos },
    /// Search for the endpoints of a phone that was paired. Reply: `Texts`.
    DiscoverConnect { pairing_address: String, patience: Nanos },
    // QR codes.
    /// Make up a name and a secret for pairing. Reply: `Qr`.
    GenerateQr,
    /// Draw the QR code for them. Reply: `Text`.
    RenderQr { instance: String, secret: String },
    // The terminal.
    /// Let the user choose, counting from one. Reply: `Choice`.
    Menu(Vec<String>),
    /// Let the user enter a text that is not empty. Reply: `Text`.
    Prompt(&'static str),
    /// Show the time that is left. Reply: `Done`.
    Tick(Nanos),
    /// Wait, unless the user cancels. Reply: `Done`.
    Sleep(Nanos),
    /// Wait. Reply: `Done`.
    Pause(Nanos),
    // Programs.
    /// Search for a program, or at this path if there is one. Reply: `Path`.
    FindProgram { program: String, override_path: Option<PathBuf> },
    /// Run a program to its end. Reply: `Exit`.
    Launch(ScrcpyCommand),
    /// Start a program. Reply: `Pid`.
    Spawn(ScrcpyCommand),
    // Other flows.
    /// Reply: `Done`.
    ResetAdbServer,
    /// Reply: `Done`.
    WarnIfMdnsCheckFails,
    /// Reply: `Startup`.
    StartupDeviceChoice,
    /// Reply: `Phones`.
    WaitForStartupConnectedPhones(Nanos),
    /// Reply: `Phone`.
    RetryingPairingFlow(Nanos),
    /// Reply: `Phone`.
    PairAndConnect(Nanos),
    /// Reply: `Phone`.
    ManualConnectFlow(Nanos),
    /// Reply: `Phone`.
    PairingCodeFlow(Nanos),
    /// Reply: `Text`.
    PromptEndpoint(&'static str),
    /// Reply: `Device`.
    ManualConnectDevice { baseline: Vec<String>, timeout: Nanos },
    /// Reply: `Device`.
    ConnectToEndpoint { endpoint: String, baseline: Vec<String>, timeout: Nanos },
    /// Reply: `Device`.
    WaitForReadyDevice { expected_serial: String, baseline: Vec<String>, timeout: Nanos },
    /// Reply: `Pairing`.
    WaitForPairingEndpoint { instance: String, timeout: Nanos },
    /// Reply: `Device`.
    ConnectAndWaitForDevice {
        pairing_address: String,
        baseline_services: Vec<MdnsService>,
        baseline: Vec<String>,
        timeout: Nanos,
    },
    /// Reply: `MaybeDevice`.
    TryDirectBonjourConnect {
        pairing_address: String,
        baseline: Vec<String>,
        skipped: Option<String>,
        timeout: Nanos,
    },
    /// Reply: `MaybeDevice`.
    TryUiHierarchyConnect { baseline: Vec<String>, timeout: Nanos },
    /// Reply: `Done`.
    HandleConnectedPhone(ConnectedPhone),
    /// Reply: `Done`.
    ConnectedPhoneMenu(ConnectedPhone),
    /// Reply: `Done`.
    StartScrcpyBackground(ConnectedPhone),
    /// Reply: `Done`.
    StartScrcpyForeground(ConnectedPhone),
    /// Reply: `Scrcpy`.
    ResolveScrcpy,
}

/// What comes back for a request: what it asked for, or the failure to do it.
#[derive(Debug, PartialEq, Eq)]
pub enum Reply {
    Done,
    Failed(Failure),
    Text(String),
    MaybeText(Option<String>),
    Texts(Vec<String>),
    Choice(usize),
    MdnsCheck { success: bool, output: String },
    Devices(Vec<AdbDevice>),
    Services(Vec<MdnsService>),
    Device(AdbDevice),
    MaybeDevice(Option<AdbDevice>),
    Phone(ConnectedPhone),
    Phones(Vec<ConnectedPhone>),
    Startup(StartupDeviceChoice),
    Pairing(PairingWaitOutcome),
    Qr { instance: String, secret: String },
    Path(PathBuf),
    Scrcpy(Scrcpy),
    Exit(ExitReport),
    Pid(u32),
}

impl Reply {
    /// `Done` or a failure.
    pub open spec fn is_done_or_failed(self) -> bool {
        self is Done || self is Failed
    }

    /// The devices of the reply, or none if they could not be listed.
    pub open spec fn listed_devices(self) -> Seq<AdbDevice> {
        match self {
            Reply::Devices(devices) => devices@,
            _ => seq![],
        }
    }

    /// The services of the reply, or none if they could not be listed.
    pub open spec fn listed_services(self) -> Seq<MdnsService> {
        match self {
            Reply::Services(services) => services@,
            _ => seq![],
        }
    }

    /// The devices of the reply, or none if they could not be listed.
    pub fn into_devices(self) -> (devices: Vec<AdbDevice>)
        ensures
            devices@ == self.listed_devices(),
    {
        match self {
            Reply::Devices(devices) => devices,
            _ => Vec::new(),
        }
    }

    /// The services of the reply, or none if they could not be listed.
    pub fn into_services(self) -> (services: Vec<MdnsService>)
        ensures
            services@ == self.listed_services(),
    {
        match self {
            Reply::Services(services) => services,
            _ => Vec::new(),
        }
    }
}

/// How a flow goes on.
#[derive(Debug, PartialEq, Eq)]
pub enum Next {
    /// It needs this before it can go on.
    Ask(Request),
    /// It is over, and this is its result.
    Give(Reply),
}

/// One step of a flow: what it says, and how it goes on.
#[derive(Debug, PartialEq, Eq)]
pub struct Step {
    pub script: Script,
    pub next: Next,
}

impl Step {
    /// The step says exactly this and then asks for `request`.
    pub open spec fn asks(self, said: Seq<Notice<Seq<char>>>, request: Request) -> bool {
        &&& self.script@ =~= said
        &&& self.next == Next::Ask(request)
    }

    /// The step says exactly this and then has the bridge found.
    pub open spec fn asks_bridge(
        self,
        said: Seq<Notice<Seq<char>>>,
        override_path: Option<Seq<u8>>,
    ) -> bool {
        &&& self.script@ =~= said
        &&& match self.next {
            Next::Ask(Request::ResolveAdb(path)) => path::encoded_option(path) == override_path,
            _ => false,
        }
    }

    /// The step says exactly this and then lets the user choose among `options`.
    pub open spec fn offers(self, said: Seq<Notice<Seq<char>>>, options: Seq<Seq<char>>) -> bool {
        &&& self.script@ =~= said
        &&& match self.next {
            Next::Ask(Request::Menu(items)) => items.deep_view() == options,
            _ => false,
        }
    }

    /// The step says exactly this and then asks for the device that was waited for.
    pub open spec fn asks_to_match(
        self,
        said: Seq<Notice<Seq<char>>>,
        listed: Seq<AdbDevice>,
        serial: Seq<char>,
        known: Seq<String>,
    ) -> bool {
        &&& self.script@ =~= said
        &&& match self.next {
            Next::Ask(Request::MatchReadyDevice { devices, expected_serial, baseline }) => {
                &&& devices@ == listed
                &&& expected_serial@ == serial
                &&& baseline@ == known
            },
            _ => false,
        }
    }

    /// The step says exactly this and then asks which of these devices are ready.
    pub open spec fn asks_ready_serials(
        self,
        said: Seq<Notice<Seq<char>>>,
        listed: Seq<AdbDevice>,
    ) -> bool {
        &&& self.script@ =~= said
        &&& match self.next {
            Next::Ask(Request::ReadySerials(devices)) => devices@ == listed,
            _ => false,
        }
    }

    /// The step says exactly this and then has a device waited for.
    pub open spec fn asks_to_wait(
        self,
        said: Seq<Notice<Seq<char>>>,
        serial: Seq<char>,
        known: Seq<String>,
        limit: Nanos,
    ) -> bool {
        &&& self.script@ =~= said
        &&& match self.next {
            Next::Ask(Request::WaitForReadyDevice { expected_serial, baseline, timeout }) => {
                &&& expected_serial@ == serial
                &&& baseline@ == known
                &&& timeout == limit
            },
            _ => false,
        }
    }

    /// The step says exactly this and then has an endpoint connected to.
    pub open spec fn asks_to_connect(
        self,
        said: Seq<Notice<Seq<char>>>,
        address: Seq<char>,
        known: Seq<String>,
        limit: Nanos,
    ) -> bool {
        &&& self.script@ =~= said
        &&& match self.next {
            Next::Ask(Request::ConnectToEndpoint { endpoint, baseline, timeout }) => {
                &&& endpoint@ == address
                &&& baseline@ == known
                &&& timeout == limit
            },
            _ => false,
        }
    }

    /// The step says exactly this and then lets the user connect by hand.
    pub open spec fn asks_by_hand(
        self,
        said: Seq<Notice<Seq<char>>>,
        known: Seq<String>,
        limit: Nanos,
    ) -> bool {
        &&& self.script@ =~= said
        &&& match self.next {
            Next::Ask(Request::ManualConnectDevice { baseline, timeout }) => {
                &&& baseline@ == known
                &&& timeout == limit
            },
            _ => false,
        }
    }

    /// The step says exactly this and then has Bonjour searched for the phone.
    pub open spec fn asks_bonjour(
        self,
        said: Seq<Notice<Seq<char>>>,
        address: Seq<char>,
        known: Seq<String>,
        tried: Option<String>,
        limit: Nanos,
    ) -> bool {
        &&& self.script@ =~= said
        &&& match self.next {
            Next::Ask(
                Request::TryDirectBonjourConnect { pairing_address, baseline, skipped, timeout },
            ) => {
                &&& pairing_address@ == address
                &&& baseline@ == known
                &&& skipped == tried
                &&& timeout == limit
            },
            _ => false,
        }
    }

    /// The step says exactly this and then has the screens of the devices searched.
    pub open spec fn asks_screens(
        self,
        said: Seq<Notice<Seq<char>>>,
        known: Seq<String>,
        limit: Nanos,
    ) -> bool {
        &&& self.script@ =~= said
        &&& match self.next {
            Next::Ask(Request::TryUiHierarchyConnect { baseline, timeout }) => {
                &&& baseline@ == known
                &&& timeout == limit
            },
            _ => false,
        }
    }

    /// The step says exactly this and then asks which services may belong to the phone.
    pub open spec fn asks_candidates(
        self,
        said: Seq<Notice<Seq<char>>>,
        listed: Seq<MdnsService>,
        address: Seq<char>,
        known: Seq<MdnsService>,
    ) -> bool {
        &&& self.script@ =~= said
        &&& match self.next {
            Next::Ask(
                Request::ConnectCandidates { services, pairing_address, baseline_services },
            ) => {
                &&& services@ == listed
                &&& pairing_address@ == address
                &&& baseline_services@ == known
            },
            _ => false,
        }
    }

    /// The step says exactly this and then asks which services are for connecting.
    pub open spec fn asks_connect_services(
        self,
        said: Seq<Notice<Seq<char>>>,
        listed: Seq<MdnsService>,
    ) -> bool {
        &&& self.script@ =~= said
        &&& match self.next {
            Next::Ask(Request::ConnectServices(services)) => services@ == listed,
            _ => false,
        }
    }

    /// The step says exactly this and then has the phone searched that was just paired.
    pub open spec fn asks_search(
        self,
        said: Seq<Notice<Seq<char>>>,
        address: Seq<char>,
        known_services: Seq<MdnsService>,
        known: Seq<String>,
        limit: Nanos,
    ) -> bool {
        &&& self.script@ =~= said
        &&& match self.next {
            Next::Ask(
                Request::ConnectAndWaitForDevice {
                    pairing_address,
                    baseline_services,
                    baseline,
                    timeout,
                },
            ) => {
                &&& pairing_address@ == address
                &&& baseline_services@ == known_services
                &&& baseline@ == known
                &&& timeout == limit
            },
            _ => false,
        }
    }

    /// The step says a warning.
    pub open spec fn warns(self) -> bool {
        exists|i: int| 0 <= i < self.script@.len() && #[trigger] self.script@[i] is Warning
    }

    /// The step lets the user choose.
    pub open spec fn lets_choose(self) -> bool {
        match self.next {
            Next::Ask(Request::Menu(_)) => true,
            _ => false,
        }
    }

    /// The step says exactly this and then gives `reply` as the result of the flow.
    pub open spec fn gives(self, said: Seq<Notice<Seq<char>>>, reply: Reply) -> bool {
        &&& self.script@ =~= said
        &&& self.next == Next::Give(reply)
    }

    /// The step says exactly this and then gives a failure of its own with this message.
    pub open spec fn fails(self, said: Seq<Notice<Seq<char>>>, message: Seq<char>) -> bool {
        &&& self.script@ =~= said
        &&& match self.next {
            Next::Give(Reply::Failed(failure)) => !failure.cancelled && failure.message@
                == message,
            _ => false,
        }
    }
}

impl Request {
    /// Another flow does what is asked for.
    pub open spec fn is_flow(self) -> bool {
        match self {
            Request::ResetAdbServer
            | Request::WarnIfMdnsCheckFails
            | Request::StartupDeviceChoice
            | Request::WaitForStartupConnectedPhones(_)
            | Request::RetryingPairingFlow(_)
            | Request::PairAndConnect(_)
            | Request::ManualConnectFlow(_)
            | Request::PairingCodeFlow(_)
            | Request::PromptEndpoint(_)
            | Request::ManualConnectDevice { .. }
            | Request::ConnectToEndpoint { .. }
            | Request::WaitForReadyDevice { .. }
            | Request::WaitForPairingEndpoint { .. }
            | Request::ConnectAndWaitForDevice { .. }
            | Request::TryDirectBonjourConnect { .. }
            | Request::TryUiHierarchyConnect { .. }
            | Request::HandleConnectedPhone(_)
            | Request::ConnectedPhoneMenu(_)
            | Request::StartScrcpyBackground(_)
            | Request::StartScrcpyForeground(_)
            | Request::ResolveScrcpy => true,
            _ => false,
        }
    }

    /// Whether another flow does what is asked for.
    pub fn needs_flow(&self) -> (r: bool)
        ensures
            r == self.is_flow(),
    {
        match self {
            Request::ResetAdbServer
            | Request::WarnIfMdnsCheckFails
            | Request::StartupDeviceChoice
            | Request::WaitForStartupConnectedPhones(_)
            | Request::RetryingPairingFlow(_)
            | Request::PairAndConnect(_)
            | Request::ManualConnectFlow(_)
            | Request::PairingCodeFlow(_)
            | Request::PromptEndpoint(_)
            | Request::ManualConnectDevice { .. }
            | Request::ConnectToEndpoint { .. }
            | Request::WaitForReadyDevice { .. }
            | Request::WaitForPairingEndpoint { .. }
            | Request::ConnectAndWaitForDevice { .. }
            | Request::TryDirectBonjourConnect { .. }
            | Request::TryUiHierarchyConnect { .. }
            | Request::HandleConnectedPhone(_)
            | Request::ConnectedPhoneMenu(_)
            | Request::StartScrcpyBackground(_)
            | Request::StartScrcpyForeground(_)
            | Request::ResolveScrcpy => true,
            _ => false,
        }
    }

    /// The reply is one that the request can have.
    pub open spec fn answered_by(self, reply: Reply) -> bool {
        match self {
            Request::Pause(_) | Request::WarnIfMdnsCheckFails => reply is Done,
            Request::ResolveAdb(_)
            | Request::AdbVersion
            | Request::ResetServer
            | Request::Pair { .. }
            | Request::Tick(_)
            | Request::Sleep(_)
            | Request::ResetAdbServer
            | Request::HandleConnectedPhone(_)
            | Request::ConnectedPhoneMenu(_)
            | Request::StartScrcpyBackground(_)
            | Request::StartScrcpyForeground(_) => reply is Done || reply is Failed,
            Request::MdnsCheck => reply is MdnsCheck || reply is Failed,
            Request::Devices => reply is Devices || reply is Failed,
            Request::MdnsServices => reply is Services || reply is Failed,
            Request::Connect(_)
            | Request::DumpUiHierarchy(_)
            | Request::RenderQr { .. }
            | Request::Prompt(_)
            | Request::PromptEndpoint(_) => reply is Text || reply is Failed,
            Request::MatchReadyDevice { .. } => reply is MaybeDevice,
            Request::ReadySerials(_) => reply is Texts,
            Request::ConnectServices(_) | Request::ConnectCandidates { .. } => reply is Services,
            Request::SerialFromOutput(_) => reply is MaybeText,
            Request::DiscoverPairing { .. } => reply is MaybeText || reply is Failed,
            Request::DiscoverConnect { .. } => reply is Texts || reply is Failed,
            Request::GenerateQr => reply is Qr,
            Request::Menu(options) => match reply {
                Reply::Choice(selected) => 1 <= selected <= options@.len(),
                _ => reply is Failed,
            },
            Request::FindProgram { .. } => reply is Path || reply is Failed,
            Request::Launch(_) => reply is Exit || reply is Failed,
            Request::Spawn(_) => reply is Pid || reply is Failed,
            Request::StartupDeviceChoice => reply is Startup || reply is Failed,
            Request::WaitForStartupConnectedPhones(_) => reply is Phones || reply is Failed,
            Request::RetryingPairingFlow(_)
            | Request::PairAndConnect(_)
            | Request::ManualConnectFlow(_)
            | Request::PairingCodeFlow(_) => reply is Phone || reply is Failed,
            Request::ManualConnectDevice { .. }
            | Request::ConnectToEndpoint { .. }
            | Request::WaitForReadyDevice { .. }
            | Request::ConnectAndWaitForDevice { .. } => reply is Device || reply is Failed,
            Request::WaitForPairingEndpoint { .. } => reply is Pairing || reply is Failed,
            Request::TryDirectBonjourConnect { .. }
            | Request::TryUiHierarchyConnect { .. } => reply is MaybeDevice || reply is Failed,
            Request::ResolveScrcpy => reply is Scrcpy || reply is Failed,
        }
    }
}

impl Topic {
    /// The heading of the block.
    pub fn heading(self) -> (heading: &'static str)
        ensures
            heading@ == match self {
                Topic::PairWithQrCode => "Pair with QR code"@,
                Topic::PairWithPairingCode => "Pair with pairing code"@,
                Topic::ConnectPairedPhone => "Connect paired phone"@,
                Topic::ManualConnection => "Manual connection"@,
            },
    {
        match self {
            Topic::PairWithQrCode => "Pair with QR code",
            Topic::PairWithPairingCode => "Pair with pairing code",
            Topic::ConnectPairedPhone => "Connect paired phone",
            Topic::ManualConnection => "Manual connection",
        }
    }

    /// The lines of the block.
    pub fn lines(self) -> (lines: Vec<&'static str>)
        ensures
            lines@ == match self {
                Topic::PairWithQrCode => seq![
                    "On your Android phone, go to Developer options -> Wireless debugging.",
                    "Tap \"Pair device with QR code\".",
                    "Scan the QR code below.",
                ],
                Topic::PairWithPairingCode => seq![
                    "On your Android phone, go to Developer options -> Wireless debugging.",
                    "Tap \"Pair device with pairing code\".",
                    "Enter the pairing IP:port and pairing code shown on the phone.",
                ],
                Topic::ConnectPairedPhone => seq![
                    "Close the pairing-code dialog on the phone.",
                    "On the main Wireless debugging screen, copy \"IP address & Port\".",
                ],
                Topic::ManualConnection => seq![
                    "On your Android phone, go back to the main Wireless debugging screen.",
                    "Copy the value shown as \"IP address & Port\".",
                ],
            },
    {
        match self {
            Topic::PairWithQrCode => vec![
                "On your Android phone, go to Developer options -> Wireless debugging.",
                "Tap \"Pair device with QR code\".",
                "Scan the QR code below.",
            ],
            Topic::PairWithPairingCode => vec![
                "On your Android phone, go to Developer options -> Wireless debugging.",
                "Tap \"Pair device with pairing code\".",
                "Enter the pairing IP:port and pairing code shown on the phone.",
            ],
            Topic::ConnectPairedPhone => vec![
                "Close the pairing-code dialog on the phone.",
                "On the main Wireless debugging screen, copy \"IP address & Port\".",
            ],
            Topic::ManualConnection => vec![
                "On your Android phone, go back to the main Wireless debugging screen.",
                "Copy the value shown as \"IP address & Port\".",
            ],
        }
    }
}

impl Script {
    /// Nothing is said.
    pub fn new() -> (script: Script)
        ensures
            script@ == Seq::<Notice<Seq<char>>>::empty(),
    {
        let script = Script { notices: Vec::new() };
        assert(script@ =~= Seq::<Notice<Seq<char>>>::empty());
        script
    }

    /// One more thing is said.
    pub fn say(self, notice: Notice) -> (script: Script)
        ensures
            script@ == self@.push(notice@),
    {
        let ghost before = self@;
        let mut script = self;
        script.notices.push(notice);
        assert(script@ =~= before.push(notice@));
        script
    }

    /// A status is said.
    pub fn status(self, text: &str) -> (script: Script)
        ensures
            script@ == self@.push(Notice::Status(text@)),
    {
        self.say(Notice::Status(text.to_owned()))
    }

    /// A success is said.
    pub fn success(self, text: &str) -> (script: Script)
        ensures
            script@ == self@.push(Notice::Success(text@)),
    {
        self.say(Notice::Success(text.to_owned()))
    }

    /// A warning is said.
    pub fn warning(self, text: &str) -> (script: Script)
        ensures
            script@ == self@.push(Notice::Warning(text@)),
    {
        self.say(Notice::Warning(text.to_owned()))
    }

    /// The countdown line is given up.
    pub fn countdown_ends(self) -> (script: Script)
        ensures
            script@ == self@.push(Notice::CountdownEnds),
    {
        self.say(Notice::CountdownEnds)
    }

    /// What the other script says comes after what this one says.
    pub fn followed_by(self, other: Script) -> (script: Script)
        ensures
            script@ == self@ + other@,
    {
        let ghost whole = self@ + other@;
        let mut script = self;
        let mut rest = other;
        script.notices.append(&mut rest.notices);
        assert(script@ =~= whole);
        script
    }

    /// All is said; the flow needs this before it can go on.
    pub fn ask(self, request: Request) -> (step: Step)
        ensures
            step.asks(self@, request),
    {
        Step { script: self, next: Next::Ask(request) }
    }

    /// All is said; the flow is over with this result.
    pub fn give(self, reply: Reply) -> (step: Step)
        ensures
            step.gives(self@, reply),
    {
        Step { script: self, next: Next::Give(reply) }
    }

    /// All is said; the flow has failed.
    pub fn fail(self, message: String) -> (step: Step)
        ensures
            step.fails(self@, message@),
    {
        Step { script: self, next: Next::Give(Reply::Failed(Failure::new(message))) }
    }
}

} // verus!
