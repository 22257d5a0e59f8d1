//! The ways to a phone that is not connected yet.

use vstd::prelude::*;

use crate::clock::Nanos;
use crate::device;
use crate::device::{as_phone, copy_services, ConnectedPhone, MdnsService};
use crate::dialogue::{Next, Notice, PairingWaitOutcome, Reply, Request, Script, Step, Topic};
use crate::failure::Failure;
use crate::text::{copy_texts, three};

verus! {

/// Pairing with a phone by a QR code, and connecting to it.
#[derive(Debug, PartialEq, Eq)]
pub struct QrPairing {
    pub timeout: Nanos,
    /// The services that were there before the phone was paired.
    pub baseline_services: Vec<MdnsService>,
    /// The serials that were ready before the phone was paired.
    pub baseline: Vec<String>,
    pub secret: String,
    pub instance: String,
    pub pairing_address: String,
    pub phase: QrPairingPhase,
}

/// What the pairing is waiting for.
#[derive(Debug, Clone, Copy, PartialEq, Eq, Structural)]
pub enum QrPairingPhase {
    ListingServices,
    SortingServices,
    Listing,
    Sorting,
    Generating,
    Rendering,
    WaitingForScan,
    Pairing,
    Searching,
    Over,
}

impl QrPairing {
    /// The replies that the pairing can go on with.
    pub open spec fn expects(self, reply: Reply) -> bool {
        match self.phase {
            QrPairingPhase::ListingServices => reply is Services || reply is Failed,
            QrPairingPhase::SortingServices => reply is Services,
            QrPairingPhase::Listing => reply is Devices || reply is Failed,
            QrPairingPhase::Sorting => reply is Texts,
            QrPairingPhase::Generating => reply is Qr,
            QrPairingPhase::Rendering => reply is Text || reply is Failed,
            QrPairingPhase::WaitingForScan => reply is Pairing || reply is Failed,
            QrPairingPhase::Pairing => reply.is_done_or_failed(),
            QrPairingPhase::Searching => reply is Device || reply is Failed,
            QrPairingPhase::Over => false,
        }
    }

    /// Whether the reply is one of those.
    pub fn accepts(&self, reply: &Reply) -> (r: bool)
        ensures
            r == self.expects(*reply),
    {
        match (self.phase, reply) {
            (QrPairingPhase::ListingServices, Reply::Services(_) | Reply::Failed(_)) => true,
            (QrPairingPhase::SortingServices, Reply::Services(_)) => true,
            (QrPairingPhase::Listing, Reply::Devices(_) | Reply::Failed(_)) => true,
            (QrPairingPhase::Sorting, Reply::Texts(_)) => true,
            (QrPairingPhase::Generating, Reply::Qr { .. }) => true,
            (QrPairingPhase::Rendering, Reply::Text(_) | Reply::Failed(_)) => true,
            (QrPairingPhase::WaitingForScan, Reply::Pairing(_) | Reply::Failed(_)) => true,
            (QrPairingPhase::Pairing, Reply::Done | Reply::Failed(_)) => true,
            (QrPairingPhase::Searching, Reply::Device(_) | Reply::Failed(_)) => true,
            _ => false,
        }
    }

    /// A flow begins in this state and with this step.
    pub open spec fn opens(timeout: Nanos, flow: Self, step: Step) -> bool {
        &&& flow.timeout == timeout
        &&& flow.baseline_services@.len() == 0
        &&& flow.baseline@.len() == 0
        &&& flow.secret@.len() == 0
        &&& flow.instance@.len() == 0
        &&& flow.pairing_address@.len() == 0
        &&& flow.phase == QrPairingPhase::ListingServices
        &&& step.asks(seq![], Request::MdnsServices)
    }

    /// Begins with a look at the services that are there already.
    pub fn begin(timeout: Nanos) -> (begun: (QrPairing, Step))
        ensures
            Self::opens(timeout, begun.0, begun.1),
    {
        let pairing = QrPairing {
            timeout,
            baseline_services: Vec::new(),
            baseline: Vec::new(),
            secret: String::new(),
            instance: String::new(),
            pairing_address: String::new(),
            phase: QrPairingPhase::ListingServices,
        };
        (pairing, Script::new().ask(Request::MdnsServices))
    }

    /// What a reply leads to.
    pub open spec fn leads_to(self, reply: Reply, then: QrPairing, step: Step) -> bool {
        match (self.phase, reply) {
            (QrPairingPhase::ListingServices, _) => {
                &&& then == QrPairing { phase: QrPairingPhase::SortingServices, ..self }
                &&& step.asks_connect_services(seq![], reply.listed_services())
            },
            (QrPairingPhase::SortingServices, Reply::Services(baseline_services)) => {
                &&& then == QrPairing {
                    baseline_services,
                    phase: QrPairingPhase::Listing,
                    ..self
                }
                &&& step.asks(seq![], Request::Devices)
            },
            (QrPairingPhase::Listing, _) => {
                &&& then == QrPairing { phase: QrPairingPhase::Sorting, ..self }
                &&& step.asks_ready_serials(seq![], reply.listed_devices())
            },
            (QrPairingPhase::Sorting, Reply::Texts(baseline)) => {
                &&& then == QrPairing { baseline, phase: QrPairingPhase::Generating, ..self }
                &&& step.asks(seq![], Request::GenerateQr)
            },
            (QrPairingPhase::Generating, Reply::Qr { instance, secret }) => {
                &&& then == QrPairing {
                    instance,
                    secret,
                    phase: QrPairingPhase::Rendering,
                    ..self
                }
                &&& step.asks(
                    seq![Notice::Section(Topic::PairWithQrCode)],
                    Request::RenderQr { instance, secret },
                )
            },
            (QrPairingPhase::Rendering, Reply::Text(code)) => {
                &&& then == QrPairing { phase: QrPairingPhase::WaitingForScan, ..self }
                &&& step.asks(
                    seq![Notice::QrCode(code@), Notice::BlankLine, Notice::CancelHint],
                    Request::WaitForPairingEndpoint {
                        instance: self.instance,
                        timeout: self.timeout,
                    },
                )
            },
            (
                QrPairingPhase::WaitingForScan,
                Reply::Pairing(PairingWaitOutcome::PairingEndpoint(address)),
            ) => {
                &&& then == QrPairing {
                    pairing_address: address,
                    phase: QrPairingPhase::Pairing,
                    ..self
                }
                &&& step.asks(
                    seq![Notice::Success("Phone found. Completing ADB pairing..."@)],
                    Request::Pair { address, secret: self.secret },
                )
            },
            (
                QrPairingPhase::WaitingForScan,
                Reply::Pairing(PairingWaitOutcome::AlreadyConnected(phone)),
            ) => {
                &&& then == QrPairing { phase: QrPairingPhase::Over, ..self }
                &&& step.gives(seq![], Reply::Phone(phone))
            },
            (QrPairingPhase::Pairing, Reply::Done) => {
                &&& then == QrPairing { phase: QrPairingPhase::Searching, ..self }
                &&& step.asks_search(
                    seq![
                        Notice::Status(
                            "Looking for the wireless debugging connection endpoint..."@,
                        ),
                    ],
                    self.pairing_address@,
                    self.baseline_services@,
                    self.baseline@,
                    self.timeout,
                )
            },
            (QrPairingPhase::Searching, Reply::Device(found)) => {
                &&& then == QrPairing { phase: QrPairingPhase::Over, ..self }
                &&& step.gives(seq![], Reply::Phone(device::phone_of(found)))
            },
            (_, Reply::Failed(_)) => {
                &&& then == QrPairing { phase: QrPairingPhase::Over, ..self }
                &&& step.gives(seq![], reply)
            },
            _ => false,
        }
    }
}

/// Goes on with pairing by a QR code.
pub fn pair_and_connect(pairing: &mut QrPairing, reply: Reply) -> (step: Step)
    requires
        old(pairing).expects(reply),
    ensures
        old(pairing).leads_to(reply, *final(pairing), step),
{
    match (pairing.phase, reply) {
        (QrPairingPhase::ListingServices, reply) => {
            pairing.phase = QrPairingPhase::SortingServices;
            Script::new().ask(Request::ConnectServices(reply.into_services()))
        },
        (QrPairingPhase::SortingServices, Reply::Services(baseline_services)) => {
            pairing.baseline_services = baseline_services;
            pairing.phase = QrPairingPhase::Listing;
            Script::new().ask(Request::Devices)
        },
        (QrPairingPhase::Listing, reply) => {
            pairing.phase = QrPairingPhase::Sorting;
            Script::new().ask(Request::ReadySerials(reply.into_devices()))
        },
        (QrPairingPhase::Sorting, Reply::Texts(baseline)) => {
            pairing.baseline = baseline;
            pairing.phase = QrPairingPhase::Generating;
            Script::new().ask(Request::GenerateQr)
        },
        (QrPairingPhase::Generating, Reply::Qr { instance, secret }) => {
            pairing.instance = instance.clone();
            pairing.secret = secret.clone();
            pairing.phase = QrPairingPhase::Rendering;
            Script::new().say(Notice::Section(Topic::PairWithQrCode)).ask(
                Request::RenderQr { instance, secret },
            )
        },
        (QrPairingPhase::Rendering, Reply::Text(code)) => {
            pairing.phase = QrPairingPhase::WaitingForScan;
            Script::new().say(Notice::QrCode(code)).say(Notice::BlankLine).say(
                Notice::CancelHint,
            ).ask(
                Request::WaitForPairingEndpoint {
                    instance: pairing.instance.clone(),
                    timeout: pairing.timeout,
                },
            )
        },
        (
            QrPairingPhase::WaitingForScan,
            Reply::Pairing(PairingWaitOutcome::PairingEndpoint(address)),
        ) => {
            pairing.pairing_address = address.clone();
            pairing.phase = QrPairingPhase::Pairing;
            Script::new().success("Phone found. Completing ADB pairing...").ask(
                Request::Pair { address, secret: pairing.secret.clone() },
            )
        },
        (
            QrPairingPhase::WaitingForScan,
            Reply::Pairing(PairingWaitOutcome::AlreadyConnected(phone)),
        ) => {
            pairing.phase = QrPairingPhase::Over;
            Script::new().give(Reply::Phone(phone))
        },
        (QrPairingPhase::Pairing, Reply::Done) => {
            pairing.phase = QrPairingPhase::Searching;
            Script::new().status("Looking for the wireless debugging connection endpoint...").ask(
                Request::ConnectAndWaitForDevice {
                    pairing_address: pairing.pairing_address.clone(),
                    baseline_services: copy_services(&pairing.baseline_services),
                    baseline: copy_texts(&pairing.baseline),
                    timeout: pairing.timeout,
                },
            )
        },
        (QrPairingPhase::Searching, Reply::Device(found)) => {
            pairing.phase = QrPairingPhase::Over;
            Script::new().give(Reply::Phone(as_phone(&found)))
        },
        (_, reply) => {
            pairing.phase = QrPairingPhase::Over;
            Script::new().give(reply)
        },
    }
}

/// Pairing with a phone by a code that the phone shows, and connecting to it.
#[derive(Debug, PartialEq, Eq)]
pub struct CodePairing {
    pub timeout: Nanos,
    pub pairing_endpoint: String,
    pub connect_endpoint: String,
    pub phase: CodePairingPhase,
}

/// What the pairing is waiting for.
#[derive(Debug, Clone, Copy, PartialEq, Eq, Structural)]
pub enum CodePairingPhase {
    PromptingPairingEndpoint,
    PromptingCode,
    Pairing,
    PromptingEndpoint,
    Listing,
    Sorting,
    Connecting,
    Over,
}

impl CodePairing {
    /// The replies that the pairing can go on with.
    pub open spec fn expects(self, reply: Reply) -> bool {
        match self.phase {
            CodePairingPhase::PromptingPairingEndpoint
            | CodePairingPhase::PromptingCode
            | CodePairingPhase::PromptingEndpoint => reply is Text || reply is Failed,
            CodePairingPhase::Pairing => reply.is_done_or_failed(),
            CodePairingPhase::Listing => reply is Devices || reply is Failed,
            CodePairingPhase::Sorting => reply is Texts,
            CodePairingPhase::Connecting => reply is Device || reply is Failed,
            CodePairingPhase::Over => false,
        }
    }

    /// Whether the reply is one of those.
    pub fn accepts(&self, reply: &Reply) -> (r: bool)
        ensures
            r == self.expects(*reply),
    {
        match (self.phase, reply) {
            (
                CodePairingPhase::PromptingPairingEndpoint
                | CodePairingPhase::PromptingCode
                | CodePairingPhase::PromptingEndpoint,
                Reply::Text(_) | Reply::Failed(_),
            ) => true,
            (CodePairingPhase::Pairing, Reply::Done | Reply::Failed(_)) => true,
            (CodePairingPhase::Listing, Reply::Devices(_) | Reply::Failed(_)) => true,
            (CodePairingPhase::Sorting, Reply::Texts(_)) => true,
            (CodePairingPhase::Connecting, Reply::Device(_) | Reply::Failed(_)) => true,
            _ => false,
        }
    }

    /// A flow begins in this state and with this step.
    pub open spec fn opens(timeout: Nanos, flow: Self, step: Step) -> bool {
        &&& flow.timeout == timeout
        &&& flow.pairing_endpoint@.len() == 0
        &&& flow.connect_endpoint@.len() == 0
        &&& flow.phase == CodePairingPhase::PromptingPairingEndpoint
        &&& step.asks(
            seq![Notice::Section(Topic::PairWithPairingCode)],
            Request::PromptEndpoint("Enter pairing IP:port"),
        )
    }

    /// Explains what to enter, and asks for the pairing endpoint.
    pub fn begin(timeout: Nanos) -> (begun: (CodePairing, Step))
        ensures
            Self::opens(timeout, begun.0, begun.1),
    {
        let pairing = CodePairing {
            timeout,
            pairing_endpoint: String::new(),
            connect_endpoint: String::new(),
            phase: CodePairingPhase::PromptingPairingEndpoint,
        };
        let step = Script::new().say(Notice::Section(Topic::PairWithPairingCode)).ask(
            Request::PromptEndpoint("Enter pairing IP:port"),
        );
        (pairing, step)
    }

    /// What a reply leads to.
    pub open spec fn leads_to(self, reply: Reply, then: CodePairing, step: Step) -> bool {
        match (self.phase, reply) {
            (CodePairingPhase::PromptingPairingEndpoint, Reply::Text(pairing_endpoint)) => {
                &&& then == CodePairing {
                    pairing_endpoint,
                    phase: CodePairingPhase::PromptingCode,
                    ..self
                }
                &&& step.asks(seq![], Request::Prompt("Enter pairing code"))
            },
            (CodePairingPhase::PromptingCode, Reply::Text(code)) => {
                &&& then == CodePairing { phase: CodePairingPhase::Pairing, ..self }
                &&& step.asks(
                    seq![
                        Notice::Status("Pairing with "@ + self.pairing_endpoint@ + "..."@),
                    ],
                    Request::Pair { address: self.pairing_endpoint, secret: code },
                )
            },
            (CodePairingPhase::Pairing, Reply::Done) => {
                &&& then == CodePairing { phase: CodePairingPhase::PromptingEndpoint, ..self }
                &&& step.asks(
                    seq![
                        Notice::Success("Pairing succeeded."@),
                        Notice::Section(Topic::ConnectPairedPhone),
                    ],
                    Request::PromptEndpoint("Enter phone IP:port"),
                )
            },
            (CodePairingPhase::PromptingEndpoint, Reply::Text(connect_endpoint)) => {
                &&& then == CodePairing {
                    connect_endpoint,
                    phase: CodePairingPhase::Listing,
                    ..self
                }
                &&& step.asks(seq![], Request::Devices)
            },
            (CodePairingPhase::Listing, _) => {
                &&& then == CodePairing { phase: CodePairingPhase::Sorting, ..self }
                &&& step.asks_ready_serials(seq![], reply.listed_devices())
            },
            (CodePairingPhase::Sorting, Reply::Texts(baseline)) => {
                &&& then == CodePairing { phase: CodePairingPhase::Connecting, ..self }
                &&& step.asks_to_connect(
                    seq![],
                    self.connect_endpoint@,
                    baseline@,
                    self.timeout,
                )
            },
            (CodePairingPhase::Connecting, Reply::Device(found)) => {
                &&& then == CodePairing { phase: CodePairingPhase::Over, ..self }
                &&& step.gives(seq![], Reply::Phone(device::phone_of(found)))
            },
            (_, Reply::Failed(_)) => {
                &&& then == CodePairing { phase: CodePairingPhase::Over, ..self }
                &&& step.gives(seq![], reply)
            },
            _ => false,
        }
    }
}

/// Goes on with pairing by a code.
pub fn pairing_code_flow(pairing: &mut CodePairing, reply: Reply) -> (step: Step)
    requires
        old(pairing).expects(reply),
    ensures
        old(pairing).leads_to(reply, *final(pairing), step),
{
    match (pairing.phase, reply) {
        (CodePairingPhase::PromptingPairingEndpoint, Reply::Text(pairing_endpoint)) => {
            pairing.pairing_endpoint = pairing_endpoint;
            pairing.phase = CodePairingPhase::PromptingCode;
            Script::new().ask(Request::Prompt("Enter pairing code"))
        },
        (CodePairingPhase::PromptingCode, Reply::Text(code)) => {
            pairing.phase = CodePairingPhase::Pairing;
            Script::new().status(
                three("Pairing with ", pairing.pairing_endpoint.as_str(), "...").as_str(),
            ).ask(Request::Pair { address: pairing.pairing_endpoint.clone(), secret: code })
        },
        (CodePairingPhase::Pairing, Reply::Done) => {
            pairing.phase = CodePairingPhase::PromptingEndpoint;
            Script::new().success("Pairing succeeded.").say(
                Notice::Section(Topic::ConnectPairedPhone),
            ).ask(Request::PromptEndpoint("Enter phone IP:port"))
        },
        (CodePairingPhase::PromptingEndpoint, Reply::Text(connect_endpoint)) => {
            pairing.connect_endpoint = connect_endpoint;
            pairing.phase = CodePairingPhase::Listing;
            Script::new().ask(Request::Devices)
        },
        (CodePairingPhase::Listing, reply) => {
            pairing.phase = CodePairingPhase::Sorting;
            Script::new().ask(Request::ReadySerials(reply.into_devices()))
        },
        (CodePairingPhase::Sorting, Reply::Texts(baseline)) => {
            pairing.phase = CodePairingPhase::Connecting;
            Script::new().ask(
                Request::ConnectToEndpoint {
                    endpoint: pairing.connect_endpoint.clone(),
                    baseline,
                    timeout: pairing.timeout,
                },
            )
        },
        (_, Reply::Device(found)) => {
            pairing.phase = CodePairingPhase::Over;
            Script::new().give(Reply::Phone(as_phone(&found)))
        },
        (_, reply) => {
            pairing.phase = CodePairingPhase::Over;
            Script::new().give(reply)
        },
    }
}

/// Attempts to pair, until one succeeds or the user gives up.
#[derive(Debug, PartialEq, Eq)]
pub struct PairingRetry {
    pub timeout: Nanos,
    pub phase: RetryPhase,
}

/// What the attempts are waiting for.
#[derive(Debug, Clone, Copy, PartialEq, Eq, Structural)]
pub enum RetryPhase {
    /// An attempt by QR code.
    Pairing,
    Choosing,
    /// An attempt by an endpoint or a code that the user enters.
    Manual,
    Resetting,
    Checking,
    Over,
}

/// What the user can do after a failed attempt.
pub open spec fn retry_options() -> Seq<Seq<char>> {
    seq![
        "Retry QR pairing"@,
        "Enter phone IP:port manually"@,
        "Reset ADB server and retry"@,
        "Pair with pairing code"@,
        "Close"@,
    ]
}

fn retry_menu() -> (options: Vec<String>)
    ensures
        options.deep_view() == retry_options(),
{
    let options: Vec<String> = vec![
        "Retry QR pairing".to_owned(),
        "Enter phone IP:port manually".to_owned(),
        "Reset ADB server and retry".to_owned(),
        "Pair with pairing code".to_owned(),
        "Close".to_owned(),
    ];
    assert(options.deep_view() =~= retry_options());
    options
}

impl PairingRetry {
    /// The replies that the attempts can go on with.
    pub open spec fn expects(self, reply: Reply) -> bool {
        match self.phase {
            RetryPhase::Pairing | RetryPhase::Manual => reply is Phone || reply is Failed,
            RetryPhase::Choosing => match reply {
                Reply::Choice(selected) => 1 <= selected <= 5,
                _ => reply is Failed,
            },
            RetryPhase::Resetting => reply.is_done_or_failed(),
            RetryPhase::Checking => reply is Done,
            RetryPhase::Over => false,
        }
    }

    /// Whether the reply is one of those.
    pub fn accepts(&self, reply: &Reply) -> (r: bool)
        ensures
            r == self.expects(*reply),
    {
        match (self.phase, reply) {
            (RetryPhase::Pairing | RetryPhase::Manual, Reply::Phone(_) | Reply::Failed(_)) => true,
            (RetryPhase::Choosing, Reply::Choice(selected)) => 1 <= *selected && *selected <= 5,
            (RetryPhase::Choosing, Reply::Failed(_)) => true,
            (RetryPhase::Resetting, Reply::Done | Reply::Failed(_)) => true,
            (RetryPhase::Checking, Reply::Done) => true,
            _ => false,
        }
    }

    /// A flow begins in this state and with this step.
    pub open spec fn opens(timeout: Nanos, flow: Self, step: Step) -> bool {
        &&& flow == (PairingRetry { timeout, phase: RetryPhase::Pairing })
        &&& step.asks(seq![], Request::PairAndConnect(timeout))
    }

    /// Begins with an attempt by QR code.
    pub fn begin(timeout: Nanos) -> (begun: (PairingRetry, Step))
        ensures
            Self::opens(timeout, begun.0, begun.1),
    {
        let step = Script::new().ask(Request::PairAndConnect(timeout));
        (PairingRetry { timeout, phase: RetryPhase::Pairing }, step)
    }

    /// What a reply leads to.
    pub open spec fn leads_to(self, reply: Reply, then: PairingRetry, step: Step) -> bool {
        &&& then.timeout == self.timeout
        &&& match (self.phase, reply) {
            (RetryPhase::Pairing, Reply::Failed(failure)) => {
                &&& then.phase == RetryPhase::Choosing
                &&& step.offers(
                    seq![
                        if failure.cancelled {
                            Notice::Success("Pairing cancelled."@)
                        } else {
                            Notice::Error(failure.message@)
                        },
                    ],
                    retry_options(),
                )
            },
            (RetryPhase::Choosing, Reply::Choice(selected)) => if selected == 1 {
                &&& then.phase == RetryPhase::Pairing
                &&& step.asks(seq![], Request::PairAndConnect(self.timeout))
            } else if selected == 2 {
                &&& then.phase == RetryPhase::Manual
                &&& step.asks(seq![], Request::ManualConnectFlow(self.timeout))
            } else if selected == 3 {
                &&& then.phase == RetryPhase::Resetting
                &&& step.asks(seq![], Request::ResetAdbServer)
            } else if selected == 4 {
                &&& then.phase == RetryPhase::Manual
                &&& step.asks(seq![], Request::PairingCodeFlow(self.timeout))
            } else {
                &&& then.phase == RetryPhase::Over
                &&& step.script@ =~= seq![]
                &&& match step.next {
                    Next::Give(Reply::Failed(failure)) => failure.cancelled && failure.message@
                        == "cancelled"@,
                    _ => false,
                }
            },
            (RetryPhase::Manual, Reply::Failed(failure)) => if failure.cancelled {
                &&& then.phase == RetryPhase::Over
                &&& step.gives(seq![], reply)
            } else {
                &&& then.phase == RetryPhase::Pairing
                &&& step.asks(
                    seq![Notice::Error(failure.message@)],
                    Request::PairAndConnect(self.timeout),
                )
            },
            (RetryPhase::Resetting, Reply::Done) => {
                &&& then.phase == RetryPhase::Checking
                &&& step.asks(seq![], Request::WarnIfMdnsCheckFails)
            },
            (RetryPhase::Checking, _) => {
                &&& then.phase == RetryPhase::Pairing
                &&& step.asks(seq![], Request::PairAndConnect(self.timeout))
            },
            _ => {
                &&& then.phase == RetryPhase::Over
                &&& step.gives(seq![], reply)
            },
        }
    }
}

/// Goes on with the attempts to pair.
pub fn retrying_pairing_flow(retry: &mut PairingRetry, reply: Reply) -> (step: Step)
    requires
        old(retry).expects(reply),
    ensures
        old(retry).leads_to(reply, *final(retry), step),
{
    match (retry.phase, reply) {
        (RetryPhase::Pairing, Reply::Failed(failure)) => {
            let notice = if failure.cancelled {
                Notice::Success("Pairing cancelled.".to_owned())
            } else {
                Notice::Error(failure.message)
            };
            retry.phase = RetryPhase::Choosing;
            Script::new().say(notice).ask(Request::Menu(retry_menu()))
        },
        (RetryPhase::Choosing, Reply::Choice(selected)) => match selected {
            1 => {
                retry.phase = RetryPhase::Pairing;
                Script::new().ask(Request::PairAndConnect(retry.timeout))
            },
            2 => {
                retry.phase = RetryPhase::Manual;
                Script::new().ask(Request::ManualConnectFlow(retry.timeout))
            },
            3 => {
                retry.phase = RetryPhase::Resetting;
                Script::new().ask(Request::ResetAdbServer)
            },
            4 => {
                retry.phase = RetryPhase::Manual;
                Script::new().ask(Request::PairingCodeFlow(retry.timeout))
            },
            _ => {
                retry.phase = RetryPhase::Over;
                Script::new().give(Reply::Failed(Failure::cancelled()))
            },
        },
        (RetryPhase::Manual, Reply::Failed(failure)) => if failure.cancelled {
            retry.phase = RetryPhase::Over;
            Script::new().give(Reply::Failed(failure))
        } else {
            retry.phase = RetryPhase::Pairing;
            Script::new().say(Notice::Error(failure.message)).ask(
                Request::PairAndConnect(retry.timeout),
            )
        },
        (RetryPhase::Resetting, Reply::Done) => {
            retry.phase = RetryPhase::Checking;
            Script::new().ask(Request::WarnIfMdnsCheckFails)
        },
        (RetryPhase::Checking, _) => {
            retry.phase = RetryPhase::Pairing;
            Script::new().ask(Request::PairAndConnect(retry.timeout))
        },
        (_, reply) => {
            retry.phase = RetryPhase::Over;
            Script::new().give(reply)
        },
    }
}

/// A run of pairing by a QR code: from state to state by replies that were expected, each with
/// the step that it led to.
pub open spec fn is_qr_pairing_run(
    states: Seq<QrPairing>,
    replies: Seq<Reply>,
    steps: Seq<Step>,
) -> bool {
    &&& states.len() == replies.len() + 1
    &&& steps.len() == replies.len()
    &&& forall|i: int|
        0 <= i < replies.len() ==> states[i].expects(replies[i]) && states[i].leads_to(
            replies[i],
            states[i + 1],
            #[trigger] steps[i],
        )
}

impl QrPairingPhase {
    /// How far the pairing has come.
    pub open spec fn rank(self) -> int {
        match self {
            QrPairingPhase::ListingServices => 0,
            QrPairingPhase::SortingServices => 1,
            QrPairingPhase::Listing => 2,
            QrPairingPhase::Sorting => 3,
            QrPairingPhase::Generating => 4,
            QrPairingPhase::Rendering => 5,
            QrPairingPhase::WaitingForScan => 6,
            QrPairingPhase::Pairing => 7,
            QrPairingPhase::Searching => 8,
            QrPairingPhase::Over => 9,
        }
    }
}

/// The pairing only ever goes forward, and keeps what it has come to know.
proof fn lemma_qr_pairing_keeps(
    states: Seq<QrPairing>,
    replies: Seq<Reply>,
    steps: Seq<Step>,
    from: int,
    to: int,
)
    requires
        is_qr_pairing_run(states, replies, steps),
        0 <= from <= to < states.len(),
    ensures
        states[from].timeout == states[to].timeout,
        states[from].phase.rank() + (to - from) <= states[to].phase.rank(),
        states[from].phase.rank() >= 2 ==> states[from].baseline_services
            == states[to].baseline_services,
        states[from].phase.rank() >= 4 ==> states[from].baseline == states[to].baseline,
        states[from].phase.rank() >= 5 ==> states[from].instance == states[to].instance
            && states[from].secret == states[to].secret,
        states[from].phase.rank() >= 7 ==> states[from].pairing_address
            == states[to].pairing_address,
    decreases to - from,
{
    if from < to {
        lemma_qr_pairing_keeps(states, replies, steps, from, to - 1);
        assert(states[to - 1].leads_to(replies[to - 1], states[to], steps[to - 1]));
    }
}

/// The phone that is waited for is the one that scans the code that is shown, and it is paired
/// with the secret of that code.
pub proof fn law_qr_pairing_uses_the_code_that_is_shown(
    states: Seq<QrPairing>,
    replies: Seq<Reply>,
    steps: Seq<Step>,
    i: int,
    j: int,
    shown_instance: String,
    shown_secret: String,
)
    requires
        is_qr_pairing_run(states, replies, steps),
        0 <= i < j < steps.len(),
        steps[i].next == Next::Ask(
            Request::RenderQr { instance: shown_instance, secret: shown_secret },
        ),
    ensures
        match steps[j].next {
            Next::Ask(Request::WaitForPairingEndpoint { instance, timeout }) => instance
                == shown_instance && timeout == states[0].timeout,
            Next::Ask(Request::Pair { address, secret }) => secret == shown_secret && replies[j]
                == Reply::Pairing(PairingWaitOutcome::PairingEndpoint(address)),
            _ => true,
        },
{
    assert(states[i].leads_to(replies[i], states[i + 1], steps[i]));
    assert(states[j].leads_to(replies[j], states[j + 1], steps[j]));
    lemma_qr_pairing_keeps(states, replies, steps, i + 1, j);
    lemma_qr_pairing_keeps(states, replies, steps, 0, j);
}

/// What the phone is told apart by when it connects is what was there before the code was
/// shown, and it is searched where it was paired.
pub proof fn law_qr_pairing_compares_with_what_was_there_before(
    states: Seq<QrPairing>,
    replies: Seq<Reply>,
    steps: Seq<Step>,
    i: int,
    j: int,
    k: int,
    l: int,
    address: String,
    secret: String,
)
    requires
        is_qr_pairing_run(states, replies, steps),
        0 <= i < l,
        0 <= j < l,
        0 <= k < l < steps.len(),
        states[i].phase == QrPairingPhase::SortingServices,
        states[j].phase == QrPairingPhase::Sorting,
        steps[k].next == Next::Ask(Request::Pair { address, secret }),
        steps[l].next is Ask && steps[l].next->Ask_0 is ConnectAndWaitForDevice,
    ensures
        i < k && j < k,
        match (replies[i], replies[j], steps[l].next) {
            (
                Reply::Services(services),
                Reply::Texts(serials),
                Next::Ask(
                    Request::ConnectAndWaitForDevice {
                        pairing_address,
                        baseline_services,
                        baseline,
                        timeout,
                    },
                ),
            ) => {
                &&& pairing_address@ == address@
                &&& baseline_services@ == services@
                &&& baseline@ == serials@
                &&& timeout == states[0].timeout
            },
            _ => false,
        },
{
    assert(states[i].leads_to(replies[i], states[i + 1], steps[i]));
    assert(states[j].leads_to(replies[j], states[j + 1], steps[j]));
    assert(states[k].leads_to(replies[k], states[k + 1], steps[k]));
    assert(states[l].leads_to(replies[l], states[l + 1], steps[l]));
    lemma_qr_pairing_keeps(states, replies, steps, i + 1, l);
    lemma_qr_pairing_keeps(states, replies, steps, j + 1, l);
    lemma_qr_pairing_keeps(states, replies, steps, k + 1, l);
    lemma_qr_pairing_keeps(states, replies, steps, 0, l);
    if k <= i {
        lemma_qr_pairing_keeps(states, replies, steps, k, i);
    }
    if k <= j {
        lemma_qr_pairing_keeps(states, replies, steps, k, j);
    }
}

/// Pairing by a QR code is over after nine replies at the latest.
pub proof fn law_qr_pairing_ends(
    states: Seq<QrPairing>,
    replies: Seq<Reply>,
    steps: Seq<Step>,
)
    requires
        is_qr_pairing_run(states, replies, steps),
    ensures
        replies.len() <= 9,
{
    lemma_qr_pairing_keeps(states, replies, steps, 0, replies.len() as int);
}

/// The phone that pairing by a QR code ends with is one that was found.
pub proof fn law_qr_pairing_gives_only_what_was_found(
    pairing: QrPairing,
    reply: Reply,
    then: QrPairing,
    step: Step,
    phone: ConnectedPhone,
)
    requires
        pairing.expects(reply),
        pairing.leads_to(reply, then, step),
        step.next == Next::Give(Reply::Phone(phone)),
    ensures
        match reply {
            Reply::Pairing(PairingWaitOutcome::AlreadyConnected(known)) => known == phone,
            Reply::Device(found) => phone == device::phone_of(found),
            _ => false,
        },
{
}

/// After pairing by a code, the endpoints that the user entered are the ones that are used: the
/// first for pairing and the second for connecting.
pub proof fn law_code_pairing_uses_what_was_entered(
    first: CodePairing,
    pairing_endpoint: String,
    second: CodePairing,
    code: String,
    third: CodePairing,
    fourth: CodePairing,
    connect_endpoint: String,
    fifth: CodePairing,
    listing: Reply,
    sixth: CodePairing,
    baseline: Vec<String>,
    last: CodePairing,
    steps: Seq<Step>,
)
    requires
        first.phase == CodePairingPhase::PromptingPairingEndpoint,
        steps.len() == 6,
        first.leads_to(Reply::Text(pairing_endpoint), second, steps[0]),
        second.leads_to(Reply::Text(code), third, steps[1]),
        third.leads_to(Reply::Done, fourth, steps[2]),
        fourth.leads_to(Reply::Text(connect_endpoint), fifth, steps[3]),
        fifth.leads_to(listing, sixth, steps[4]),
        sixth.leads_to(Reply::Texts(baseline), last, steps[5]),
    ensures
        steps[1].next == Next::Ask(Request::Pair { address: pairing_endpoint, secret: code }),
        steps[5].asks_to_connect(seq![], connect_endpoint@, baseline@, first.timeout),
{
}

/// The attempts end only with a phone that one of them gave, because the user gave up, or
/// because the user could not be asked or the server not be restarted.
pub proof fn law_retrying_ends_only_for_a_reason(
    retry: PairingRetry,
    reply: Reply,
    then: PairingRetry,
    step: Step,
)
    requires
        retry.expects(reply),
        retry.leads_to(reply, then, step),
    ensures
        then.timeout == retry.timeout,
        match step.next {
            Next::Give(Reply::Failed(failure)) => failure.cancelled || (reply == Reply::Failed(
                failure,
            ) && (retry.phase == RetryPhase::Choosing || retry.phase == RetryPhase::Resetting)),
            Next::Give(result) => result is Phone && reply == result,
            Next::Ask(_) => true,
        },
{
}

/// Whatever a failed attempt was, another one follows or the user decides.
pub proof fn law_failed_attempt_is_reported_and_retried(
    retry: PairingRetry,
    failure: Failure,
    then: PairingRetry,
    step: Step,
)
    requires
        retry.phase == RetryPhase::Pairing || retry.phase == RetryPhase::Manual,
        retry.leads_to(Reply::Failed(failure), then, step),
        !failure.cancelled,
    ensures
        step.script@ == seq![Notice::Error(failure.message@)],
        step.lets_choose() || step.next == Next::Ask(Request::PairAndConnect(retry.timeout)),
{
}

/// What was there before a phone is paired is taken from what is listed, whole; only a listing
/// that failed counts as empty.
pub proof fn law_qr_pairing_records_what_is_listed(
    pairing: QrPairing,
    reply: Reply,
    then: QrPairing,
    step: Step,
)
    requires
        pairing.expects(reply),
        pairing.leads_to(reply, then, step),
    ensures
        pairing.phase == QrPairingPhase::ListingServices ==> match (reply, step.next) {
            (Reply::Services(listed), Next::Ask(Request::ConnectServices(services))) => services@
                == listed@,
            (Reply::Failed(_), Next::Ask(Request::ConnectServices(services))) => services@.len()
                == 0,
            _ => false,
        },
        pairing.phase == QrPairingPhase::SortingServices ==> step.next == Next::Ask(
            Request::Devices,
        ) && then.baseline_services@ == reply->Services_0@,
        pairing.phase == QrPairingPhase::Listing ==> match (reply, step.next) {
            (Reply::Devices(listed), Next::Ask(Request::ReadySerials(devices))) => devices@
                == listed@,
            (Reply::Failed(_), Next::Ask(Request::ReadySerials(devices))) => devices@.len() == 0,
            _ => false,
        },
        pairing.phase == QrPairingPhase::Sorting ==> step.next == Next::Ask(Request::GenerateQr)
            && then.baseline@ == reply->Texts_0@,
{
}

/// The code that is shown is drawn for the name and the secret that were made up, and shown as it
/// was drawn; the phone that scans it is then waited for, paired and searched, in this order.
pub proof fn law_qr_pairing_goes_through_its_steps(
    pairing: QrPairing,
    reply: Reply,
    then: QrPairing,
    step: Step,
)
    requires
        pairing.expects(reply),
        pairing.leads_to(reply, then, step),
    ensures
        then.timeout == pairing.timeout,
        match reply {
            Reply::Qr { instance: made, secret: kept } => match step.next {
                Next::Ask(Request::RenderQr { instance, secret }) => instance@ == made@ && secret@
                    == kept@,
                _ => false,
            },
            Reply::Text(code) => step.script@[0] == Notice::QrCode(code@) && match step.next {
                Next::Ask(Request::WaitForPairingEndpoint { instance, timeout }) => instance@
                    == pairing.instance@ && timeout == pairing.timeout,
                _ => false,
            },
            Reply::Pairing(PairingWaitOutcome::PairingEndpoint(found)) => match step.next {
                Next::Ask(Request::Pair { address, secret }) => address@ == found@ && secret@
                    == pairing.secret@,
                _ => false,
            },
            Reply::Pairing(PairingWaitOutcome::AlreadyConnected(phone)) => step.next == Next::Give(
                Reply::Phone(phone),
            ),
            Reply::Done => match step.next {
                Next::Ask(
                    Request::ConnectAndWaitForDevice {
                        pairing_address,
                        baseline_services,
                        baseline,
                        timeout,
                    },
                ) => {
                    &&& pairing_address@ == pairing.pairing_address@
                    &&& baseline_services@ == pairing.baseline_services@
                    &&& baseline@ == pairing.baseline@
                    &&& timeout == pairing.timeout
                },
                _ => false,
            },
            Reply::Device(found) => match step.next {
                Next::Give(Reply::Phone(phone)) => phone.serial == found.serial
                    && phone.display_name == found.display_name,
                _ => false,
            },
            Reply::Failed(_) => pairing.phase == QrPairingPhase::ListingServices || pairing.phase
                == QrPairingPhase::Listing || step.next == Next::Give(reply),
            _ => true,
        },
{
}

/// Pairing by a code asks for the endpoint, then for the code, pairs with both, and connects to
/// the second endpoint that is entered, compared with the devices that were ready before.
pub proof fn law_code_pairing_goes_through_its_steps(
    pairing: CodePairing,
    reply: Reply,
    then: CodePairing,
    step: Step,
)
    requires
        pairing.expects(reply),
        pairing.leads_to(reply, then, step),
    ensures
        then.timeout == pairing.timeout,
        match (pairing.phase, reply) {
            (CodePairingPhase::PromptingPairingEndpoint, Reply::Text(entered)) => {
                &&& then.pairing_endpoint@ == entered@
                &&& then.phase == CodePairingPhase::PromptingCode
                &&& step.next is Ask && step.next->Ask_0 is Prompt
            },
            (CodePairingPhase::PromptingCode, Reply::Text(code)) => {
                &&& then.phase == CodePairingPhase::Pairing
                &&& step.script@.last() == Notice::Status(
                    "Pairing with "@ + pairing.pairing_endpoint@ + "..."@,
                )
                &&& match step.next {
                    Next::Ask(Request::Pair { address, secret }) => address@
                        == pairing.pairing_endpoint@ && secret@ == code@,
                    _ => false,
                }
            },
            (CodePairingPhase::Pairing, Reply::Done) => {
                &&& then.phase == CodePairingPhase::PromptingEndpoint
                &&& step.next is Ask && step.next->Ask_0 is PromptEndpoint
            },
            (CodePairingPhase::PromptingEndpoint, Reply::Text(entered)) => {
                &&& then.connect_endpoint@ == entered@
                &&& then.phase == CodePairingPhase::Listing
                &&& step.next == Next::Ask(Request::Devices)
            },
            (CodePairingPhase::Listing, _) => {
                &&& then.phase == CodePairingPhase::Sorting
                &&& then.connect_endpoint@ == pairing.connect_endpoint@
                &&& match (reply, step.next) {
                    (Reply::Devices(listed), Next::Ask(Request::ReadySerials(devices))) => devices@
                        == listed@,
                    (Reply::Failed(_), Next::Ask(Request::ReadySerials(devices))) => devices@.len()
                        == 0,
                    _ => false,
                }
            },
            (CodePairingPhase::Sorting, Reply::Texts(ready)) => match step.next {
                Next::Ask(Request::ConnectToEndpoint { endpoint, baseline, timeout }) => {
                    &&& endpoint@ == pairing.connect_endpoint@
                    &&& baseline@ == ready@
                    &&& timeout == pairing.timeout
                },
                _ => false,
            },
            (CodePairingPhase::Connecting, Reply::Device(found)) => match step.next {
                Next::Give(Reply::Phone(phone)) => phone.serial == found.serial
                    && phone.display_name == found.display_name,
                _ => false,
            },
            _ => reply is Failed && step.next == Next::Give(reply),
        },
{
}

/// From the menu that follows a failed attempt, the user gets what the option says.
pub proof fn law_retry_menu_means_what_it_says(
    before: PairingRetry,
    failure: Failure,
    retry: PairingRetry,
    offer: Step,
    options: Vec<String>,
    selected: usize,
    then: PairingRetry,
    step: Step,
)
    requires
        before.phase == RetryPhase::Pairing,
        before.leads_to(Reply::Failed(failure), retry, offer),
        offer.next == Next::Ask(Request::Menu(options)),
        1 <= selected <= options@.len(),
        retry.leads_to(Reply::Choice(selected), then, step),
    ensures
        options@.len() == 5,
        offer.script@ == seq![
            if failure.cancelled {
                Notice::Success("Pairing cancelled."@)
            } else {
                Notice::Error(failure.message@)
            },
        ],
        match step.next {
            Next::Ask(Request::PairAndConnect(timeout)) => options@[selected - 1]@
                == "Retry QR pairing"@ && timeout == before.timeout,
            Next::Ask(Request::ManualConnectFlow(timeout)) => options@[selected - 1]@
                == "Enter phone IP:port manually"@ && timeout == before.timeout,
            Next::Ask(Request::ResetAdbServer) => options@[selected - 1]@
                == "Reset ADB server and retry"@,
            Next::Ask(Request::PairingCodeFlow(timeout)) => options@[selected - 1]@
                == "Pair with pairing code"@ && timeout == before.timeout,
            Next::Give(Reply::Failed(given)) => options@[selected - 1]@ == "Close"@
                && given.cancelled,
            _ => false,
        },
{
    assert(options@.len() == options.deep_view().len());
    assert(options.deep_view()[selected - 1] == options@[selected - 1]@);
}

/// A phone ends the attempts; after the server was restarted its discovery is checked, and then
/// comes another attempt by QR code; so does one after another way to a phone has failed.
pub proof fn law_retrying_goes_on(
    retry: PairingRetry,
    reply: Reply,
    then: PairingRetry,
    step: Step,
)
    requires
        retry.expects(reply),
        retry.leads_to(reply, then, step),
    ensures
        match (retry.phase, reply) {
            (_, Reply::Phone(_)) => step.next == Next::Give(reply),
            (RetryPhase::Resetting, Reply::Done) => step.next == Next::Ask(
                Request::WarnIfMdnsCheckFails,
            ) && then.phase == RetryPhase::Checking,
            (RetryPhase::Checking, _) => step.next == Next::Ask(
                Request::PairAndConnect(retry.timeout),
            ) && then.phase == RetryPhase::Pairing,
            (RetryPhase::Manual, Reply::Failed(failure)) => if failure.cancelled {
                step.next == Next::Give(reply)
            } else {
                step.next == Next::Ask(Request::PairAndConnect(retry.timeout)) && then.phase
                    == RetryPhase::Pairing
            },
            (RetryPhase::Choosing, Reply::Failed(_)) => step.next == Next::Give(reply),
            (RetryPhase::Resetting, Reply::Failed(_)) => step.next == Next::Give(reply),
            _ => true,
        },
{
}

/// While a phone is paired by a QR code, the user is told how to scan it, sees it, and learns that
/// the phone was found and is searched; nothing else is said.
pub proof fn law_qr_pairing_tells_what_it_does(
    pairing: QrPairing,
    reply: Reply,
    then: QrPairing,
    step: Step,
)
    requires
        pairing.expects(reply),
        pairing.leads_to(reply, then, step),
    ensures
        match step.next {
            Next::Ask(Request::RenderQr { .. }) => step.script@ == seq![
                Notice::<Seq<char>>::Section(Topic::PairWithQrCode),
            ],
            Next::Ask(Request::WaitForPairingEndpoint { .. }) => {
                &&& step.script@.len() == 3
                &&& step.script@[0] is QrCode
                &&& step.script@.last() is CancelHint
            },
            Next::Ask(Request::Pair { .. }) => step.script@ == seq![
                Notice::Success("Phone found. Completing ADB pairing..."@),
            ],
            Next::Ask(Request::ConnectAndWaitForDevice { .. }) => step.script@ == seq![
                Notice::Status("Looking for the wireless debugging connection endpoint..."@),
            ],
            _ => step.script@.len() == 0,
        },
        step.next is Give <==> then.phase == QrPairingPhase::Over,
{
}

/// While a phone is paired by a code, the user is asked by name for what is needed next, and learns
/// that the pairing succeeded only if it did.
pub proof fn law_code_pairing_asks_for_what_it_needs(
    pairing: CodePairing,
    reply: Reply,
    then: CodePairing,
    step: Step,
)
    requires
        pairing.expects(reply),
        pairing.leads_to(reply, then, step),
    ensures
        match step.next {
            Next::Ask(Request::Prompt(label)) => {
                &&& label@ == "Enter pairing code"@
                &&& pairing.phase == CodePairingPhase::PromptingPairingEndpoint
                &&& step.script@.len() == 0
            },
            Next::Ask(Request::PromptEndpoint(label)) => {
                &&& label@ == "Enter phone IP:port"@
                &&& pairing.phase == CodePairingPhase::Pairing
                &&& reply is Done
                &&& step.script@ == seq![
                    Notice::Success("Pairing succeeded."@),
                    Notice::Section(Topic::ConnectPairedPhone),
                ]
            },
            Next::Ask(Request::Pair { .. }) => step.script@.len() == 1,
            _ => step.script@.len() == 0,
        },
        step.next is Give <==> then.phase == CodePairingPhase::Over,
{
}

/// Where an attempt by QR code fails, however it came about, the user decides how to go on; where
/// another way fails that the user did not cancel, an attempt by QR code follows.
pub proof fn law_every_failed_attempt_is_followed_by_its_own(
    retry: PairingRetry,
    reply: Reply,
    then: PairingRetry,
    step: Step,
    failure: Failure,
    last: PairingRetry,
    next: Step,
)
    requires
        retry.expects(reply),
        retry.leads_to(reply, then, step),
        then.expects(Reply::Failed(failure)),
        then.leads_to(Reply::Failed(failure), last, next),
    ensures
        match step.next {
            Next::Ask(Request::PairAndConnect(_)) => match next.next {
                Next::Ask(Request::Menu(_)) => true,
                _ => false,
            },
            Next::Ask(Request::ManualConnectFlow(_))
            | Next::Ask(Request::PairingCodeFlow(_)) => if failure.cancelled {
                next.next == Next::Give(Reply::Failed(failure))
            } else {
                next.next == Next::Ask(Request::PairAndConnect(retry.timeout)) && next.script@
                    == seq![Notice::Error(failure.message@)]
            },
            Next::Ask(_) => next.next == Next::Give(Reply::Failed(failure)),
            Next::Give(_) => false,
        },
{
}

} // verus!
