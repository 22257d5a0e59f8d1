//! The program as a whole, and how it finds a phone to begin with.

use vstd::pervasive::unreached;
use vstd::prelude::*;

use crate::choice;
use crate::choice::{chosen_phone, phone_options, with_option};
use crate::cli::Args;
use crate::clock::{Nanos, MILLISECOND, SECOND};
use crate::device;
use crate::device::{ready_connected_phones, ConnectedPhone};
use crate::dialogue::{Next, Notice, Reply, Request, Script, StartupDeviceChoice, Step};
use crate::failure::Failure;
use crate::path;
use crate::path::copy_optional_path;
use crate::text::{three, two};

verus! {

/// The restart of the server of the bridge.
#[derive(Debug, PartialEq, Eq)]
pub struct ServerReset {
    pub over: bool,
}

impl ServerReset {
    /// The replies that the restart can go on with.
    pub open spec fn expects(self, reply: Reply) -> bool {
        !self.over && reply.is_done_or_failed()
    }

    /// Whether the reply is one of those.
    pub fn accepts(&self, reply: &Reply) -> (r: bool)
        ensures
            r == self.expects(*reply),
    {
        match reply {
            Reply::Done | Reply::Failed(_) => !self.over,
            _ => false,
        }
    }

    /// A flow begins in this state and with this step.
    pub open spec fn opens(flow: Self, step: Step) -> bool {
        &&& flow == (ServerReset { over: false })
        &&& step.asks(
            seq![Notice::Status("Resetting local ADB server..."@)],
            Request::ResetServer,
        )
    }

    /// Begins the restart.
    pub fn begin() -> (begun: (ServerReset, Step))
        ensures
            Self::opens(begun.0, begun.1),
    {
        let step = Script::new().status("Resetting local ADB server...").ask(Request::ResetServer);
        (ServerReset { over: false }, step)
    }

    /// What a reply leads to.
    pub open spec fn leads_to(self, reply: Reply, then: ServerReset, step: Step) -> bool {
        &&& then.over
        &&& step.gives(
            if reply is Done {
                seq![Notice::Success("ADB server restarted."@)]
            } else {
                seq![]
            },
            reply,
        )
    }
}

/// Goes on with the restart of the server.
pub fn reset_adb_server(reset: &mut ServerReset, reply: Reply) -> (step: Step)
    requires
        old(reset).expects(reply),
    ensures
        old(reset).leads_to(reply, *final(reset), step),
{
    reset.over = true;
    match reply {
        Reply::Done => Script::new().success("ADB server restarted.").give(Reply::Done),
        _ => Script::new().give(reply),
    }
}

/// The check of the service discovery of the bridge.
#[derive(Debug, PartialEq, Eq)]
pub struct DiscoveryCheck {
    pub over: bool,
}

impl DiscoveryCheck {
    /// The replies that the check can go on with.
    pub open spec fn expects(self, reply: Reply) -> bool {
        !self.over && (reply is MdnsCheck || reply is Failed)
    }

    /// Whether the reply is one of those.
    pub fn accepts(&self, reply: &Reply) -> (r: bool)
        ensures
            r == self.expects(*reply),
    {
        match reply {
            Reply::MdnsCheck { .. } | Reply::Failed(_) => !self.over,
            _ => false,
        }
    }

    /// A flow begins in this state and with this step.
    pub open spec fn opens(flow: Self, step: Step) -> bool {
        &&& flow == (DiscoveryCheck { over: false })
        &&& step.asks(seq![], Request::MdnsCheck)
    }

    /// Begins the check.
    pub fn begin() -> (begun: (DiscoveryCheck, Step))
        ensures
            Self::opens(begun.0, begun.1),
    {
        (DiscoveryCheck { over: false }, Script::new().ask(Request::MdnsCheck))
    }

    /// What a reply leads to: at most a warning.
    pub open spec fn leads_to(self, reply: Reply, then: DiscoveryCheck, step: Step) -> bool {
        &&& then.over
        &&& step.gives(
            match reply {
                Reply::MdnsCheck { success: false, output } => seq![
                    Notice::Warning("adb mdns check reported a problem: "@ + output@),
                ],
                Reply::Failed(failure) => seq![
                    Notice::Warning("could not run adb mdns check: "@ + failure.message@),
                ],
                _ => seq![],
            },
            Reply::Done,
        )
    }
}

/// Goes on with the check of the service discovery.
pub fn warn_if_mdns_check_fails(check: &mut DiscoveryCheck, reply: Reply) -> (step: Step)
    requires
        old(check).expects(reply),
    ensures
        old(check).leads_to(reply, *final(check), step),
{
    check.over = true;
    match reply {
        Reply::MdnsCheck { success, output } => if success {
            Script::new().give(Reply::Done)
        } else {
            Script::new().warning(
                two("adb mdns check reported a problem: ", output.as_str()).as_str(),
            ).give(Reply::Done)
        },
        Reply::Failed(failure) => Script::new().warning(
            two("could not run adb mdns check: ", failure.message.as_str()).as_str(),
        ).give(Reply::Done),
        _ => unreached(),
    }
}

/// The short wait for phones that are connected already.
#[derive(Debug, PartialEq, Eq)]
pub struct StartupWait {
    pub deadline: Nanos,
    pub phase: StartupWaitPhase,
}

/// What the wait is waiting for.
#[derive(Debug, Clone, Copy, PartialEq, Eq, Structural)]
pub enum StartupWaitPhase {
    Listing,
    Pausing,
    Over,
}

impl StartupWait {
    /// The replies that the wait can go on with.
    pub open spec fn expects(self, reply: Reply) -> bool {
        match self.phase {
            StartupWaitPhase::Listing => reply is Devices || reply is Failed,
            StartupWaitPhase::Pausing => reply is Done,
            StartupWaitPhase::Over => false,
        }
    }

    /// Whether the reply is one of those.
    pub fn accepts(&self, reply: &Reply) -> (r: bool)
        ensures
            r == self.expects(*reply),
    {
        match (self.phase, reply) {
            (StartupWaitPhase::Listing, Reply::Devices(_) | Reply::Failed(_)) => true,
            (StartupWaitPhase::Pausing, Reply::Done) => true,
            _ => false,
        }
    }

    /// A flow begins in this state and with this step.
    pub open spec fn opens(timeout: Nanos, now: Nanos, flow: Self, step: Step) -> bool {
        &&& flow == (StartupWait {
            deadline: (now + timeout) as Nanos,
            phase: StartupWaitPhase::Listing,
        })
        &&& step.asks(seq![], Request::Devices)
    }

    /// Begins the wait.
    pub fn begin(timeout: Nanos, now: Nanos) -> (begun: (StartupWait, Step))
        requires
            now + timeout <= Nanos::MAX,
        ensures
            Self::opens(timeout, now, begun.0, begun.1),
    {
        let wait = StartupWait { deadline: now + timeout, phase: StartupWaitPhase::Listing };
        (wait, Script::new().ask(Request::Devices))
    }

    /// What a reply leads to.
    pub open spec fn leads_to(
        self,
        reply: Reply,
        now: Nanos,
        then: StartupWait,
        step: Step,
    ) -> bool {
        &&& then.deadline == self.deadline
        &&& match (self.phase, reply) {
            (StartupWaitPhase::Listing, Reply::Devices(devices)) => {
                let phones = device::ready_phones(devices@);
                if phones.len() > 0 || now >= self.deadline {
                    &&& then.phase == StartupWaitPhase::Over
                    &&& step.script@ =~= seq![]
                    &&& match step.next {
                        Next::Give(Reply::Phones(found)) => found@ == phones,
                        _ => false,
                    }
                } else {
                    &&& then.phase == StartupWaitPhase::Pausing
                    &&& step.asks(seq![], Request::Pause(250_000_000))
                }
            },
            (StartupWaitPhase::Listing, _) => {
                &&& then.phase == StartupWaitPhase::Over
                &&& step.gives(seq![], reply)
            },
            (StartupWaitPhase::Pausing, _) => {
                &&& then.phase == StartupWaitPhase::Listing
                &&& step.asks(seq![], Request::Devices)
            },
            _ => false,
        }
    }
}

/// Goes on with the short wait for phones that are connected already.
pub fn wait_for_startup_connected_phones(wait: &mut StartupWait, reply: Reply, now: Nanos) -> (step:
    Step)
    requires
        old(wait).expects(reply),
    ensures
        old(wait).leads_to(reply, now, *final(wait), step),
{
    match (wait.phase, reply) {
        (StartupWaitPhase::Listing, Reply::Devices(devices)) => {
            let phones = ready_connected_phones(devices);
            if phones.len() > 0 || now >= wait.deadline {
                wait.phase = StartupWaitPhase::Over;
                Script::new().give(Reply::Phones(phones))
            } else {
                wait.phase = StartupWaitPhase::Pausing;
                Script::new().ask(Request::Pause(250 * MILLISECOND))
            }
        },
        (StartupWaitPhase::Listing, reply) => {
            wait.phase = StartupWaitPhase::Over;
            Script::new().give(reply)
        },
        _ => {
            wait.phase = StartupWaitPhase::Listing;
            Script::new().ask(Request::Devices)
        },
    }
}

/// The choice of a phone to begin with.
#[derive(Debug, PartialEq, Eq)]
pub struct StartupChoice {
    /// The phones that the user chooses among.
    pub phones: Vec<ConnectedPhone>,
    pub phase: StartupChoicePhase,
}

/// What the choice is waiting for.
#[derive(Debug, Clone, Copy, PartialEq, Eq, Structural)]
pub enum StartupChoicePhase {
    Waiting,
    Choosing,
    Over,
}

/// What a choice that counts from one means: one of the phones, or else the option after
/// them, or else the end.
pub open spec fn meaning(phones: Seq<ConnectedPhone>, selected: int) -> StartupDeviceChoice {
    match choice::chosen(phones, selected) {
        Some(phone) => StartupDeviceChoice::Connected(phone),
        None => if selected == phones.len() + 1 {
            StartupDeviceChoice::PairNew
        } else {
            StartupDeviceChoice::Close
        },
    }
}

impl StartupChoice {
    /// The replies that the choice can go on with.
    pub open spec fn expects(self, reply: Reply) -> bool {
        match self.phase {
            StartupChoicePhase::Waiting => reply is Phones || reply is Failed,
            StartupChoicePhase::Choosing => match reply {
                Reply::Choice(selected) => selected >= 1,
                _ => reply is Failed,
            },
            StartupChoicePhase::Over => false,
        }
    }

    /// Whether the reply is one of those.
    pub fn accepts(&self, reply: &Reply) -> (r: bool)
        ensures
            r == self.expects(*reply),
    {
        match (self.phase, reply) {
            (StartupChoicePhase::Waiting, Reply::Phones(_) | Reply::Failed(_)) => true,
            (StartupChoicePhase::Choosing, Reply::Choice(selected)) => *selected >= 1,
            (StartupChoicePhase::Choosing, Reply::Failed(_)) => true,
            _ => false,
        }
    }

    /// A flow begins in this state and with this step.
    pub open spec fn opens(flow: Self, step: Step) -> bool {
        &&& flow.phones@.len() == 0
        &&& flow.phase == StartupChoicePhase::Waiting
        &&& step.asks(seq![], Request::WaitForStartupConnectedPhones(2_000_000_000))
    }

    /// Begins with a short wait for phones.
    pub fn begin() -> (begun: (StartupChoice, Step))
        ensures
            Self::opens(begun.0, begun.1),
    {
        let choice = StartupChoice { phones: Vec::new(), phase: StartupChoicePhase::Waiting };
        (choice, Script::new().ask(Request::WaitForStartupConnectedPhones(2 * SECOND)))
    }

    /// What a reply leads to.
    pub open spec fn leads_to(self, reply: Reply, then: StartupChoice, step: Step) -> bool {
        match (self.phase, reply) {
            (StartupChoicePhase::Waiting, Reply::Phones(phones)) => if phones@.len() == 0 {
                &&& then == StartupChoice { phase: StartupChoicePhase::Over, ..self }
                &&& step.gives(seq![], Reply::Startup(StartupDeviceChoice::PairNew))
            } else if phones@.len() == 1 {
                &&& then == StartupChoice { phase: StartupChoicePhase::Over, ..self }
                &&& step.gives(
                    seq![
                        Notice::Success(
                            "ADB is already connected to "@ + phones@[0].display_name@ + "."@,
                        ),
                    ],
                    Reply::Startup(StartupDeviceChoice::Connected(phones@[0])),
                )
            } else {
                &&& then == StartupChoice { phones, phase: StartupChoicePhase::Choosing }
                &&& step.offers(
                    seq![Notice::Status("ADB is already connected to multiple devices."@)],
                    choice::options_for(phones@, seq!["Pair a new phone"@, "Close"@]),
                )
            },
            (StartupChoicePhase::Choosing, Reply::Choice(selected)) => {
                &&& then == StartupChoice { phase: StartupChoicePhase::Over, ..self }
                &&& step.gives(
                    seq![],
                    Reply::Startup(meaning(self.phones@, selected as int)),
                )
            },
            _ => {
                &&& then == StartupChoice { phase: StartupChoicePhase::Over, ..self }
                &&& step.gives(seq![], reply)
            },
        }
    }
}

/// Goes on with the choice of a phone to begin with.
pub fn startup_device_choice(choice: &mut StartupChoice, reply: Reply) -> (step: Step)
    requires
        old(choice).expects(reply),
    ensures
        old(choice).leads_to(reply, *final(choice), step),
{
    match (choice.phase, reply) {
        (StartupChoicePhase::Waiting, Reply::Phones(phones)) => if phones.len() == 0 {
            choice.phase = StartupChoicePhase::Over;
            Script::new().give(Reply::Startup(StartupDeviceChoice::PairNew))
        } else if phones.len() == 1 {
            choice.phase = StartupChoicePhase::Over;
            let phone = phones[0].clone();
            Script::new().success(
                three(
                    "ADB is already connected to ",
                    phone.display_name.as_str(),
                    ".",
                ).as_str(),
            ).give(Reply::Startup(StartupDeviceChoice::Connected(phone)))
        } else {
            let options = with_option(
                with_option(phone_options(&phones), "Pair a new phone"),
                "Close",
            );
            assert(options.deep_view() =~= choice::options_for(
                phones@,
                seq!["Pair a new phone"@, "Close"@],
            ));
            choice.phones = phones;
            choice.phase = StartupChoicePhase::Choosing;
            Script::new().status("ADB is already connected to multiple devices.").ask(
                Request::Menu(options),
            )
        },
        (StartupChoicePhase::Choosing, Reply::Choice(selected)) => {
            let chosen = match chosen_phone(&choice.phones, selected) {
                Some(phone) => StartupDeviceChoice::Connected(phone),
                None => if selected - 1 == choice.phones.len() {
                    StartupDeviceChoice::PairNew
                } else {
                    StartupDeviceChoice::Close
                },
            };
            choice.phase = StartupChoicePhase::Over;
            Script::new().give(Reply::Startup(chosen))
        },
        (_, reply) => {
            choice.phase = StartupChoicePhase::Over;
            Script::new().give(reply)
        },
    }
}

/// The program from its start to its end.
#[derive(Debug, PartialEq, Eq)]
pub struct Session {
    pub reset_adb: bool,
    pub timeout: Nanos,
    pub phase: SessionPhase,
}

/// What the program is waiting for.
#[derive(Debug, Clone, Copy, PartialEq, Eq, Structural)]
pub enum SessionPhase {
    Resolving,
    AskingVersion,
    Resetting,
    Checking,
    Choosing,
    Pairing,
    Using,
    Over,
}

impl Session {
    /// The replies that the program can go on with.
    pub open spec fn expects(self, reply: Reply) -> bool {
        match self.phase {
            SessionPhase::Resolving
            | SessionPhase::AskingVersion
            | SessionPhase::Resetting
            | SessionPhase::Using => reply.is_done_or_failed(),
            SessionPhase::Checking => reply is Done,
            SessionPhase::Choosing => reply is Startup || reply is Failed,
            SessionPhase::Pairing => reply is Phone || reply is Failed,
            SessionPhase::Over => false,
        }
    }

    /// Whether the reply is one of those.
    pub fn accepts(&self, reply: &Reply) -> (r: bool)
        ensures
            r == self.expects(*reply),
    {
        match (self.phase, reply) {
            (
                SessionPhase::Resolving
                | SessionPhase::AskingVersion
                | SessionPhase::Resetting
                | SessionPhase::Using,
                Reply::Done | Reply::Failed(_),
            ) => true,
            (SessionPhase::Checking, Reply::Done) => true,
            (SessionPhase::Choosing, Reply::Startup(_) | Reply::Failed(_)) => true,
            (SessionPhase::Pairing, Reply::Phone(_) | Reply::Failed(_)) => true,
            _ => false,
        }
    }

    /// A flow begins in this state and with this step.
    pub open spec fn opens(args: Args, flow: Self, step: Step) -> bool {
        &&& flow == (Session {
            reset_adb: args.reset_adb,
            timeout: (args.timeout * SECOND) as Nanos,
            phase: SessionPhase::Resolving,
        })
        &&& step.asks_bridge(
            seq![
                Notice::Title("airadb"@, "Android wireless debugging companion"@),
                Notice::Status("Checking ADB..."@),
            ],
            path::encoded_option(args.adb),
        )
    }

    /// Begins with the search for the bridge.
    pub fn begin(args: &Args) -> (begun: (Session, Step))
        ensures
            Self::opens(*args, begun.0, begun.1),
    {
        let adb = copy_optional_path(&args.adb);
        let session = Session {
            reset_adb: args.reset_adb,
            timeout: args.timeout as Nanos * SECOND,
            phase: SessionPhase::Resolving,
        };
        let step = Script::new().say(
            Notice::Title("airadb".to_owned(), "Android wireless debugging companion".to_owned()),
        ).status("Checking ADB...").ask(Request::ResolveAdb(adb));
        (session, step)
    }

    /// The program goes on with a phone.
    pub open spec fn uses(self, phone: ConnectedPhone, then: Session, step: Step) -> bool {
        &&& then == Session { phase: SessionPhase::Using, ..self }
        &&& step.asks(
            seq![Notice::Success("Connected to "@ + phone.display_name@)],
            Request::HandleConnectedPhone(phone),
        )
    }

    /// What a reply leads to.
    pub open spec fn leads_to(self, reply: Reply, then: Session, step: Step) -> bool {
        match (self.phase, reply) {
            (SessionPhase::Resolving, Reply::Done) => {
                &&& then == Session { phase: SessionPhase::AskingVersion, ..self }
                &&& step.asks(seq![], Request::AdbVersion)
            },
            (SessionPhase::AskingVersion, Reply::Done) => if self.reset_adb {
                &&& then == Session { phase: SessionPhase::Resetting, ..self }
                &&& step.asks(seq![], Request::ResetAdbServer)
            } else {
                &&& then == Session { phase: SessionPhase::Checking, ..self }
                &&& step.asks(seq![], Request::WarnIfMdnsCheckFails)
            },
            (SessionPhase::Resetting, Reply::Done) => {
                &&& then == Session { phase: SessionPhase::Checking, ..self }
                &&& step.asks(seq![], Request::WarnIfMdnsCheckFails)
            },
            (SessionPhase::Checking, Reply::Done) => {
                &&& then == Session { phase: SessionPhase::Choosing, ..self }
                &&& step.asks(seq![], Request::StartupDeviceChoice)
            },
            (SessionPhase::Choosing, Reply::Startup(StartupDeviceChoice::Connected(phone))) => {
                self.uses(phone, then, step)
            },
            (SessionPhase::Choosing, Reply::Startup(StartupDeviceChoice::PairNew)) => {
                &&& then == Session { phase: SessionPhase::Pairing, ..self }
                &&& step.asks(seq![], Request::RetryingPairingFlow(self.timeout))
            },
            (SessionPhase::Choosing, Reply::Startup(StartupDeviceChoice::Close)) => {
                &&& then == Session { phase: SessionPhase::Over, ..self }
                &&& step.gives(seq![], Reply::Done)
            },
            (SessionPhase::Pairing, Reply::Phone(phone)) => self.uses(phone, then, step),
            _ => {
                &&& then == Session { phase: SessionPhase::Over, ..self }
                &&& step.gives(seq![], reply)
            },
        }
    }

    fn use_phone(&mut self, phone: ConnectedPhone) -> (step: Step)
        ensures
            old(self).uses(phone, *final(self), step),
    {
        self.phase = SessionPhase::Using;
        Script::new().success(two("Connected to ", phone.display_name.as_str()).as_str()).ask(
            Request::HandleConnectedPhone(phone),
        )
    }
}

/// Goes on with the program.
pub fn run(session: &mut Session, reply: Reply) -> (step: Step)
    requires
        old(session).expects(reply),
    ensures
        old(session).leads_to(reply, *final(session), step),
{
    match (session.phase, reply) {
        (SessionPhase::Resolving, Reply::Done) => {
            session.phase = SessionPhase::AskingVersion;
            Script::new().ask(Request::AdbVersion)
        },
        (SessionPhase::AskingVersion, Reply::Done) => if session.reset_adb {
            session.phase = SessionPhase::Resetting;
            Script::new().ask(Request::ResetAdbServer)
        } else {
            session.phase = SessionPhase::Checking;
            Script::new().ask(Request::WarnIfMdnsCheckFails)
        },
        (SessionPhase::Resetting, Reply::Done) => {
            session.phase = SessionPhase::Checking;
            Script::new().ask(Request::WarnIfMdnsCheckFails)
        },
        (SessionPhase::Checking, Reply::Done) => {
            session.phase = SessionPhase::Choosing;
            Script::new().ask(Request::StartupDeviceChoice)
        },
        (SessionPhase::Choosing, Reply::Startup(StartupDeviceChoice::Connected(phone))) => {
            session.use_phone(phone)
        },
        (SessionPhase::Choosing, Reply::Startup(StartupDeviceChoice::PairNew)) => {
            session.phase = SessionPhase::Pairing;
            Script::new().ask(Request::RetryingPairingFlow(session.timeout))
        },
        (SessionPhase::Choosing, Reply::Startup(StartupDeviceChoice::Close)) => {
            session.phase = SessionPhase::Over;
            Script::new().give(Reply::Done)
        },
        (SessionPhase::Pairing, Reply::Phone(phone)) => session.use_phone(phone),
        (_, reply) => {
            session.phase = SessionPhase::Over;
            Script::new().give(reply)
        },
    }
}

/// How the program ends.
#[derive(Debug, PartialEq, Eq)]
pub struct Ending {
    pub success: bool,
    /// What the user is told about it.
    pub error: Option<String>,
}

/// How the program ends with this result: a failure that the user did not ask for is an error,
/// and the user is told about it.
pub fn ending(result: Reply) -> (ending: Ending)
    ensures
        match result {
            Reply::Failed(failure) if !failure.cancelled => ending == (Ending {
                success: false,
                error: Some(failure.message),
            }),
            _ => ending == (Ending { success: true, error: None }),
        },
{
    match result {
        Reply::Failed(failure) => if failure.cancelled {
            Ending { success: true, error: None }
        } else {
            Ending { success: false, error: Some(failure.message) }
        },
        _ => Ending { success: true, error: None },
    }
}

/// The option that the user selects among several phones at the start has the effect that it
/// names.
pub proof fn law_startup_choice_means_what_it_names(phones: Seq<ConnectedPhone>, selected: int)
    requires
        1 <= selected <= phones.len() + 2,
    ensures
        choice::options_for(phones, seq!["Pair a new phone"@, "Close"@])[selected - 1]
            == match meaning(phones, selected) {
            StartupDeviceChoice::Connected(phone) => "Use "@ + phone.display_name@,
            StartupDeviceChoice::PairNew => "Pair a new phone"@,
            StartupDeviceChoice::Close => "Close"@,
        },
        forall|phone: ConnectedPhone|
            meaning(phones, selected) == StartupDeviceChoice::Connected(phone) ==> #[trigger]
            phones.contains(phone),
{
}

/// The wait at the start gives only phones that are ready, and gives none only once its time is
/// up.
pub proof fn law_startup_wait_is_not_cut_short(
    wait: StartupWait,
    reply: Reply,
    now: Nanos,
    then: StartupWait,
    step: Step,
)
    requires
        wait.expects(reply),
        wait.leads_to(reply, now, then, step),
    ensures
        then.deadline == wait.deadline,
        match step.next {
            Next::Give(Reply::Phones(phones)) => {
                &&& reply is Devices
                &&& phones@ == device::ready_phones(reply->Devices_0@)
                &&& phones@.len() == 0 ==> now >= wait.deadline
            },
            Next::Give(result) => result == reply && reply is Failed,
            Next::Ask(Request::Pause(span)) => now < wait.deadline && span == 250 * MILLISECOND,
            Next::Ask(_) => true,
        },
{
}

/// A phone is used only if the user chose it or pairing gave it.
pub proof fn law_session_uses_only_the_phone_it_was_given(
    session: Session,
    reply: Reply,
    then: Session,
    step: Step,
    phone: ConnectedPhone,
)
    requires
        session.expects(reply),
        session.leads_to(reply, then, step),
        step.next == Next::Ask(Request::HandleConnectedPhone(phone)),
    ensures
        reply == Reply::Phone(phone) || reply == Reply::Startup(
            StartupDeviceChoice::Connected(phone),
        ),
        step.script@ == seq![Notice::Success("Connected to "@ + phone.display_name@)],
{
}

impl SessionPhase {
    /// How far the program has come.
    pub open spec fn rank(self) -> int {
        match self {
            SessionPhase::Resolving => 0,
            SessionPhase::AskingVersion => 1,
            SessionPhase::Resetting => 2,
            SessionPhase::Checking => 3,
            SessionPhase::Choosing => 4,
            SessionPhase::Pairing => 5,
            SessionPhase::Using => 6,
            SessionPhase::Over => 7,
        }
    }
}

/// The program only ever goes forward; it restarts the server only if it was asked to, and ends
/// with a failure only if something that it asked for has failed.
pub proof fn law_session_goes_forward(session: Session, reply: Reply, then: Session, step: Step)
    requires
        session.expects(reply),
        session.leads_to(reply, then, step),
    ensures
        session.phase.rank() < then.phase.rank(),
        then.reset_adb == session.reset_adb,
        then.timeout == session.timeout,
        step.next == Next::Ask(Request::ResetAdbServer) ==> session.reset_adb,
        match step.next {
            Next::Give(result) => result is Failed ==> reply == result,
            Next::Ask(_) => !(reply is Failed),
        },
{
}

/// The restart is confirmed exactly if it succeeded, and its outcome is passed on.
pub proof fn law_server_reset_is_confirmed_only_on_success(
    reset: ServerReset,
    reply: Reply,
    then: ServerReset,
    step: Step,
)
    requires
        reset.expects(reply),
        reset.leads_to(reply, then, step),
    ensures
        step.next == Next::Give(reply),
        step.script@.len() == 1 <==> reply is Done,
        step.script@.len() == 1 ==> step.script@[0] == Notice::Success("ADB server restarted."@),
        step.script@.len() <= 1,
{
}

/// A check that went well is not spoken of; a problem is told in the words of the bridge, and a
/// check that failed with its reason; in no case is the program held up.
pub proof fn law_discovery_check_tells_problems(
    check: DiscoveryCheck,
    reply: Reply,
    then: DiscoveryCheck,
    step: Step,
)
    requires
        check.expects(reply),
        check.leads_to(reply, then, step),
    ensures
        step.next == Next::Give(Reply::Done),
        match reply {
            Reply::MdnsCheck { success, output } => if success {
                step.script@.len() == 0
            } else {
                step.script@ == seq![
                    Notice::Warning("adb mdns check reported a problem: "@ + output@),
                ]
            },
            Reply::Failed(failure) => step.script@ == seq![
                Notice::Warning("could not run adb mdns check: "@ + failure.message@),
            ],
            _ => false,
        },
{
}

/// The wait at the start ends as soon as a phone is ready, and looks again after each pause.
pub proof fn law_startup_wait_ends_with_the_first_phones(
    wait: StartupWait,
    reply: Reply,
    now: Nanos,
    then: StartupWait,
    step: Step,
)
    requires
        wait.expects(reply),
        wait.leads_to(reply, now, then, step),
    ensures
        match reply {
            Reply::Devices(listed) => match step.next {
                Next::Give(Reply::Phones(phones)) => phones@ == device::ready_phones(listed@) && (
                phones@.len() > 0 || now >= wait.deadline),
                Next::Ask(Request::Pause(_)) => device::ready_phones(listed@).len() == 0 && now
                    < wait.deadline && then.phase == StartupWaitPhase::Pausing,
                _ => false,
            },
            Reply::Done => step.next == Next::Ask(Request::Devices) && then.phase
                == StartupWaitPhase::Listing,
            _ => step.next == Next::Give(reply),
        },
{
}

/// At the start a single phone is used, several are offered, and without any a new one is
/// paired.
pub proof fn law_startup_choice_heeds_the_phones(
    choice: StartupChoice,
    phones: Vec<ConnectedPhone>,
    then: StartupChoice,
    step: Step,
)
    requires
        choice.expects(Reply::Phones(phones)),
        choice.leads_to(Reply::Phones(phones), then, step),
    ensures
        match step.next {
            Next::Give(Reply::Startup(StartupDeviceChoice::PairNew)) => phones@.len() == 0,
            Next::Give(Reply::Startup(StartupDeviceChoice::Connected(phone))) => {
                &&& phones@.len() == 1
                &&& phone == phones@[0]
                &&& step.script@ == seq![
                    Notice::Success("ADB is already connected to "@ + phone.display_name@ + "."@),
                ]
            },
            Next::Ask(Request::Menu(options)) => {
                &&& phones@.len() > 1
                &&& options@.len() == phones@.len() + 2
                &&& step.script@ == seq![
                    Notice::Status("ADB is already connected to multiple devices."@),
                ]
            },
            _ => false,
        },
{
    if let Next::Ask(Request::Menu(options)) = step.next {
        assert(options@.len() == options.deep_view().len());
    }
}

/// From the menu of phones at the start, the user gets what the option says: the phone of that
/// name at that place, pairing, or the end.
pub proof fn law_startup_takes_the_option_that_was_selected(
    before: StartupChoice,
    phones: Vec<ConnectedPhone>,
    choice: StartupChoice,
    offer: Step,
    options: Vec<String>,
    selected: usize,
    then: StartupChoice,
    step: Step,
)
    requires
        before.expects(Reply::Phones(phones)),
        before.leads_to(Reply::Phones(phones), choice, offer),
        offer.next == Next::Ask(Request::Menu(options)),
        1 <= selected <= options@.len(),
        choice.leads_to(Reply::Choice(selected), then, step),
    ensures
        match step.next {
            Next::Give(Reply::Startup(StartupDeviceChoice::Connected(phone))) => {
                &&& selected <= phones@.len()
                &&& phone == phones@[selected - 1]
                &&& options@[selected - 1]@ == "Use "@ + phone.display_name@
            },
            Next::Give(Reply::Startup(StartupDeviceChoice::PairNew)) => selected == phones@.len()
                + 1 && options@[selected - 1]@ == "Pair a new phone"@,
            Next::Give(Reply::Startup(StartupDeviceChoice::Close)) => selected == phones@.len() + 2
                && options@[selected - 1]@ == "Close"@,
            _ => false,
        },
{
    assert(options@.len() == options.deep_view().len());
    assert(options.deep_view()[selected - 1] == options@[selected - 1]@);
}

/// A choice that could not be made ends the startup with the failure.
pub proof fn law_startup_choice_passes_failures_on(
    choice: StartupChoice,
    failure: Failure,
    then: StartupChoice,
    step: Step,
)
    requires
        choice.expects(Reply::Failed(failure)),
        choice.leads_to(Reply::Failed(failure), then, step),
    ensures
        step.next == Next::Give(Reply::Failed(failure)),
{
}

/// The program finds the bridge, asks for its version, restarts the server exactly if that was
/// asked for, checks the discovery and lets the user choose, in this order; a failure on the way
/// ends it.
pub proof fn law_session_goes_through_its_steps(
    session: Session,
    reply: Reply,
    then: Session,
    step: Step,
)
    requires
        session.expects(reply),
        session.leads_to(reply, then, step),
    ensures
        match (session.phase, reply) {
            (_, Reply::Failed(_)) => step.next == Next::Give(reply),
            (SessionPhase::Resolving, _) => step.next == Next::Ask(Request::AdbVersion)
                && then.phase == SessionPhase::AskingVersion,
            (SessionPhase::AskingVersion, _) => if session.reset_adb {
                step.next == Next::Ask(Request::ResetAdbServer) && then.phase
                    == SessionPhase::Resetting
            } else {
                step.next == Next::Ask(Request::WarnIfMdnsCheckFails) && then.phase
                    == SessionPhase::Checking
            },
            (SessionPhase::Resetting, _) => step.next == Next::Ask(Request::WarnIfMdnsCheckFails)
                && then.phase == SessionPhase::Checking,
            (SessionPhase::Checking, _) => step.next == Next::Ask(Request::StartupDeviceChoice)
                && then.phase == SessionPhase::Choosing,
            (SessionPhase::Choosing, Reply::Startup(StartupDeviceChoice::Connected(phone))) => {
                step.next == Next::Ask(Request::HandleConnectedPhone(phone)) && then.phase
                    == SessionPhase::Using
            },
            (SessionPhase::Choosing, Reply::Startup(StartupDeviceChoice::PairNew)) => step.next
                == Next::Ask(Request::RetryingPairingFlow(session.timeout)) && then.phase
                == SessionPhase::Pairing,
            (SessionPhase::Choosing, _) => step.next == Next::Give(Reply::Done),
            (SessionPhase::Pairing, Reply::Phone(phone)) => step.next == Next::Ask(
                Request::HandleConnectedPhone(phone),
            ) && then.phase == SessionPhase::Using,
            (SessionPhase::Using, _) => step.next == Next::Give(Reply::Done),
            _ => false,
        },
{
}

} // verus!
