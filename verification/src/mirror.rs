//! Mirroring the screen of a connected phone.

use vstd::pervasive::unreached;
use vstd::prelude::*;

use crate::cli::{Args, ScrcpyLaunchMode};
use crate::device::ConnectedPhone;
use crate::dialogue::{Next, Notice, Reply, Request, Script, Step};
use crate::failure::Failure;
use crate::path;
use crate::path::copy_optional_path;
use crate::scrcpy;
use crate::scrcpy::{Scrcpy, ScrcpyLookup, ScrcpyOptions};
use crate::text;
use crate::text::{decimal_text, three};

verus! {

/// What happens to a phone once it is connected.
#[derive(Debug, PartialEq, Eq)]
pub struct PhoneHandling {
    pub over: bool,
}

impl PhoneHandling {
    /// The replies that the handling can go on with.
    pub open spec fn expects(self, reply: Reply) -> bool {
        !self.over && reply.is_done_or_failed()
    }

    /// Whether the reply is one of those.
    pub fn accepts(&self, reply: &Reply) -> (r: bool)
        ensures
            r == self.expects(*reply),
    {
        match reply {
            Reply::Done | Reply::Failed(_) => !self.over,
            _ => false,
        }
    }

    /// A flow begins in this state and with this step.
    pub open spec fn opens(phone: ConnectedPhone, args: Args, flow: Self, step: Step) -> bool {
        &&& flow == (PhoneHandling { over: false })
        &&& step.asks(
            seq![],
            match args.launch_mode() {
                ScrcpyLaunchMode::Menu => Request::ConnectedPhoneMenu(phone),
                ScrcpyLaunchMode::Background => Request::StartScrcpyBackground(phone),
                ScrcpyLaunchMode::Foreground => Request::StartScrcpyForeground(phone),
            },
        )
    }

    /// Begins with what the command line asks for.
    pub fn begin(phone: ConnectedPhone, args: &Args) -> (begun: (PhoneHandling, Step))
        ensures
            Self::opens(phone, *args, begun.0, begun.1),
    {
        let request = match args.scrcpy_launch_mode() {
            ScrcpyLaunchMode::Menu => Request::ConnectedPhoneMenu(phone),
            ScrcpyLaunchMode::Background => Request::StartScrcpyBackground(phone),
            ScrcpyLaunchMode::Foreground => Request::StartScrcpyForeground(phone),
        };
        (PhoneHandling { over: false }, Script::new().ask(request))
    }

    /// What a reply leads to.
    pub open spec fn leads_to(self, reply: Reply, then: PhoneHandling, step: Step) -> bool {
        &&& then.over
        &&& step.gives(seq![], reply)
    }
}

/// Goes on with the handling of a connected phone.
pub fn handle_connected_phone(handling: &mut PhoneHandling, reply: Reply) -> (step: Step)
    requires
        old(handling).expects(reply),
    ensures
        old(handling).leads_to(reply, *final(handling), step),
{
    handling.over = true;
    Script::new().give(reply)
}

/// The menu for a connected phone.
#[derive(Debug, PartialEq, Eq)]
pub struct PhoneMenu {
    pub phone: ConnectedPhone,
    pub phase: PhoneMenuPhase,
}

/// What the menu is waiting for.
#[derive(Debug, Clone, Copy, PartialEq, Eq, Structural)]
pub enum PhoneMenuPhase {
    Choosing,
    /// The program ends once this is done.
    Leaving,
    /// The menu comes back once this is done.
    Mirroring,
    Over,
}

/// What the user can do with a connected phone.
pub open spec fn phone_menu_options() -> Seq<Seq<char>> {
    seq!["Start scrcpy in background and close"@, "Start scrcpy"@, "Close"@]
}

fn phone_menu() -> (options: Vec<String>)
    ensures
        options.deep_view() == phone_menu_options(),
{
    let options: Vec<String> = vec![
        "Start scrcpy in background and close".to_owned(),
        "Start scrcpy".to_owned(),
        "Close".to_owned(),
    ];
    assert(options.deep_view() =~= phone_menu_options());
    options
}

impl PhoneMenu {
    /// The replies that the menu can go on with.
    pub open spec fn expects(self, reply: Reply) -> bool {
        match self.phase {
            PhoneMenuPhase::Choosing => match reply {
                Reply::Choice(selected) => 1 <= selected <= 3,
                _ => reply is Failed,
            },
            PhoneMenuPhase::Leaving | PhoneMenuPhase::Mirroring => reply.is_done_or_failed(),
            PhoneMenuPhase::Over => false,
        }
    }

    /// Whether the reply is one of those.
    pub fn accepts(&self, reply: &Reply) -> (r: bool)
        ensures
            r == self.expects(*reply),
    {
        match (self.phase, reply) {
            (PhoneMenuPhase::Choosing, Reply::Choice(selected)) => 1 <= *selected && *selected
                <= 3,
            (PhoneMenuPhase::Choosing, Reply::Failed(_)) => true,
            (
                PhoneMenuPhase::Leaving | PhoneMenuPhase::Mirroring,
                Reply::Done | Reply::Failed(_),
            ) => true,
            _ => false,
        }
    }

    /// A flow begins in this state and with this step.
    pub open spec fn opens(phone: ConnectedPhone, flow: Self, step: Step) -> bool {
        &&& flow == (PhoneMenu { phone, phase: PhoneMenuPhase::Choosing })
        &&& step.offers(seq![], phone_menu_options())
    }

    /// Shows the menu for the first time.
    pub fn begin(phone: ConnectedPhone) -> (begun: (PhoneMenu, Step))
        ensures
            Self::opens(phone, begun.0, begun.1),
    {
        let step = Script::new().ask(Request::Menu(phone_menu()));
        (PhoneMenu { phone, phase: PhoneMenuPhase::Choosing }, step)
    }

    /// What a reply leads to.
    pub open spec fn leads_to(self, reply: Reply, then: PhoneMenu, step: Step) -> bool {
        &&& then.phone == self.phone
        &&& match (self.phase, reply) {
            (PhoneMenuPhase::Choosing, Reply::Choice(selected)) => if selected == 1 {
                &&& then.phase == PhoneMenuPhase::Leaving
                &&& step.asks(seq![], Request::StartScrcpyBackground(self.phone))
            } else if selected == 2 {
                &&& then.phase == PhoneMenuPhase::Mirroring
                &&& step.asks(seq![], Request::StartScrcpyForeground(self.phone))
            } else {
                &&& then.phase == PhoneMenuPhase::Over
                &&& step.gives(seq![], Reply::Done)
            },
            (PhoneMenuPhase::Mirroring, Reply::Done) => {
                &&& then.phase == PhoneMenuPhase::Choosing
                &&& step.offers(seq![], phone_menu_options())
            },
            _ => {
                &&& then.phase == PhoneMenuPhase::Over
                &&& step.gives(seq![], reply)
            },
        }
    }
}

/// Goes on with the menu for a connected phone.
pub fn connected_phone_menu(menu: &mut PhoneMenu, reply: Reply) -> (step: Step)
    requires
        old(menu).expects(reply),
    ensures
        old(menu).leads_to(reply, *final(menu), step),
{
    match (menu.phase, reply) {
        (PhoneMenuPhase::Choosing, Reply::Choice(selected)) => match selected {
            1 => {
                menu.phase = PhoneMenuPhase::Leaving;
                Script::new().ask(Request::StartScrcpyBackground(menu.phone.clone()))
            },
            2 => {
                menu.phase = PhoneMenuPhase::Mirroring;
                Script::new().ask(Request::StartScrcpyForeground(menu.phone.clone()))
            },
            _ => {
                menu.phase = PhoneMenuPhase::Over;
                Script::new().give(Reply::Done)
            },
        },
        (PhoneMenuPhase::Mirroring, Reply::Done) => {
            menu.phase = PhoneMenuPhase::Choosing;
            Script::new().ask(Request::Menu(phone_menu()))
        },
        (_, reply) => {
            menu.phase = PhoneMenuPhase::Over;
            Script::new().give(reply)
        },
    }
}

/// The search for the program.
#[derive(Debug, PartialEq, Eq)]
pub struct ScrcpySearch {
    pub over: bool,
}

impl ScrcpySearch {
    /// The replies that the search can go on with.
    pub open spec fn expects(self, reply: Reply) -> bool {
        !self.over && (reply is Path || reply is Failed)
    }

    /// Whether the reply is one of those.
    pub fn accepts(&self, reply: &Reply) -> (r: bool)
        ensures
            r == self.expects(*reply),
    {
        match reply {
            Reply::Path(_) | Reply::Failed(_) => !self.over,
            _ => false,
        }
    }

    /// A flow begins in this state and with this step.
    pub open spec fn opens(args: Args, flow: Self, step: Step) -> bool {
        &&& flow.over == args.no_scrcpy_check
        &&& step.script@ =~= seq![]
        &&& match step.next {
            Next::Give(Reply::Scrcpy(scrcpy)) => args.no_scrcpy_check && path::encoded(scrcpy.path)
                == match args.scrcpy {
                Some(path) => path::encoded(path),
                None => vstd::utf8::encode_utf8("scrcpy"@),
            },
            Next::Ask(Request::FindProgram { program, override_path }) => {
                &&& !args.no_scrcpy_check
                &&& program@ == "scrcpy"@
                &&& path::encoded_option(override_path) == path::encoded_option(args.scrcpy)
            },
            _ => false,
        }
    }

    /// Begins with what the command line says: without the check the search is over at once.
    pub fn begin(args: &Args) -> (begun: (ScrcpySearch, Step))
        ensures
            Self::opens(*args, begun.0, begun.1),
    {
        let override_path = copy_optional_path(&args.scrcpy);
        match Scrcpy::resolve(override_path, args.no_scrcpy_check) {
            ScrcpyLookup::Known(scrcpy) => (
                ScrcpySearch { over: true },
                Script::new().give(Reply::Scrcpy(scrcpy)),
            ),
            ScrcpyLookup::Search { program, override_path } => (
                ScrcpySearch { over: false },
                Script::new().ask(Request::FindProgram { program, override_path }),
            ),
        }
    }

    /// What a reply leads to.
    pub open spec fn leads_to(self, reply: Reply, then: ScrcpySearch, step: Step) -> bool {
        &&& then.over
        &&& match reply {
            Reply::Path(path) => step.gives(seq![], Reply::Scrcpy(Scrcpy { path })),
            Reply::Failed(cause) => {
                &&& step.script@ =~= seq![]
                &&& match step.next {
                    Next::Give(Reply::Failed(failure)) => {
                        &&& failure.message@
                            == "scrcpy was not found. Install scrcpy, then try again"@ + ": "@
                            + cause.message@
                        &&& failure.cancelled == cause.cancelled
                    },
                    _ => false,
                }
            },
            _ => false,
        }
    }
}

/// Goes on with the search for the program.
pub fn resolve_scrcpy(search: &mut ScrcpySearch, reply: Reply) -> (step: Step)
    requires
        old(search).expects(reply),
    ensures
        old(search).leads_to(reply, *final(search), step),
{
    search.over = true;
    let outcome = match reply {
        Reply::Path(path) => Ok(path),
        Reply::Failed(cause) => Err(cause),
        _ => unreached(),
    };
    match Scrcpy::found(outcome) {
        Ok(scrcpy) => Script::new().give(Reply::Scrcpy(scrcpy)),
        Err(cause) => Script::new().give(
            Reply::Failed(cause.context("scrcpy was not found. Install scrcpy, then try again")),
        ),
    }
}

/// The start of the program for a phone.
#[derive(Debug, PartialEq, Eq)]
pub struct ScrcpyStart {
    pub phone: ConnectedPhone,
    pub options: ScrcpyOptions,
    /// The program, once it was found.
    pub scrcpy: Option<Scrcpy>,
    pub phase: ScrcpyStartPhase,
}

/// What the start is waiting for.
#[derive(Debug, Clone, Copy, PartialEq, Eq, Structural)]
pub enum ScrcpyStartPhase {
    Resolving,
    Starting,
    Over,
}

impl ScrcpyStart {
    /// A program that is being started was found.
    pub open spec fn wf(self) -> bool {
        self.phase == ScrcpyStartPhase::Starting ==> self.scrcpy is Some
    }

    /// The replies that a start on its own can go on with.
    pub open spec fn expects_background(self, reply: Reply) -> bool {
        match self.phase {
            ScrcpyStartPhase::Resolving => reply is Scrcpy || reply is Failed,
            ScrcpyStartPhase::Starting => reply is Pid || reply is Failed,
            ScrcpyStartPhase::Over => false,
        }
    }

    /// Whether the reply is one of those.
    pub fn accepts_background(&self, reply: &Reply) -> (r: bool)
        ensures
            r == self.expects_background(*reply),
    {
        match (self.phase, reply) {
            (ScrcpyStartPhase::Resolving, Reply::Scrcpy(_) | Reply::Failed(_)) => true,
            (ScrcpyStartPhase::Starting, Reply::Pid(_) | Reply::Failed(_)) => true,
            _ => false,
        }
    }

    /// The replies that a start in the terminal can go on with.
    pub open spec fn expects_foreground(self, reply: Reply) -> bool {
        match self.phase {
            ScrcpyStartPhase::Resolving => reply is Scrcpy || reply is Failed,
            ScrcpyStartPhase::Starting => reply is Exit || reply is Failed,
            ScrcpyStartPhase::Over => false,
        }
    }

    /// Whether the reply is one of those.
    pub fn accepts_foreground(&self, reply: &Reply) -> (r: bool)
        ensures
            r == self.expects_foreground(*reply),
    {
        match (self.phase, reply) {
            (ScrcpyStartPhase::Resolving, Reply::Scrcpy(_) | Reply::Failed(_)) => true,
            (ScrcpyStartPhase::Starting, Reply::Exit(_) | Reply::Failed(_)) => true,
            _ => false,
        }
    }

    /// A flow begins in this state and with this step.
    pub open spec fn opens(phone: ConnectedPhone, args: Args, flow: Self, step: Step) -> bool {
        &&& flow.wf()
        &&& flow.phone == phone
        &&& args.ask_for(flow.options)
        &&& flow.scrcpy is None
        &&& flow.phase == ScrcpyStartPhase::Resolving
        &&& step.asks(seq![], Request::ResolveScrcpy)
    }

    /// Begins with the search for the program.
    pub fn begin(phone: ConnectedPhone, args: &Args) -> (begun: (ScrcpyStart, Step))
        ensures
            Self::opens(phone, *args, begun.0, begun.1),
    {
        let start = ScrcpyStart {
            phone,
            options: args.scrcpy_options(),
            scrcpy: None,
            phase: ScrcpyStartPhase::Resolving,
        };
        (start, Script::new().ask(Request::ResolveScrcpy))
    }

    /// The start ends with this result.
    pub open spec fn ends(
        self,
        said: Seq<Notice<Seq<char>>>,
        reply: Reply,
        then: ScrcpyStart,
        step: Step,
    ) -> bool {
        &&& then == ScrcpyStart { phase: ScrcpyStartPhase::Over, ..self }
        &&& step.gives(said, reply)
    }

    /// The start ends because the program could not be run.
    pub open spec fn ends_not_run(self, cause: Failure, then: ScrcpyStart, step: Step) -> bool {
        &&& then == ScrcpyStart { phase: ScrcpyStartPhase::Over, ..self }
        &&& step.script@ =~= seq![]
        &&& match step.next {
            Next::Give(Reply::Failed(failure)) => self.scrcpy->0.could_not_run(cause, failure),
            _ => false,
        }
    }

    /// What a reply leads to where the program runs on its own.
    pub open spec fn leads_to_background(
        self,
        reply: Reply,
        then: ScrcpyStart,
        step: Step,
    ) -> bool {
        match (self.phase, reply) {
            (ScrcpyStartPhase::Resolving, Reply::Scrcpy(scrcpy)) => {
                &&& then == ScrcpyStart {
                    scrcpy: Some(scrcpy),
                    phase: ScrcpyStartPhase::Starting,
                    ..self
                }
                &&& step.script@ =~= seq![]
                &&& match step.next {
                    Next::Ask(Request::Spawn(command)) => command.starts(
                        scrcpy,
                        self.phone.serial@,
                        self.options,
                    ) && command.silent,
                    _ => false,
                }
            },
            (ScrcpyStartPhase::Starting, Reply::Pid(pid)) => self.ends(
                seq![
                    Notice::Success(
                        "Started scrcpy in the background (pid "@ + text::decimal(pid as nat)
                            + ")."@,
                    ),
                ],
                Reply::Done,
                then,
                step,
            ),
            (ScrcpyStartPhase::Starting, Reply::Failed(cause)) => self.ends_not_run(
                cause,
                then,
                step,
            ),
            _ => self.ends(seq![], reply, then, step),
        }
    }

    /// What a reply leads to where the program keeps the terminal.
    pub open spec fn leads_to_foreground(
        self,
        reply: Reply,
        then: ScrcpyStart,
        step: Step,
    ) -> bool {
        match (self.phase, reply) {
            (ScrcpyStartPhase::Resolving, Reply::Scrcpy(scrcpy)) => {
                &&& then == ScrcpyStart {
                    scrcpy: Some(scrcpy),
                    phase: ScrcpyStartPhase::Starting,
                    ..self
                }
                &&& step.script@ =~= seq![]
                &&& match step.next {
                    Next::Ask(Request::Launch(command)) => command.starts(
                        scrcpy,
                        self.phone.serial@,
                        self.options,
                    ) && !command.silent,
                    _ => false,
                }
            },
            (ScrcpyStartPhase::Starting, Reply::Exit(report)) => if report.success {
                self.ends(seq![], Reply::Done, then, step)
            } else {
                &&& then == ScrcpyStart { phase: ScrcpyStartPhase::Over, ..self }
                &&& step.fails(seq![], "scrcpy exited with status "@ + report.status@)
            },
            (ScrcpyStartPhase::Starting, Reply::Failed(cause)) => self.ends_not_run(
                cause,
                then,
                step,
            ),
            _ => self.ends(seq![], reply, then, step),
        }
    }
}

/// Goes on with the start of the program on its own.
pub fn start_scrcpy_background(start: &mut ScrcpyStart, reply: Reply) -> (step: Step)
    requires
        old(start).wf(),
        old(start).expects_background(reply),
    ensures
        final(start).wf(),
        old(start).leads_to_background(reply, *final(start), step),
{
    match (start.phase, reply) {
        (ScrcpyStartPhase::Resolving, Reply::Scrcpy(scrcpy)) => {
            let command = scrcpy.launch_background(start.phone.serial.as_str(), &start.options);
            start.scrcpy = Some(scrcpy);
            start.phase = ScrcpyStartPhase::Starting;
            Script::new().ask(Request::Spawn(command))
        },
        (ScrcpyStartPhase::Starting, reply) => {
            start.phase = ScrcpyStartPhase::Over;
            let outcome = match reply {
                Reply::Pid(pid) => Ok(pid),
                Reply::Failed(cause) => Err(cause),
                _ => unreached(),
            };
            let spawned = match &start.scrcpy {
                Some(scrcpy) => scrcpy.spawned(outcome),
                None => unreached(),
            };
            match spawned {
                Ok(pid) => Script::new().success(
                    three(
                        "Started scrcpy in the background (pid ",
                        decimal_text(pid as u64).as_str(),
                        ").",
                    ).as_str(),
                ).give(Reply::Done),
                Err(failure) => Script::new().give(Reply::Failed(failure)),
            }
        },
        (_, reply) => {
            start.phase = ScrcpyStartPhase::Over;
            Script::new().give(reply)
        },
    }
}

/// Goes on with the start of the program in the terminal.
pub fn start_scrcpy_foreground(start: &mut ScrcpyStart, reply: Reply) -> (step: Step)
    requires
        old(start).wf(),
        old(start).expects_foreground(reply),
    ensures
        final(start).wf(),
        old(start).leads_to_foreground(reply, *final(start), step),
{
    match (start.phase, reply) {
        (ScrcpyStartPhase::Resolving, Reply::Scrcpy(scrcpy)) => {
            let command = scrcpy.launch(start.phone.serial.as_str(), &start.options);
            start.scrcpy = Some(scrcpy);
            start.phase = ScrcpyStartPhase::Starting;
            Script::new().ask(Request::Launch(command))
        },
        (ScrcpyStartPhase::Starting, reply) => {
            start.phase = ScrcpyStartPhase::Over;
            let outcome = match reply {
                Reply::Exit(report) => Ok(report),
                Reply::Failed(cause) => Err(cause),
                _ => unreached(),
            };
            let launched = match &start.scrcpy {
                Some(scrcpy) => scrcpy.launched(outcome),
                None => unreached(),
            };
            match launched {
                Ok(_) => Script::new().give(Reply::Done),
                Err(failure) => Script::new().give(Reply::Failed(failure)),
            }
        },
        (_, reply) => {
            start.phase = ScrcpyStartPhase::Over;
            Script::new().give(reply)
        },
    }
}

/// The menu for a phone ends only when the user closes it, when the program runs on its own, or
/// with a failure; after the program in the terminal has ended, the menu comes back.
pub proof fn law_phone_menu_comes_back(menu: PhoneMenu, reply: Reply, then: PhoneMenu, step: Step)
    requires
        menu.expects(reply),
        menu.leads_to(reply, then, step),
    ensures
        then.phone == menu.phone,
        menu.phase == PhoneMenuPhase::Mirroring && reply is Done ==> step.lets_choose(),
        match step.next {
            Next::Give(result) => {
                ||| result == reply && (reply is Failed || menu.phase == PhoneMenuPhase::Leaving)
                ||| result is Done && reply == Reply::Choice(3)
            },
            Next::Ask(_) => true,
        },
{
}

/// Whether the program keeps the terminal or not, it is started in the same way.
pub proof fn law_both_starts_run_the_same_command(
    start: ScrcpyStart,
    scrcpy: Scrcpy,
    then_alone: ScrcpyStart,
    alone: Step,
    then_attached: ScrcpyStart,
    attached: Step,
)
    requires
        start.phase == ScrcpyStartPhase::Resolving,
        start.leads_to_background(Reply::Scrcpy(scrcpy), then_alone, alone),
        start.leads_to_foreground(Reply::Scrcpy(scrcpy), then_attached, attached),
    ensures
        match (alone.next, attached.next) {
            (Next::Ask(Request::Spawn(one)), Next::Ask(Request::Launch(other))) => {
                &&& path::encoded(one.program) == path::encoded(other.program)
                &&& one.arguments.deep_view() == other.arguments.deep_view()
                &&& one.silent
                &&& !other.silent
            },
            _ => false,
        },
{
}

/// A program that was run in the terminal counts as done exactly if it ended well; otherwise the
/// failure tells its status, or why it could not be run, and is no wish of the user.
pub proof fn law_foreground_start_ends_as_the_program_did(
    start: ScrcpyStart,
    reply: Reply,
    then: ScrcpyStart,
    step: Step,
)
    requires
        start.wf(),
        start.phase == ScrcpyStartPhase::Starting,
        start.expects_foreground(reply),
        start.leads_to_foreground(reply, then, step),
    ensures
        then.phase == ScrcpyStartPhase::Over,
        match (reply, step.next) {
            (Reply::Exit(report), Next::Give(Reply::Done)) => report.success,
            (Reply::Exit(report), Next::Give(Reply::Failed(failure))) => {
                &&& !report.success
                &&& !failure.cancelled
                &&& failure.message@ == "scrcpy exited with status "@ + report.status@
            },
            (Reply::Failed(cause), Next::Give(Reply::Failed(failure))) => {
                &&& failure.cancelled == cause.cancelled
                &&& exists|shown: Seq<char>| #[trigger]
                    path::is_shown(start.scrcpy->0.path, shown) && failure.message@
                        == "failed to run "@ + shown + ": "@ + cause.message@
            },
            _ => false,
        },
{
}

/// A program that was started on its own is announced with its process; one that could not be
/// started is a failure that tells why.
pub proof fn law_background_start_tells_the_process(
    start: ScrcpyStart,
    reply: Reply,
    then: ScrcpyStart,
    step: Step,
)
    requires
        start.wf(),
        start.phase == ScrcpyStartPhase::Starting,
        start.expects_background(reply),
        start.leads_to_background(reply, then, step),
    ensures
        then.phase == ScrcpyStartPhase::Over,
        match (reply, step.next) {
            (Reply::Pid(pid), Next::Give(Reply::Done)) => step.script@ == seq![
                Notice::Success(
                    "Started scrcpy in the background (pid "@ + text::decimal(pid as nat) + ")."@,
                ),
            ],
            (Reply::Failed(cause), Next::Give(Reply::Failed(failure))) => {
                &&& step.script@.len() == 0
                &&& failure.cancelled == cause.cancelled
                &&& exists|shown: Seq<char>| #[trigger]
                    path::is_shown(start.scrcpy->0.path, shown) && failure.message@
                        == "failed to run "@ + shown + ": "@ + cause.message@
            },
            _ => false,
        },
{
}

/// The program that was found is the one that is started, for the phone and with the options of
/// the start; where none was found, nothing is started.
pub proof fn law_start_runs_the_program_for_the_phone(
    start: ScrcpyStart,
    reply: Reply,
    then_alone: ScrcpyStart,
    alone: Step,
    then_attached: ScrcpyStart,
    attached: Step,
)
    requires
        start.phase == ScrcpyStartPhase::Resolving,
        start.expects_background(reply),
        start.leads_to_background(reply, then_alone, alone),
        start.leads_to_foreground(reply, then_attached, attached),
    ensures
        match reply {
            Reply::Scrcpy(scrcpy) => {
                &&& then_alone.scrcpy == Some(scrcpy)
                &&& then_attached.scrcpy == Some(scrcpy)
                &&& match (alone.next, attached.next) {
                    (Next::Ask(Request::Spawn(one)), Next::Ask(Request::Launch(other))) => {
                        &&& path::encoded(one.program) == path::encoded(scrcpy.path)
                        &&& path::encoded(other.program) == path::encoded(scrcpy.path)
                        &&& one.arguments@.len() >= 2
                        &&& one.arguments@[0]@ == "-s"@
                        &&& one.arguments@[1]@ == start.phone.serial@
                        &&& one.arguments.deep_view() == scrcpy::arguments(
                            start.phone.serial@,
                            start.options,
                        )
                        &&& other.arguments.deep_view() == one.arguments.deep_view()
                        &&& one.silent && !other.silent
                    },
                    _ => false,
                }
            },
            _ => alone.next == Next::Give(reply) && attached.next == Next::Give(reply),
        },
{
    if let Next::Ask(Request::Spawn(one)) = alone.next {
        let words = one.arguments.deep_view();
        assert(words.len() == one.arguments@.len());
        if reply is Scrcpy {
            assert(words[0] == "-s"@);
            assert(words[1] == start.phone.serial@);
            assert(words[0] == one.arguments@[0]@);
            assert(words[1] == one.arguments@[1]@);
        }
    }
}

/// The path that a search gives is the program; a search that failed is explained, with its
/// reason.
pub proof fn law_search_for_the_program_gives_its_path(
    search: ScrcpySearch,
    reply: Reply,
    then: ScrcpySearch,
    step: Step,
)
    requires
        search.expects(reply),
        search.leads_to(reply, then, step),
    ensures
        match (reply, step.next) {
            (Reply::Path(found), Next::Give(Reply::Scrcpy(scrcpy))) => scrcpy.path == found,
            (Reply::Failed(cause), Next::Give(Reply::Failed(failure))) => {
                &&& failure.cancelled == cause.cancelled
                &&& failure.message@
                    == "scrcpy was not found. Install scrcpy, then try again"@ + ": "@
                    + cause.message@
            },
            _ => false,
        },
{
}

/// What happens to a phone ends with what came of it.
pub proof fn law_phone_handling_passes_its_outcome_on(
    handling: PhoneHandling,
    reply: Reply,
    then: PhoneHandling,
    step: Step,
)
    requires
        handling.expects(reply),
        handling.leads_to(reply, then, step),
    ensures
        step.next == Next::Give(reply),
        step.script@.len() == 0,
{
}

/// From the menu for a phone, the user gets what the option says, for that phone.
pub proof fn law_phone_menu_means_what_it_says(
    phone: ConnectedPhone,
    menu: PhoneMenu,
    offer: Step,
    options: Vec<String>,
    selected: usize,
    then: PhoneMenu,
    step: Step,
)
    requires
        PhoneMenu::opens(phone, menu, offer),
        offer.next == Next::Ask(Request::Menu(options)),
        1 <= selected <= options@.len(),
        menu.leads_to(Reply::Choice(selected), then, step),
    ensures
        options@.len() == 3,
        match step.next {
            Next::Ask(Request::StartScrcpyBackground(used)) => options@[selected - 1]@
                == "Start scrcpy in background and close"@ && used == phone && then.phase
                == PhoneMenuPhase::Leaving,
            Next::Ask(Request::StartScrcpyForeground(used)) => options@[selected - 1]@
                == "Start scrcpy"@ && used == phone && then.phase == PhoneMenuPhase::Mirroring,
            Next::Give(Reply::Done) => options@[selected - 1]@ == "Close"@,
            _ => false,
        },
{
    assert(options@.len() == options.deep_view().len());
    assert(options.deep_view()[selected - 1] == options@[selected - 1]@);
}

/// After the program has ended well, the menu that comes back is the one that was shown at first;
/// what ends the menu is what ended what it started.
pub proof fn law_phone_menu_is_always_the_same(
    phone: ConnectedPhone,
    first: PhoneMenu,
    offer: Step,
    menu: PhoneMenu,
    reply: Reply,
    then: PhoneMenu,
    step: Step,
)
    requires
        PhoneMenu::opens(phone, first, offer),
        menu.expects(reply),
        menu.leads_to(reply, then, step),
        !(reply is Choice),
    ensures
        match (offer.next, step.next) {
            (Next::Ask(Request::Menu(shown)), Next::Ask(Request::Menu(again))) => {
                &&& again.deep_view() == shown.deep_view()
                &&& menu.phase == PhoneMenuPhase::Mirroring && reply is Done
                &&& then.phase == PhoneMenuPhase::Choosing
            },
            (_, Next::Give(result)) => result == reply && !(menu.phase == PhoneMenuPhase::Mirroring
                && reply is Done),
            _ => false,
        },
{
}

} // verus!
