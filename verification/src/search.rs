//! The wait for a phone that was just paired to become connected.

use vstd::prelude::*;

use crate::clock;
use crate::clock::{poll_delay, remaining_until, should_check_bonjour, Nanos, SECOND};
use crate::device;
use crate::device::{copy_services, count_ready_devices, endpoint_summary, AdbDevice, MdnsService};
use crate::dialogue::{Next, Notice, Reply, Request, Script, Step};
use crate::failure::Failure;
use crate::text;
use crate::text::{add_text, copy_texts, decimal_text, has_text, three, two};

verus! {

/// The search for a phone that was just paired, until it is connected.
#[derive(Debug, PartialEq, Eq)]
pub struct DeviceSearch {
    pub pairing_address: String,
    pub baseline_services: Vec<MdnsService>,
    pub baseline: Vec<String>,
    pub timeout: Nanos,
    pub deadline: Nanos,
    /// The serial that the phone is expected under.
    pub expected_serial: String,
    /// The endpoints that the user was told about.
    pub announced: Vec<String>,
    /// How often a connection was tried.
    pub attempt: u32,
    /// The candidates that the user was told about last.
    pub last_summary: String,
    pub last_bonjour_check: Option<Nanos>,
    pub reported_waiting: bool,
    pub reported_mdns_error: bool,
    /// How many devices were ready when last listed.
    pub ready_count: usize,
    pub candidates: Vec<MdnsService>,
    /// The candidate that is tried.
    pub position: usize,
    pub phase: SearchPhase,
}

/// What the search is waiting for.
#[derive(Debug, Clone, Copy, PartialEq, Eq, Structural)]
pub enum SearchPhase {
    Ticking,
    Listing,
    Matching,
    ListingServices,
    Choosing,
    /// Bonjour is searched because there is no candidate.
    SearchingBonjour,
    Connecting,
    ReadingSerial,
    VerifyingList,
    VerifyingMatch,
    /// Bonjour is searched because a candidate failed.
    BonjourAfterFailure,
    ScreensAfterFailure,
    ScreensAtDeadline,
    Manual,
    Sleeping,
    Over,
}

/// What is said before a connection to `address` is tried for the `attempt`-th time in all.
pub open spec fn announcing(address: Seq<char>, fresh: bool, attempt: nat) -> Seq<
    Notice<Seq<char>>,
> {
    (if fresh {
        seq![Notice::CountdownEnds, Notice::Status("Connecting to "@ + address + "..."@)]
    } else {
        seq![]
    }) + seq![
        Notice::CountdownEnds,
        Notice::Status("Attempt "@ + text::decimal(attempt) + ": adb connect "@ + address),
    ]
}

impl DeviceSearch {
    /// While a candidate is tried, there is one.
    pub open spec fn wf(self) -> bool {
        match self.phase {
            SearchPhase::Connecting
            | SearchPhase::ReadingSerial
            | SearchPhase::VerifyingList
            | SearchPhase::VerifyingMatch => self.position < self.candidates@.len(),
            _ => true,
        }
    }

    /// One more attempt can be counted.
    pub open spec fn can_try(self) -> bool {
        self.attempt < i32::MAX
    }

    /// The replies that the search can go on with.
    pub open spec fn expects(self, reply: Reply) -> bool {
        match self.phase {
            SearchPhase::Ticking | SearchPhase::Sleeping => reply.is_done_or_failed(),
            SearchPhase::Listing | SearchPhase::VerifyingList => reply is Devices
                || reply is Failed,
            SearchPhase::Matching => reply is MaybeDevice,
            SearchPhase::ListingServices => reply is Services || reply is Failed,
            SearchPhase::Choosing => match reply {
                Reply::Services(candidates) => candidates@.len() > 0 ==> self.can_try(),
                _ => false,
            },
            SearchPhase::VerifyingMatch => match reply {
                Reply::MaybeDevice(None) => self.position + 1 < self.candidates@.len()
                    ==> self.can_try(),
                _ => reply is MaybeDevice,
            },
            SearchPhase::SearchingBonjour
            | SearchPhase::BonjourAfterFailure
            | SearchPhase::ScreensAfterFailure
            | SearchPhase::ScreensAtDeadline => reply is MaybeDevice || reply is Failed,
            SearchPhase::Connecting => reply is Text || reply is Failed,
            SearchPhase::ReadingSerial => reply is MaybeText,
            SearchPhase::Manual => reply is Device || reply is Failed,
            SearchPhase::Over => false,
        }
    }

    /// Whether the reply is one of those.
    pub fn accepts(&self, reply: &Reply) -> (r: bool)
        ensures
            r == self.expects(*reply),
    {
        match (self.phase, reply) {
            (SearchPhase::Ticking | SearchPhase::Sleeping, Reply::Done | Reply::Failed(_)) => true,
            (
                SearchPhase::Listing | SearchPhase::VerifyingList,
                Reply::Devices(_) | Reply::Failed(_),
            ) => true,
            (SearchPhase::Matching, Reply::MaybeDevice(_)) => true,
            (SearchPhase::ListingServices, Reply::Services(_) | Reply::Failed(_)) => true,
            (SearchPhase::Choosing, Reply::Services(candidates)) => candidates.len() == 0
                || self.attempt < 0x7fff_ffff,
            (SearchPhase::VerifyingMatch, Reply::MaybeDevice(Some(_))) => true,
            (SearchPhase::VerifyingMatch, Reply::MaybeDevice(None)) => self.candidates.len() == 0
                || self.position >= self.candidates.len() - 1 || self.attempt < 0x7fff_ffff,
            (
                SearchPhase::SearchingBonjour
                | SearchPhase::BonjourAfterFailure
                | SearchPhase::ScreensAfterFailure
                | SearchPhase::ScreensAtDeadline,
                Reply::MaybeDevice(_) | Reply::Failed(_),
            ) => true,
            (SearchPhase::Connecting, Reply::Text(_) | Reply::Failed(_)) => true,
            (SearchPhase::ReadingSerial, Reply::MaybeText(_)) => true,
            (SearchPhase::Manual, Reply::Device(_) | Reply::Failed(_)) => true,
            _ => false,
        }
    }

    /// A flow begins in this state and with this step.
    pub open spec fn opens(
        pairing_address: String,
        baseline_services: Vec<MdnsService>,
        baseline: Vec<String>,
        timeout: Nanos,
        now: Nanos,
        flow: Self,
        step: Step,
    ) -> bool {
        &&& flow.wf()
        &&& flow.pairing_address == pairing_address
        &&& flow.baseline_services == baseline_services
        &&& flow.baseline == baseline
        &&& flow.timeout == timeout
        &&& flow.deadline == now + timeout
        &&& flow.expected_serial == pairing_address
        &&& flow.announced@.len() == 0
        &&& flow.attempt == 0
        &&& flow.last_summary@.len() == 0
        &&& flow.last_bonjour_check is None
        &&& !flow.reported_waiting
        &&& !flow.reported_mdns_error
        &&& flow.ready_count == 0
        &&& flow.candidates@.len() == 0
        &&& flow.position == 0
        &&& flow.phase == SearchPhase::Ticking
        &&& step.asks(
            seq![Notice::CountdownBegins("Connection endpoint wait"@)],
            Request::Tick(timeout),
        )
    }

    /// Begins the search for the phone that was paired at an address.
    pub fn begin(
        pairing_address: String,
        baseline_services: Vec<MdnsService>,
        baseline: Vec<String>,
        timeout: Nanos,
        now: Nanos,
    ) -> (begun: (DeviceSearch, Step))
        requires
            now + timeout <= Nanos::MAX,
        ensures
            Self::opens(
                pairing_address,
                baseline_services,
                baseline,
                timeout,
                now,
                begun.0,
                begun.1,
            ),
    {
        let search = DeviceSearch {
            expected_serial: pairing_address.clone(),
            pairing_address,
            baseline_services,
            baseline,
            timeout,
            deadline: now + timeout,
            announced: Vec::new(),
            attempt: 0,
            last_summary: String::new(),
            last_bonjour_check: None,
            reported_waiting: false,
            reported_mdns_error: false,
            ready_count: 0,
            candidates: Vec::new(),
            position: 0,
            phase: SearchPhase::Ticking,
        };
        let step = Script::new().say(
            Notice::CountdownBegins("Connection endpoint wait".to_owned()),
        ).ask(Request::Tick(timeout));
        (search, step)
    }

    /// The search ends with this result.
    pub open spec fn ends(
        self,
        said: Seq<Notice<Seq<char>>>,
        reply: Reply,
        then: DeviceSearch,
        step: Step,
    ) -> bool {
        &&& then == DeviceSearch { phase: SearchPhase::Over, ..self }
        &&& step.gives(said, reply)
    }

    /// After saying `said`, the search goes on with another round, unless the time is up:
    /// then the screens are searched.
    pub open spec fn pauses(
        self,
        said: Seq<Notice<Seq<char>>>,
        now: Nanos,
        then: DeviceSearch,
        step: Step,
    ) -> bool {
        if now >= self.deadline {
            &&& then == DeviceSearch { phase: SearchPhase::ScreensAtDeadline, ..self }
            &&& step.asks_screens(said.push(Notice::CountdownEnds), self.baseline@, self.timeout)
        } else {
            &&& then == DeviceSearch { phase: SearchPhase::Sleeping, ..self }
            &&& step.asks(said, Request::Sleep(clock::delay(self.deadline, now, 2_000_000_000)))
        }
    }

    /// After saying `said`, the candidate at `at` is tried, and where there is none the round
    /// is over. The user is told of every attempt, and of each endpoint once.
    pub open spec fn tries(
        self,
        at: int,
        said: Seq<Notice<Seq<char>>>,
        now: Nanos,
        then: DeviceSearch,
        step: Step,
    ) -> bool {
        if at < self.candidates@.len() {
            let address = self.candidates@[at].address;
            let fresh = !text::holds(self.announced, address@);
            &&& then == DeviceSearch {
                position: then.position,
                attempt: then.attempt,
                announced: then.announced,
                phase: SearchPhase::Connecting,
                ..self
            }
            &&& then.position == at
            &&& then.attempt == self.attempt + 1
            &&& then.announced.deep_view() == if fresh {
                self.announced.deep_view().push(address@)
            } else {
                self.announced.deep_view()
            }
            &&& step.asks(
                said + announcing(address@, fresh, (self.attempt + 1) as nat),
                Request::Connect(address),
            )
        } else {
            (DeviceSearch { position: then.position, ..self }).pauses(said, now, then, step)
        }
    }

    /// What is said about the candidates: that there is none, once; and which there are,
    /// whenever that changes.
    pub open spec fn about_candidates(self, candidates: Seq<MdnsService>) -> Seq<
        Notice<Seq<char>>,
    > {
        if candidates.len() == 0 {
            if self.reported_waiting {
                seq![]
            } else {
                seq![
                    Notice::CountdownEnds,
                    Notice::Status(
                        "Waiting for the phone to advertise its connection endpoint..."@,
                    ),
                    Notice::CancelHint,
                ]
            }
        } else if device::summary(candidates) == self.last_summary@ {
            seq![]
        } else {
            seq![
                Notice::CountdownEnds,
                Notice::Status("Connect endpoint candidate(s): "@ + device::summary(candidates)),
            ]
        }
    }

    /// What a list of candidates leads to.
    pub open spec fn picks(
        self,
        candidates: Vec<MdnsService>,
        now: Nanos,
        then: DeviceSearch,
        step: Step,
    ) -> bool {
        let none = candidates@.len() == 0;
        let search_now = none && clock::search_is_due(self.last_bonjour_check, now);
        let said = self.about_candidates(candidates@);
        let informed = DeviceSearch {
            candidates,
            reported_waiting: self.reported_waiting || none,
            last_summary: then.last_summary,
            last_bonjour_check: if search_now {
                Some(now)
            } else {
                self.last_bonjour_check
            },
            ..self
        };
        &&& then.last_summary@ == if none {
            self.last_summary@
        } else {
            device::summary(candidates@)
        }
        &&& if search_now {
            &&& then == DeviceSearch { phase: SearchPhase::SearchingBonjour, ..informed }
            &&& step.asks_bonjour(
                said.push(Notice::CountdownEnds),
                self.pairing_address@,
                self.baseline@,
                None,
                self.timeout,
            )
        } else {
            informed.tries(0, said, now, then, step)
        }
    }

    /// What a reply leads to.
    pub open spec fn leads_to(
        self,
        reply: Reply,
        now: Nanos,
        then: DeviceSearch,
        step: Step,
    ) -> bool {
        match (self.phase, reply) {
            (SearchPhase::Ticking, Reply::Failed(_)) => self.ends(seq![], reply, then, step),
            (SearchPhase::Ticking, _) => {
                &&& then == DeviceSearch { phase: SearchPhase::Listing, ..self }
                &&& step.asks(seq![], Request::Devices)
            },
            (SearchPhase::Listing, _) => {
                let listed = reply.listed_devices();
                &&& then == DeviceSearch {
                    ready_count: then.ready_count,
                    phase: SearchPhase::Matching,
                    ..self
                }
                &&& then.ready_count == device::ready_devices(listed).len()
                &&& step.asks_to_match(seq![], listed, self.expected_serial@, self.baseline@)
            },
            (SearchPhase::Matching, Reply::MaybeDevice(Some(found))) => self.ends(
                seq![
                    Notice::CountdownEnds,
                    Notice::Success("ADB device is ready: "@ + found.display_name@),
                ],
                Reply::Device(found),
                then,
                step,
            ),
            (SearchPhase::Matching, _) => {
                &&& then == DeviceSearch { phase: SearchPhase::ListingServices, ..self }
                &&& step.asks(
                    if self.ready_count == 0 {
                        seq![]
                    } else {
                        seq![
                            Notice::CountdownEnds,
                            Notice::Status(
                                "ADB sees "@ + text::decimal(self.ready_count as nat)
                                    + " ready device(s), but not the just-paired phone yet."@,
                            ),
                        ]
                    },
                    Request::MdnsServices,
                )
            },
            (SearchPhase::ListingServices, Reply::Services(services)) => {
                &&& then == DeviceSearch { phase: SearchPhase::Choosing, ..self }
                &&& step.asks_candidates(
                    seq![],
                    services@,
                    self.pairing_address@,
                    self.baseline_services@,
                )
            },
            (SearchPhase::ListingServices, Reply::Failed(failure)) => {
                &&& then == DeviceSearch {
                    reported_mdns_error: true,
                    phase: SearchPhase::Choosing,
                    ..self
                }
                &&& step.asks_candidates(
                    if self.reported_mdns_error {
                        seq![]
                    } else {
                        seq![
                            Notice::CountdownEnds,
                            Notice::Warning(
                                "adb mDNS connect lookup failed: "@ + failure.message@,
                            ),
                        ]
                    },
                    seq![],
                    self.pairing_address@,
                    self.baseline_services@,
                )
            },
            (SearchPhase::Choosing, Reply::Services(candidates)) => self.picks(
                candidates,
                now,
                then,
                step,
            ),
            (SearchPhase::SearchingBonjour, Reply::MaybeDevice(None)) => self.pauses(
                seq![],
                now,
                then,
                step,
            ),
            (SearchPhase::Connecting, Reply::Text(output)) => {
                &&& then == DeviceSearch { phase: SearchPhase::ReadingSerial, ..self }
                &&& step.asks(seq![], Request::SerialFromOutput(output))
            },
            (SearchPhase::ReadingSerial, Reply::MaybeText(serial)) => {
                &&& then == DeviceSearch {
                    expected_serial: then.expected_serial,
                    phase: SearchPhase::VerifyingList,
                    ..self
                }
                &&& then.expected_serial@ == match serial {
                    Some(serial) => serial@,
                    None => self.candidates@[self.position as int].address@,
                }
                &&& step.asks(
                    seq![
                        Notice::CountdownEnds,
                        Notice::Status("Verifying the device is ready..."@),
                    ],
                    Request::Devices,
                )
            },
            (SearchPhase::VerifyingList, _) => {
                &&& then == DeviceSearch { phase: SearchPhase::VerifyingMatch, ..self }
                &&& step.asks_to_match(
                    seq![],
                    reply.listed_devices(),
                    self.expected_serial@,
                    self.baseline@,
                )
            },
            (SearchPhase::VerifyingMatch, Reply::MaybeDevice(Some(found))) => self.ends(
                seq![Notice::CountdownEnds],
                Reply::Device(found),
                then,
                step,
            ),
            (SearchPhase::VerifyingMatch, _) => self.tries(
                self.position + 1,
                seq![],
                now,
                then,
                step,
            ),
            (SearchPhase::Connecting, Reply::Failed(failure)) => {
                let address = self.candidates@[self.position as int].address;
                &&& then == DeviceSearch { phase: SearchPhase::BonjourAfterFailure, ..self }
                &&& step.asks_bonjour(
                    seq![
                        Notice::CountdownEnds,
                        Notice::Warning(
                            "ADB mDNS endpoint "@ + address@ + " failed: "@ + failure.message@,
                        ),
                    ],
                    self.pairing_address@,
                    self.baseline@,
                    Some(address),
                    self.timeout,
                )
            },
            (SearchPhase::BonjourAfterFailure, Reply::MaybeDevice(None)) => {
                &&& then == DeviceSearch { phase: SearchPhase::ScreensAfterFailure, ..self }
                &&& step.asks_screens(seq![], self.baseline@, self.timeout)
            },
            (SearchPhase::ScreensAfterFailure, Reply::MaybeDevice(None)) => {
                &&& then == DeviceSearch { phase: SearchPhase::Manual, ..self }
                &&& step.asks_by_hand(
                    seq![
                        Notice::Warning(
                            "Automatic discovery did not find a working endpoint."@,
                        ),
                    ],
                    self.baseline@,
                    self.timeout,
                )
            },
            (SearchPhase::ScreensAtDeadline, Reply::MaybeDevice(None)) => {
                &&& then == DeviceSearch { phase: SearchPhase::Manual, ..self }
                &&& step.asks_by_hand(
                    seq![
                        Notice::Warning(
                            "Automatic discovery timed out before finding a connectable wireless debugging endpoint."@,
                        ),
                    ],
                    self.baseline@,
                    self.timeout,
                )
            },
            (_, Reply::MaybeDevice(Some(found))) => self.ends(
                seq![],
                Reply::Device(found),
                then,
                step,
            ),
            (SearchPhase::Sleeping, Reply::Failed(_)) => self.ends(
                seq![Notice::CountdownEnds],
                reply,
                then,
                step,
            ),
            (SearchPhase::Sleeping, _) => {
                &&& then == DeviceSearch { phase: SearchPhase::Ticking, ..self }
                &&& step.asks(seq![], Request::Tick(clock::time_left(self.deadline, now)))
            },
            (_, Reply::Device(_)) | (_, Reply::Failed(_)) => self.ends(seq![], reply, then, step),
            _ => false,
        }
    }

    fn end(&mut self, script: Script, reply: Reply) -> (step: Step)
        ensures
            old(self).ends(script@, reply, *final(self), step),
    {
        self.phase = SearchPhase::Over;
        script.give(reply)
    }

    fn pause(&mut self, script: Script, now: Nanos) -> (step: Step)
        ensures
            final(self).wf(),
            old(self).pauses(script@, now, *final(self), step),
    {
        if now >= self.deadline {
            self.phase = SearchPhase::ScreensAtDeadline;
            script.countdown_ends().ask(
                Request::TryUiHierarchyConnect {
                    baseline: copy_texts(&self.baseline),
                    timeout: self.timeout,
                },
            )
        } else {
            self.phase = SearchPhase::Sleeping;
            script.ask(Request::Sleep(poll_delay(self.deadline, now, 2 * SECOND)))
        }
    }

    fn try_candidate(&mut self, at: usize, script: Script, now: Nanos) -> (step: Step)
        requires
            at < old(self).candidates@.len() ==> old(self).can_try(),
            at <= old(self).candidates@.len(),
        ensures
            final(self).wf(),
            old(self).tries(at as int, script@, now, *final(self), step),
    {
        self.position = at;
        if at < self.candidates.len() {
            let ghost said = script@;
            let address = self.candidates[at].address.clone();
            let fresh = !has_text(&self.announced, &address);
            let mut script = script;
            if fresh {
                add_text(&mut self.announced, address.clone());
                script = script.countdown_ends().status(
                    three("Connecting to ", address.as_str(), "...").as_str(),
                );
            }
            self.attempt = self.attempt + 1;
            self.phase = SearchPhase::Connecting;
            let count = decimal_text(self.attempt as u64);
            let tried = three("Attempt ", count.as_str(), ": adb connect ");
            script = script.countdown_ends().status(
                two(tried.as_str(), address.as_str()).as_str(),
            );
            assert(script@ =~= said + announcing(address@, fresh, self.attempt as nat));
            script.ask(Request::Connect(address))
        } else {
            self.pause(script, now)
        }
    }

    fn pick(&mut self, candidates: Vec<MdnsService>, now: Nanos) -> (step: Step)
        requires
            candidates@.len() > 0 ==> old(self).can_try(),
        ensures
            final(self).wf(),
            old(self).picks(candidates, now, *final(self), step),
    {
        let none = candidates.len() == 0;
        let summary = endpoint_summary(&candidates);
        let mut script = Script::new();
        if none && !self.reported_waiting {
            script = script.countdown_ends().status(
                "Waiting for the phone to advertise its connection endpoint...",
            ).say(Notice::CancelHint);
            self.reported_waiting = true;
        } else if !none && summary != self.last_summary {
            script = script.countdown_ends().status(
                two("Connect endpoint candidate(s): ", summary.as_str()).as_str(),
            );
            self.last_summary = summary;
        }
        assert(script@ =~= old(self).about_candidates(candidates@));
        self.candidates = candidates;
        if none && should_check_bonjour(self.last_bonjour_check, now) {
            self.last_bonjour_check = Some(now);
            self.phase = SearchPhase::SearchingBonjour;
            script.countdown_ends().ask(
                Request::TryDirectBonjourConnect {
                    pairing_address: self.pairing_address.clone(),
                    baseline: copy_texts(&self.baseline),
                    skipped: None,
                    timeout: self.timeout,
                },
            )
        } else {
            self.try_candidate(0, script, now)
        }
    }

    fn ask_for_match(&self, reply: Reply) -> (step: Step)
        ensures
            step.asks_to_match(
                seq![],
                reply.listed_devices(),
                self.expected_serial@,
                self.baseline@,
            ),
    {
        Script::new().ask(
            Request::MatchReadyDevice {
                devices: reply.into_devices(),
                expected_serial: self.expected_serial.clone(),
                baseline: copy_texts(&self.baseline),
            },
        )
    }
}

/// Goes on with the search for a phone that was just paired.
pub fn connect_and_wait_for_device(search: &mut DeviceSearch, reply: Reply, now: Nanos) -> (step:
    Step)
    requires
        old(search).wf(),
        old(search).expects(reply),
    ensures
        final(search).wf(),
        old(search).leads_to(reply, now, *final(search), step),
{
    match (search.phase, reply) {
        (SearchPhase::Ticking, Reply::Done) => {
            search.phase = SearchPhase::Listing;
            Script::new().ask(Request::Devices)
        },
        (SearchPhase::Listing, reply) => {
            search.ready_count = match &reply {
                Reply::Devices(devices) => count_ready_devices(devices),
                _ => 0,
            };
            proof {
                reveal(Seq::filter);
            }
            search.phase = SearchPhase::Matching;
            search.ask_for_match(reply)
        },
        (SearchPhase::Matching, Reply::MaybeDevice(Some(found))) => {
            let script = Script::new().countdown_ends().success(
                two("ADB device is ready: ", found.display_name.as_str()).as_str(),
            );
            search.end(script, Reply::Device(found))
        },
        (SearchPhase::Matching, _) => {
            search.phase = SearchPhase::ListingServices;
            if search.ready_count == 0 {
                Script::new().ask(Request::MdnsServices)
            } else {
                let count = decimal_text(search.ready_count as u64);
                Script::new().countdown_ends().status(
                    three(
                        "ADB sees ",
                        count.as_str(),
                        " ready device(s), but not the just-paired phone yet.",
                    ).as_str(),
                ).ask(Request::MdnsServices)
            }
        },
        (SearchPhase::ListingServices, reply) => {
            let mut script = Script::new();
            let services = match reply {
                Reply::Services(services) => services,
                Reply::Failed(failure) => {
                    if !search.reported_mdns_error {
                        script = script.countdown_ends().warning(
                            two(
                                "adb mDNS connect lookup failed: ",
                                failure.message.as_str(),
                            ).as_str(),
                        );
                        search.reported_mdns_error = true;
                    }
                    Vec::new()
                },
                _ => Vec::new(),
            };
            search.phase = SearchPhase::Choosing;
            script.ask(
                Request::ConnectCandidates {
                    services,
                    pairing_address: search.pairing_address.clone(),
                    baseline_services: copy_services(&search.baseline_services),
                },
            )
        },
        (SearchPhase::Choosing, Reply::Services(candidates)) => search.pick(candidates, now),
        (SearchPhase::SearchingBonjour, Reply::MaybeDevice(None)) => {
            search.pause(Script::new(), now)
        },
        (SearchPhase::Connecting, Reply::Text(output)) => {
            search.phase = SearchPhase::ReadingSerial;
            Script::new().ask(Request::SerialFromOutput(output))
        },
        (SearchPhase::ReadingSerial, Reply::MaybeText(serial)) => {
            search.expected_serial = match serial {
                Some(serial) => serial,
                None => search.candidates[search.position].address.clone(),
            };
            search.phase = SearchPhase::VerifyingList;
            Script::new().countdown_ends().status("Verifying the device is ready...").ask(
                Request::Devices,
            )
        },
        (SearchPhase::VerifyingList, reply) => {
            search.phase = SearchPhase::VerifyingMatch;
            search.ask_for_match(reply)
        },
        (SearchPhase::VerifyingMatch, Reply::MaybeDevice(Some(found))) => {
            search.end(Script::new().countdown_ends(), Reply::Device(found))
        },
        (SearchPhase::VerifyingMatch, _) => {
            assert(search.position < search.candidates.len());
            search.try_candidate(search.position + 1, Script::new(), now)
        },
        (SearchPhase::Connecting, Reply::Failed(failure)) => {
            let address = search.candidates[search.position].address.clone();
            let tried = three("ADB mDNS endpoint ", address.as_str(), " failed: ");
            search.phase = SearchPhase::BonjourAfterFailure;
            Script::new().countdown_ends().warning(
                two(tried.as_str(), failure.message.as_str()).as_str(),
            ).ask(
                Request::TryDirectBonjourConnect {
                    pairing_address: search.pairing_address.clone(),
                    baseline: copy_texts(&search.baseline),
                    skipped: Some(address),
                    timeout: search.timeout,
                },
            )
        },
        (SearchPhase::BonjourAfterFailure, Reply::MaybeDevice(None)) => {
            search.phase = SearchPhase::ScreensAfterFailure;
            Script::new().ask(
                Request::TryUiHierarchyConnect {
                    baseline: copy_texts(&search.baseline),
                    timeout: search.timeout,
                },
            )
        },
        (SearchPhase::ScreensAfterFailure, Reply::MaybeDevice(None)) => {
            search.phase = SearchPhase::Manual;
            Script::new().warning("Automatic discovery did not find a working endpoint.").ask(
                Request::ManualConnectDevice {
                    baseline: copy_texts(&search.baseline),
                    timeout: search.timeout,
                },
            )
        },
        (SearchPhase::ScreensAtDeadline, Reply::MaybeDevice(None)) => {
            search.phase = SearchPhase::Manual;
            Script::new().warning(
                "Automatic discovery timed out before finding a connectable wireless debugging endpoint.",
            ).ask(
                Request::ManualConnectDevice {
                    baseline: copy_texts(&search.baseline),
                    timeout: search.timeout,
                },
            )
        },
        (_, Reply::MaybeDevice(Some(found))) => search.end(Script::new(), Reply::Device(found)),
        (SearchPhase::Sleeping, Reply::Done) => {
            search.phase = SearchPhase::Ticking;
            Script::new().ask(Request::Tick(remaining_until(search.deadline, now)))
        },
        (SearchPhase::Sleeping, reply) => search.end(Script::new().countdown_ends(), reply),
        (_, reply) => search.end(Script::new(), reply),
    }
}

/// A run of the search: from state to state by replies that were expected, each with the time
/// at which it came and the step that it led to.
pub open spec fn is_search_run(
    states: Seq<DeviceSearch>,
    events: Seq<(Reply, Nanos)>,
    steps: Seq<Step>,
) -> bool {
    &&& states.len() == events.len() + 1
    &&& steps.len() == events.len()
    &&& forall|i: int|
        0 <= i < events.len() ==> states[i].wf() && states[i].expects(events[i].0)
            && states[i].leads_to(events[i].0, events[i].1, states[i + 1], #[trigger] steps[i])
}

/// The endpoint that a step has connected to, if it does so.
pub open spec fn tries_address(step: Step) -> Option<Seq<char>> {
    match step.next {
        Next::Ask(Request::Connect(address)) => Some(address@),
        _ => None,
    }
}

/// How many of the steps try a connection.
pub open spec fn attempts(steps: Seq<Step>) -> nat
    decreases steps.len(),
{
    if steps.len() == 0 {
        0
    } else {
        attempts(steps.drop_last()) + if tries_address(steps.last()) is Some {
            1nat
        } else {
            0nat
        }
    }
}

/// The step has Bonjour searched.
pub open spec fn searches_bonjour(step: Step) -> bool {
    step.next is Ask && step.next->Ask_0 is TryDirectBonjourConnect
}

/// The text that announces an endpoint is not one of the other texts that are said along with
/// it.
proof fn lemma_announcement_is_unlike(address: Seq<char>, rest: Seq<char>)
    ensures
        "Connecting to "@ + address + "..."@ != "Connect endpoint candidate(s): "@ + rest,
        "Connecting to "@ + address + "..."@ != "Attempt "@ + rest,
        "Connecting to "@ + address + "..."@
            != "Waiting for the phone to advertise its connection endpoint..."@,
{
    reveal_strlit("Connecting to ");
    reveal_strlit("Connect endpoint candidate(s): ");
    reveal_strlit("Attempt ");
    reveal_strlit("Waiting for the phone to advertise its connection endpoint...");
    let announcement = "Connecting to "@ + address + "..."@;
    assert(announcement[0] == 'C');
    assert(announcement[7] == 'i');
    assert(("Connect endpoint candidate(s): "@ + rest)[7] == ' ');
    assert(("Attempt "@ + rest)[0] == 'A');
    assert("Waiting for the phone to advertise its connection endpoint..."@[0] == 'W');
}

/// What one reply does to what the search remembers.
proof fn lemma_search_step(
    search: DeviceSearch,
    reply: Reply,
    now: Nanos,
    then: DeviceSearch,
    step: Step,
)
    requires
        search.wf(),
        search.expects(reply),
        search.leads_to(reply, now, then, step),
    ensures
        then.pairing_address == search.pairing_address,
        then.baseline_services == search.baseline_services,
        then.baseline == search.baseline,
        then.timeout == search.timeout,
        then.deadline == search.deadline,
        search.reported_mdns_error ==> then.reported_mdns_error,
        search.reported_waiting ==> then.reported_waiting,
        forall|text: Seq<char>|
            #[trigger] text::holds(search.announced, text) ==> text::holds(
                then.announced,
                text,
            ),
        match tries_address(step) {
            Some(address) => text::holds(then.announced, address) && then.attempt
                == search.attempt + 1,
            None => then.attempt == search.attempt,
        },
        then.last_bonjour_check == if search.phase == SearchPhase::Choosing && searches_bonjour(
            step,
        ) {
            Some(now)
        } else {
            search.last_bonjour_check
        },
{
    let before = search.announced.deep_view();
    let after = then.announced.deep_view();
    if let Some(address) = tries_address(step) {
        assert(after == before || after == before.push(address));
        if after == before.push(address) {
            assert(after[before.len() as int] == address);
        }
    }
    assert forall|text: Seq<char>| #[trigger]
        text::holds(search.announced, text) implies text::holds(
        then.announced,
        text,
    ) by {
        let i = choose|i: int| 0 <= i < before.len() && before[i] == text;
        assert(after[i] == text);
    }
}

/// What the search remembers stays so.
proof fn lemma_search_remembers(
    states: Seq<DeviceSearch>,
    events: Seq<(Reply, Nanos)>,
    steps: Seq<Step>,
    from: int,
    to: int,
)
    requires
        is_search_run(states, events, steps),
        0 <= from <= to < states.len(),
    ensures
        states[from].deadline == states[to].deadline,
        states[from].reported_mdns_error ==> states[to].reported_mdns_error,
        states[from].reported_waiting ==> states[to].reported_waiting,
        forall|text: Seq<char>|
            #[trigger] text::holds(states[from].announced, text) ==> text::holds(
                states[to].announced,
                text,
            ),
        states[from].last_bonjour_check is Some ==> states[to].last_bonjour_check is Some
            && states[from].last_bonjour_check->0 <= states[to].last_bonjour_check->0,
    decreases to - from,
{
    if from < to {
        lemma_search_remembers(states, events, steps, from, to - 1);
        assert(states[to - 1].leads_to(
            events[to - 1].0,
            events[to - 1].1,
            states[to],
            steps[to - 1],
        ));
        lemma_search_step(
            states[to - 1],
            events[to - 1].0,
            events[to - 1].1,
            states[to],
            steps[to - 1],
        );
    }
}

/// However often an endpoint is tried, the user is told of it once, and each attempt is
/// counted.
pub proof fn law_search_announces_each_endpoint_once(
    states: Seq<DeviceSearch>,
    events: Seq<(Reply, Nanos)>,
    steps: Seq<Step>,
    i: int,
    j: int,
    address: Seq<char>,
)
    requires
        is_search_run(states, events, steps),
        0 <= i < j < steps.len(),
        tries_address(steps[i]) == Some(address),
        tries_address(steps[j]) == Some(address),
    ensures
        !steps[j].script@.contains(Notice::Status("Connecting to "@ + address + "..."@)),
        states[j + 1].attempt > states[i + 1].attempt,
{
    assert(states[i].leads_to(events[i].0, events[i].1, states[i + 1], steps[i]));
    assert(states[j].leads_to(events[j].0, events[j].1, states[j + 1], steps[j]));
    lemma_search_step(states[i], events[i].0, events[i].1, states[i + 1], steps[i]);
    lemma_search_step(states[j], events[j].0, events[j].1, states[j + 1], steps[j]);
    lemma_search_remembers(states, events, steps, i + 1, j);
    lemma_attempts_between(states, events, steps, i + 1, j);
    let announcement = Notice::Status("Connecting to "@ + address + "..."@);
    let script = steps[j].script@;
    if script.contains(announcement) {
        let k = choose|k: int| 0 <= k < script.len() && script[k] == announcement;
        let count = text::decimal((states[j].attempt + 1) as nat);
        let said = if states[j].phase == SearchPhase::Choosing {
            states[j].about_candidates(events[j].0->Services_0@)
        } else {
            seq![]
        };
        assert(script == said + announcing(address, false, (states[j].attempt + 1) as nat));
        assert("Attempt "@ + count + ": adb connect "@ + address =~= "Attempt "@ + (count
            + ": adb connect "@ + address));
        lemma_announcement_is_unlike(address, count + ": adb connect "@ + address);
        if states[j].phase == SearchPhase::Choosing {
            lemma_announcement_is_unlike(
                address,
                device::summary(events[j].0->Services_0@),
            );
        }
    }
}

/// Every endpoint that the user was told about was tried.
proof fn lemma_announced_endpoints_were_tried(
    states: Seq<DeviceSearch>,
    events: Seq<(Reply, Nanos)>,
    steps: Seq<Step>,
    to: int,
    address: Seq<char>,
)
    requires
        is_search_run(states, events, steps),
        states[0].announced@.len() == 0,
        0 <= to < states.len(),
        text::holds(states[to].announced, address),
    ensures
        exists|i: int| 0 <= i < to && tries_address(#[trigger] steps[i]) == Some(address),
    decreases to,
{
    if to > 0 {
        let i = to - 1;
        assert(states[i].leads_to(events[i].0, events[i].1, states[to], steps[i]));
        if text::holds(states[i].announced, address) {
            lemma_announced_endpoints_were_tried(states, events, steps, i, address);
        } else {
            let before = states[i].announced.deep_view();
            let after = states[to].announced.deep_view();
            let k = choose|k: int| 0 <= k < after.len() && after[k] == address;
            if k < before.len() {
                assert(before[k] == address);
            }
            assert(tries_address(steps[i]) == Some(address));
        }
    }
}

/// The user is told of every endpoint when it is tried for the first time.
pub proof fn law_search_announces_every_endpoint(
    states: Seq<DeviceSearch>,
    events: Seq<(Reply, Nanos)>,
    steps: Seq<Step>,
    j: int,
    address: Seq<char>,
)
    requires
        is_search_run(states, events, steps),
        states[0].announced@.len() == 0,
        0 <= j < steps.len(),
        tries_address(steps[j]) == Some(address),
        forall|i: int| 0 <= i < j ==> tries_address(#[trigger] steps[i]) != Some(address),
    ensures
        steps[j].script@.contains(Notice::Status("Connecting to "@ + address + "..."@)),
{
    if text::holds(states[j].announced, address) {
        lemma_announced_endpoints_were_tried(states, events, steps, j, address);
    }
    assert(states[j].leads_to(events[j].0, events[j].1, states[j + 1], steps[j]));
    let script = steps[j].script@;
    assert(script[script.len() - 3] == Notice::Status("Connecting to "@ + address + "..."@));
}

/// The count of attempts never falls.
proof fn lemma_attempts_between(
    states: Seq<DeviceSearch>,
    events: Seq<(Reply, Nanos)>,
    steps: Seq<Step>,
    from: int,
    to: int,
)
    requires
        is_search_run(states, events, steps),
        0 <= from <= to < states.len(),
    ensures
        states[from].attempt <= states[to].attempt,
    decreases to - from,
{
    if from < to {
        lemma_attempts_between(states, events, steps, from, to - 1);
        assert(states[to - 1].leads_to(
            events[to - 1].0,
            events[to - 1].1,
            states[to],
            steps[to - 1],
        ));
        lemma_search_step(
            states[to - 1],
            events[to - 1].0,
            events[to - 1].1,
            states[to],
            steps[to - 1],
        );
    }
}

/// The count of attempts is right up to every point of a run.
proof fn lemma_attempts_until(
    states: Seq<DeviceSearch>,
    events: Seq<(Reply, Nanos)>,
    steps: Seq<Step>,
    to: int,
)
    requires
        is_search_run(states, events, steps),
        0 <= to < states.len(),
    ensures
        states[to].attempt == states[0].attempt + attempts(steps.take(to)),
    decreases to,
{
    if to > 0 {
        lemma_attempts_until(states, events, steps, to - 1);
        assert(steps.take(to).drop_last() =~= steps.take(to - 1));
        assert(steps.take(to).last() == steps[to - 1]);
        lemma_search_step(
            states[to - 1],
            events[to - 1].0,
            events[to - 1].1,
            states[to],
            steps[to - 1],
        );
    }
}

/// The number in the announcement of an attempt is right: at every point of a run it is by one
/// larger than the number of attempts until then.
pub proof fn law_search_counts_its_attempts(
    states: Seq<DeviceSearch>,
    events: Seq<(Reply, Nanos)>,
    steps: Seq<Step>,
    i: int,
    address: Seq<char>,
)
    requires
        is_search_run(states, events, steps),
        states[0].attempt == 0,
        0 <= i < steps.len(),
        tries_address(steps[i]) == Some(address),
    ensures
        states[i].attempt == attempts(steps.take(i)),
        steps[i].script@.last() == Notice::Status(
            "Attempt "@ + text::decimal(attempts(steps.take(i)) + 1) + ": adb connect "@ + address,
        ),
{
    lemma_attempts_until(states, events, steps, i);
    assert(states[i].leads_to(events[i].0, events[i].1, states[i + 1], steps[i]));
}

/// However long the search lasts, of the failures to list services only the first is reported.
pub proof fn law_search_reports_failing_discovery_once(
    states: Seq<DeviceSearch>,
    events: Seq<(Reply, Nanos)>,
    steps: Seq<Step>,
    i: int,
    j: int,
)
    requires
        is_search_run(states, events, steps),
        0 <= i < j < steps.len(),
        states[i].phase == SearchPhase::ListingServices && events[i].0 is Failed,
        states[j].phase == SearchPhase::ListingServices && events[j].0 is Failed,
    ensures
        !steps[j].warns(),
{
    assert(states[i].leads_to(events[i].0, events[i].1, states[i + 1], steps[i]));
    assert(states[j].leads_to(events[j].0, events[j].1, states[j + 1], steps[j]));
    lemma_search_remembers(states, events, steps, i + 1, j);
}

/// However long the search lasts, the user is told only once that no endpoint is known yet.
pub proof fn law_search_reports_waiting_once(
    states: Seq<DeviceSearch>,
    events: Seq<(Reply, Nanos)>,
    steps: Seq<Step>,
    i: int,
    j: int,
)
    requires
        is_search_run(states, events, steps),
        0 <= i < j < steps.len(),
        steps[i].script@.contains(Notice::CancelHint),
    ensures
        !steps[j].script@.contains(Notice::CancelHint),
{
    assert(states[i].leads_to(events[i].0, events[i].1, states[i + 1], steps[i]));
    assert(states[j].leads_to(events[j].0, events[j].1, states[j + 1], steps[j]));
    lemma_search_remembers(states, events, steps, i + 1, j);
}

/// As long as no endpoint is known, Bonjour is searched at intervals of ten seconds or more.
pub proof fn law_search_asks_bonjour_at_intervals(
    states: Seq<DeviceSearch>,
    events: Seq<(Reply, Nanos)>,
    steps: Seq<Step>,
    i: int,
    j: int,
)
    requires
        is_search_run(states, events, steps),
        0 <= i < j < steps.len(),
        states[i].phase == SearchPhase::Choosing && searches_bonjour(steps[i]),
        states[j].phase == SearchPhase::Choosing && searches_bonjour(steps[j]),
    ensures
        events[j].1 >= events[i].1 + 10 * SECOND,
{
    assert(states[i].leads_to(events[i].0, events[i].1, states[i + 1], steps[i]));
    assert(states[j].leads_to(events[j].0, events[j].1, states[j + 1], steps[j]));
    lemma_search_step(states[i], events[i].0, events[i].1, states[i + 1], steps[i]);
    lemma_search_remembers(states, events, steps, i + 1, j);
}

/// The search never sleeps beyond its deadline, goes by the same limits and the same record of
/// what was there before throughout, and lets the user connect by hand only after the screens
/// of the devices were searched in vain.
pub proof fn law_search_respects_its_limits(
    search: DeviceSearch,
    reply: Reply,
    now: Nanos,
    then: DeviceSearch,
    step: Step,
)
    requires
        search.wf(),
        search.expects(reply),
        search.leads_to(reply, now, then, step),
    ensures
        then.deadline == search.deadline,
        match step.next {
            Next::Ask(Request::Sleep(delay)) => now + delay <= search.deadline && delay <= 2
                * SECOND,
            Next::Ask(Request::MatchReadyDevice { baseline, .. }) => baseline@ == search.baseline@,
            Next::Ask(Request::TryDirectBonjourConnect { baseline, timeout, .. }) => baseline@
                == search.baseline@ && timeout == search.timeout,
            Next::Ask(Request::TryUiHierarchyConnect { baseline, timeout }) => baseline@
                == search.baseline@ && timeout == search.timeout && (now >= search.deadline
                || search.phase == SearchPhase::BonjourAfterFailure),
            Next::Ask(Request::ManualConnectDevice { baseline, timeout }) => baseline@
                == search.baseline@ && timeout == search.timeout && reply
                == Reply::MaybeDevice(None) && (search.phase == SearchPhase::ScreensAfterFailure
                || search.phase == SearchPhase::ScreensAtDeadline),
            _ => true,
        },
{
}

/// The device that the search ends with is one that matched or was connected to, and never one
/// of its own making.
pub proof fn law_search_gives_only_what_was_found(
    search: DeviceSearch,
    reply: Reply,
    now: Nanos,
    then: DeviceSearch,
    step: Step,
    found: AdbDevice,
)
    requires
        search.wf(),
        search.expects(reply),
        search.leads_to(reply, now, then, step),
        step.next == Next::Give(Reply::Device(found)),
    ensures
        reply == Reply::MaybeDevice(Some(found)) || reply == Reply::Device(found),
{
}

/// The services that the bridge lists are the ones that candidates are looked for among, for
/// the phone that was paired and against what was there before; only a listing that failed
/// counts as empty.
pub proof fn law_search_looks_at_every_listed_service(
    search: DeviceSearch,
    reply: Reply,
    now: Nanos,
    then: DeviceSearch,
    step: Step,
)
    requires
        search.wf(),
        search.expects(reply),
        search.leads_to(reply, now, then, step),
        search.phase == SearchPhase::ListingServices,
    ensures
        then.phase == SearchPhase::Choosing,
        match step.next {
            Next::Ask(
                Request::ConnectCandidates { services, pairing_address, baseline_services },
            ) => {
                &&& pairing_address@ == search.pairing_address@
                &&& baseline_services@ == search.baseline_services@
                &&& match reply {
                    Reply::Services(listed) => services@ == listed@,
                    _ => reply is Failed && services@.len() == 0,
                }
            },
            _ => false,
        },
        match reply {
            Reply::Failed(failure) => search.reported_mdns_error || step.script@.last()
                == Notice::Warning("adb mDNS connect lookup failed: "@ + failure.message@),
            _ => !step.warns(),
        },
{
}

/// Every device that is listed is looked at, for the serial that is expected now and against
/// what was there before; only a listing that failed counts as empty.
pub proof fn law_search_looks_at_every_listed_device(
    search: DeviceSearch,
    reply: Reply,
    now: Nanos,
    then: DeviceSearch,
    step: Step,
)
    requires
        search.wf(),
        search.expects(reply),
        search.leads_to(reply, now, then, step),
        search.phase == SearchPhase::Listing || search.phase == SearchPhase::VerifyingList,
    ensures
        search.phase == SearchPhase::Listing ==> then.phase == SearchPhase::Matching,
        search.phase == SearchPhase::VerifyingList ==> then.phase == SearchPhase::VerifyingMatch,
        match step.next {
            Next::Ask(Request::MatchReadyDevice { devices, expected_serial, baseline }) => {
                &&& expected_serial@ == search.expected_serial@
                &&& baseline@ == search.baseline@
                &&& match reply {
                    Reply::Devices(listed) => {
                        &&& devices@ == listed@
                        &&& search.phase == SearchPhase::Listing ==> then.ready_count
                            == device::ready_devices(listed@).len()
                    },
                    _ => {
                        &&& reply is Failed
                        &&& devices@.len() == 0
                        &&& search.phase == SearchPhase::Listing ==> then.ready_count == 0
                    },
                }
            },
            _ => false,
        },
{
    reveal(Seq::filter);
}

/// A device that was found, wherever it was found, is what the search ends with; and so does a
/// failure that it cannot go on after.
pub proof fn law_search_ends_with_what_was_found(
    search: DeviceSearch,
    reply: Reply,
    now: Nanos,
    then: DeviceSearch,
    step: Step,
)
    requires
        search.wf(),
        search.expects(reply),
        search.leads_to(reply, now, then, step),
    ensures
        match reply {
            Reply::MaybeDevice(Some(found)) => {
                &&& step.next == Next::Give(Reply::Device(found))
                &&& search.phase == SearchPhase::Matching ==> step.script@.last()
                    == Notice::Success("ADB device is ready: "@ + found.display_name@)
            },
            Reply::Device(_) => step.next == Next::Give(reply),
            Reply::Failed(_) => step.next == Next::Give(reply) <==> {
                &&& search.phase != SearchPhase::Listing
                &&& search.phase != SearchPhase::VerifyingList
                &&& search.phase != SearchPhase::ListingServices
                &&& search.phase != SearchPhase::Connecting
            },
            _ => !(step.next is Give),
        },
        match step.next {
            Next::Give(_) => then.phase == SearchPhase::Over,
            Next::Ask(_) => then.phase != SearchPhase::Over,
        },
{
}

/// A round of the search begins with the time that is left and a list of the devices; where the
/// phone is not among them, the services come next, and the user is told how many devices are
/// ready instead.
pub proof fn law_search_round_lists_devices_and_then_services(
    search: DeviceSearch,
    reply: Reply,
    now: Nanos,
    then: DeviceSearch,
    step: Step,
)
    requires
        search.wf(),
        search.expects(reply),
        search.leads_to(reply, now, then, step),
    ensures
        search.phase == SearchPhase::Ticking && reply is Done ==> step.next == Next::Ask(
            Request::Devices,
        ) && then.phase == SearchPhase::Listing,
        search.phase == SearchPhase::Sleeping && reply is Done ==> then.phase
            == SearchPhase::Ticking && match step.next {
            Next::Ask(Request::Tick(left)) => if now < search.deadline {
                now + left == search.deadline
            } else {
                left == 0
            },
            _ => false,
        },
        search.phase == SearchPhase::Matching && reply == Reply::MaybeDevice(None) ==> {
            &&& then.phase == SearchPhase::ListingServices
            &&& step.next == Next::Ask(Request::MdnsServices)
            &&& if search.ready_count == 0 {
                step.script@.len() == 0
            } else {
                step.script@.last() == Notice::Status(
                    "ADB sees "@ + text::decimal(search.ready_count as nat)
                        + " ready device(s), but not the just-paired phone yet."@,
                )
            }
        },
{
}

/// The candidates are tried one by one from the first on, and the round is over only after the
/// last; without any, Bonjour is searched if that is due.
pub proof fn law_search_tries_every_candidate_in_turn(
    search: DeviceSearch,
    reply: Reply,
    now: Nanos,
    then: DeviceSearch,
    step: Step,
)
    requires
        search.wf(),
        search.expects(reply),
        search.leads_to(reply, now, then, step),
    ensures
        match reply {
            Reply::Services(found) => if search.phase == SearchPhase::Choosing {
                &&& then.candidates@ == found@
                &&& if found@.len() > 0 {
                    &&& tries_address(step) == Some(found@[0].address@)
                    &&& then.position == 0
                    &&& then.phase == SearchPhase::Connecting
                } else if search.last_bonjour_check is None || now
                    >= search.last_bonjour_check->0 + 10 * SECOND {
                    &&& match step.next {
                        Next::Ask(
                            Request::TryDirectBonjourConnect {
                                pairing_address,
                                baseline,
                                skipped,
                                timeout,
                            },
                        ) => {
                            &&& pairing_address@ == search.pairing_address@
                            &&& baseline@ == search.baseline@
                            &&& skipped is None
                            &&& timeout == search.timeout
                        },
                        _ => false,
                    }
                    &&& then.last_bonjour_check == Some(now)
                    &&& then.phase == SearchPhase::SearchingBonjour
                } else {
                    search.round_is_over(now, then, step)
                }
            } else {
                true
            },
            Reply::MaybeDevice(None) => if search.phase == SearchPhase::VerifyingMatch {
                if search.position + 1 < search.candidates@.len() {
                    &&& tries_address(step) == Some(
                        search.candidates@[search.position + 1].address@,
                    )
                    &&& then.candidates == search.candidates
                    &&& then.position == search.position + 1
                    &&& then.phase == SearchPhase::Connecting
                } else {
                    search.round_is_over(now, then, step)
                }
            } else {
                search.phase == SearchPhase::SearchingBonjour ==> search.round_is_over(
                    now,
                    then,
                    step,
                )
            },
            _ => tries_address(step) is None,
        },
{
}

/// The user learns of the candidates whenever they are others than the ones last told.
pub proof fn law_search_tells_new_candidates(
    search: DeviceSearch,
    found: Vec<MdnsService>,
    now: Nanos,
    then: DeviceSearch,
    step: Step,
)
    requires
        search.wf(),
        search.phase == SearchPhase::Choosing,
        search.expects(Reply::Services(found)),
        search.leads_to(Reply::Services(found), now, then, step),
    ensures
        found@.len() == 0 ==> then.last_summary@ == search.last_summary@ && then.reported_waiting
            && (search.reported_waiting || step.script@.contains(Notice::CancelHint)),
        found@.len() > 0 ==> then.last_summary@ == device::comma_list(
            device::addresses(found@),
        ) && (then.last_summary@ == search.last_summary@ || step.script@[1] == Notice::Status(
            "Connect endpoint candidate(s): "@ + device::comma_list(device::addresses(found@)),
        )),
{
    if found@.len() == 0 && !search.reported_waiting {
        assert(step.script@[2] == Notice::<Seq<char>>::CancelHint);
    }
}

impl DeviceSearch {
    /// Until its time is up, the search sleeps and then goes round again, as long as it may;
    /// after that the screens of the devices are searched.
    pub open spec fn round_is_over(self, now: Nanos, then: DeviceSearch, step: Step) -> bool {
        match step.next {
            Next::Ask(Request::Sleep(span)) => {
                &&& then.phase == SearchPhase::Sleeping
                &&& now < self.deadline
                &&& now + span <= self.deadline
                &&& span == 2 * SECOND || (span < 2 * SECOND && now + span == self.deadline)
            },
            Next::Ask(Request::TryUiHierarchyConnect { baseline, timeout }) => {
                &&& then.phase == SearchPhase::ScreensAtDeadline
                &&& now >= self.deadline
                &&& baseline@ == self.baseline@
                &&& timeout == self.timeout
            },
            _ => false,
        }
    }
}

/// What the bridge prints when it connects names the device that is then looked for; if it names
/// none, the endpoint that was tried does.
pub proof fn law_search_verifies_the_endpoint_it_tried(
    states: Seq<DeviceSearch>,
    events: Seq<(Reply, Nanos)>,
    steps: Seq<Step>,
    i: int,
    address: Seq<char>,
    output: String,
    named: Option<String>,
)
    requires
        is_search_run(states, events, steps),
        0 <= i,
        i + 3 < steps.len(),
        tries_address(steps[i]) == Some(address),
        events[i + 1].0 == Reply::Text(output),
        events[i + 2].0 == Reply::MaybeText(named),
    ensures
        steps[i + 1].next == Next::Ask(Request::SerialFromOutput(output)),
        steps[i + 2].next == Next::Ask(Request::Devices),
        states[i + 3].expected_serial@ == if named is Some {
            named->0@
        } else {
            address
        },
        match (events[i + 3].0, steps[i + 3].next) {
            (
                Reply::Devices(listed),
                Next::Ask(Request::MatchReadyDevice { devices, expected_serial, baseline }),
            ) => {
                &&& devices@ == listed@
                &&& named is Some ==> expected_serial@ == named->0@
                &&& named is None ==> expected_serial@ == address
                &&& baseline@ == states[i].baseline@
            },
            (Reply::Failed(_), Next::Ask(Request::MatchReadyDevice { devices, .. })) => devices@.len()
                == 0,
            _ => false,
        },
{
    assert(states[i].leads_to(events[i].0, events[i].1, states[i + 1], steps[i]));
    assert(states[i + 1].leads_to(
        events[i + 1].0,
        events[i + 1].1,
        states[i + 2],
        steps[i + 1],
    ));
    assert(states[i + 2].leads_to(
        events[i + 2].0,
        events[i + 2].1,
        states[i + 3],
        steps[i + 2],
    ));
    assert(states[i + 3].leads_to(
        events[i + 3].0,
        events[i + 3].1,
        states[i + 4],
        steps[i + 3],
    ));
}

/// The serial that is expected changes only when the bridge has connected.
pub proof fn law_search_expects_the_same_device_otherwise(
    search: DeviceSearch,
    reply: Reply,
    now: Nanos,
    then: DeviceSearch,
    step: Step,
)
    requires
        search.wf(),
        search.expects(reply),
        search.leads_to(reply, now, then, step),
        !(reply is MaybeText),
    ensures
        then.expected_serial == search.expected_serial,
        then.pairing_address == search.pairing_address,
        then.baseline == search.baseline,
        then.baseline_services == search.baseline_services,
        then.timeout == search.timeout,
{
}

/// An endpoint that could not be connected to is reported with the reason, and left out of the
/// search by Bonjour that follows; the screens come after that, and then the user.
pub proof fn law_search_falls_back_step_by_step(
    states: Seq<DeviceSearch>,
    events: Seq<(Reply, Nanos)>,
    steps: Seq<Step>,
    i: int,
    address: Seq<char>,
    failure: Failure,
)
    requires
        is_search_run(states, events, steps),
        0 <= i,
        i + 1 < steps.len(),
        tries_address(steps[i]) == Some(address),
        events[i + 1].0 == Reply::Failed(failure),
    ensures
        steps[i + 1].script@.last() == Notice::Warning(
            "ADB mDNS endpoint "@ + address + " failed: "@ + failure.message@,
        ),
        match steps[i + 1].next {
            Next::Ask(
                Request::TryDirectBonjourConnect { pairing_address, baseline, skipped, timeout },
            ) => {
                &&& pairing_address@ == states[i].pairing_address@
                &&& baseline@ == states[i].baseline@
                &&& skipped is Some
                &&& skipped->0@ == address
                &&& timeout == states[i].timeout
            },
            _ => false,
        },
        i + 2 < steps.len() && events[i + 2].0 == Reply::MaybeDevice(None) ==> match steps[i
            + 2].next {
            Next::Ask(Request::TryUiHierarchyConnect { baseline, timeout }) => baseline@
                == states[i].baseline@ && timeout == states[i].timeout,
            _ => false,
        },
        i + 3 < steps.len() && events[i + 2].0 == Reply::MaybeDevice(None) && events[i + 3].0
            == Reply::MaybeDevice(None) ==> match steps[i + 3].next {
            Next::Ask(Request::ManualConnectDevice { baseline, timeout }) => baseline@
                == states[i].baseline@ && timeout == states[i].timeout && steps[i + 3].warns(),
            _ => false,
        },
{
    assert(states[i].leads_to(events[i].0, events[i].1, states[i + 1], steps[i]));
    assert(states[i + 1].leads_to(
        events[i + 1].0,
        events[i + 1].1,
        states[i + 2],
        steps[i + 1],
    ));
    if i + 2 < steps.len() {
        assert(states[i + 2].leads_to(
            events[i + 2].0,
            events[i + 2].1,
            states[i + 3],
            steps[i + 2],
        ));
    }
    if i + 3 < steps.len() && events[i + 2].0 == Reply::MaybeDevice(None) {
        assert(states[i + 3].leads_to(
            events[i + 3].0,
            events[i + 3].1,
            states[i + 4],
            steps[i + 3],
        ));
        if events[i + 3].0 == Reply::MaybeDevice(None) {
            assert(steps[i + 3].script@[0] is Warning);
        }
    }
}

/// When the time is up, the user connects by hand after the screens were searched in vain.
pub proof fn law_search_ends_by_hand_when_its_time_is_up(
    search: DeviceSearch,
    now: Nanos,
    then: DeviceSearch,
    step: Step,
)
    requires
        search.wf(),
        search.phase == SearchPhase::ScreensAtDeadline,
        search.leads_to(Reply::MaybeDevice(None), now, then, step),
    ensures
        step.warns(),
        match step.next {
            Next::Ask(Request::ManualConnectDevice { baseline, timeout }) => baseline@
                == search.baseline@ && timeout == search.timeout,
            _ => false,
        },
{
    assert(step.script@[0] is Warning);
}

/// What the search remembers is what it did: a failed discovery counts as reported from the first
/// one on and not before, the wait for an endpoint from the first time that there was none, an
/// attempt when a connection is tried; and what it counts and tries changes at no other time.
pub proof fn law_search_remembers_what_it_did(
    search: DeviceSearch,
    reply: Reply,
    now: Nanos,
    then: DeviceSearch,
    step: Step,
)
    requires
        search.wf(),
        search.expects(reply),
        search.leads_to(reply, now, then, step),
    ensures
        then.reported_mdns_error <==> search.reported_mdns_error || (search.phase
            == SearchPhase::ListingServices && reply is Failed),
        then.reported_waiting <==> search.reported_waiting || (search.phase
            == SearchPhase::Choosing && then.candidates@.len() == 0),
        then.attempt == search.attempt + if step.next is Ask && step.next->Ask_0 is Connect {
            1int
        } else {
            0int
        },
        then.last_bonjour_check == if search.phase == SearchPhase::Choosing && step.next is Ask
            && step.next->Ask_0 is TryDirectBonjourConnect {
            Some(now)
        } else {
            search.last_bonjour_check
        },
        search.phase != SearchPhase::Listing ==> then.ready_count == search.ready_count,
        search.phase != SearchPhase::Choosing ==> {
            &&& then.candidates == search.candidates
            &&& then.last_summary == search.last_summary
            &&& search.phase != SearchPhase::VerifyingMatch ==> then.position == search.position
        },
        !(step.next is Ask && step.next->Ask_0 is Connect) ==> then.announced == search.announced,
{
}

/// An endpoint is added to the announced ones when it is tried, and no other.
pub proof fn law_search_announces_only_what_it_tries(
    search: DeviceSearch,
    reply: Reply,
    now: Nanos,
    then: DeviceSearch,
    step: Step,
    address: String,
)
    requires
        search.wf(),
        search.expects(reply),
        search.leads_to(reply, now, then, step),
        step.next == Next::Ask(Request::Connect(address)),
    ensures
        exists|i: int| 0 <= i < then.announced@.len() && #[trigger] then.announced@[i]@ == address@,
        forall|i: int|
            0 <= i < then.announced@.len() ==> {
                ||| #[trigger] then.announced@[i]@ == address@
                ||| i < search.announced@.len() && then.announced@[i]@ == search.announced@[i]@
            },
        forall|i: int|
            0 <= i < search.announced@.len() ==> i < then.announced@.len()
                && then.announced@[i]@ == #[trigger] search.announced@[i]@,
{
    let before = search.announced.deep_view();
    let after = then.announced.deep_view();
    assert(before.len() == search.announced@.len());
    assert(after.len() == then.announced@.len());
    assert(forall|i: int|
        0 <= i < before.len() ==> before[i] == #[trigger] search.announced@[i]@);
    assert(forall|i: int| 0 <= i < after.len() ==> after[i] == #[trigger] then.announced@[i]@);
    assert(after == before || after == before.push(address@));
    if after == before {
        assert(text::holds(search.announced, address@));
        let i = choose|i: int| 0 <= i < before.len() && before[i] == address@;
        assert(then.announced@[i]@ == address@);
    } else {
        assert(then.announced@[before.len() as int]@ == address@);
    }
}

/// Candidates that are the same as the ones last told are not told again, and neither is the wait
/// for them.
pub proof fn law_search_does_not_repeat_itself(
    search: DeviceSearch,
    found: Vec<MdnsService>,
    now: Nanos,
    then: DeviceSearch,
    step: Step,
    k: int,
    list: Seq<char>,
)
    requires
        search.wf(),
        search.phase == SearchPhase::Choosing,
        search.expects(Reply::Services(found)),
        search.leads_to(Reply::Services(found), now, then, step),
        0 <= k < step.script@.len(),
        step.script@[k] == Notice::Status("Connect endpoint candidate(s): "@ + list),
    ensures
        found@.len() > 0,
        then.last_summary@ != search.last_summary@,
{
    reveal_strlit("Connect endpoint candidate(s): ");
    reveal_strlit("Connecting to ");
    reveal_strlit("Attempt ");
    reveal_strlit("Waiting for the phone to advertise its connection endpoint...");
    assert(("Connect endpoint candidate(s): "@ + list)[7] == ' ');
    assert(("Connect endpoint candidate(s): "@ + list)[0] == 'C');
    if found@.len() == 0 {
        assert(step.script@[k] is Status);
    } else {
        let address = found@[0].address@;
        let attempt = (search.attempt + 1) as nat;
        assert(("Connecting to "@ + address + "..."@)[7] == 'i');
        assert(("Attempt "@ + text::decimal(attempt) + ": adb connect "@ + address)[0] == 'A');
    }
}

/// The countdown line is given up before anything else is said, except where another search has
/// run in between.
pub proof fn law_search_gives_its_line_up(
    search: DeviceSearch,
    reply: Reply,
    now: Nanos,
    then: DeviceSearch,
    step: Step,
)
    requires
        search.wf(),
        search.expects(reply),
        search.leads_to(reply, now, then, step),
    ensures
        search.phase != SearchPhase::ScreensAfterFailure && search.phase
            != SearchPhase::ScreensAtDeadline ==> forall|k: int|
            0 <= k < step.script@.len() && (#[trigger] step.script@[k] is Status
                || step.script@[k] is Success || step.script@[k] is Warning) ==> k > 0
                && step.script@[k - 1] is CountdownEnds,
        match step.next {
            Next::Give(_) => search.phase == SearchPhase::Matching || search.phase
                == SearchPhase::VerifyingMatch || search.phase == SearchPhase::Sleeping
                ==> step.script@.len() > 0 && step.script@.first() is CountdownEnds,
            Next::Ask(request) => (request is TryUiHierarchyConnect && search.phase
                != SearchPhase::BonjourAfterFailure) || (request is TryDirectBonjourConnect
                && search.phase == SearchPhase::Choosing) ==> step.script@.last() is CountdownEnds,
        },
        search.phase == SearchPhase::ReadingSerial ==> step.script@.last() == Notice::Status(
            "Verifying the device is ready..."@,
        ),
        search.phase == SearchPhase::ScreensAfterFailure && step.next is Ask ==> step.script@.last()
            == Notice::Warning("Automatic discovery did not find a working endpoint."@),
        search.phase == SearchPhase::ScreensAtDeadline && step.next is Ask ==> step.script@.last()
            == Notice::Warning(
            "Automatic discovery timed out before finding a connectable wireless debugging endpoint."@,
        ),
{
}

} // verus!
