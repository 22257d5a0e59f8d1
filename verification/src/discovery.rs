//! Finding out where a phone that was just paired can be connected to.

use vstd::pervasive::unreached;
use vstd::prelude::*;

use crate::clock;
use crate::clock::{verify_timeout, Nanos, SECOND};
use crate::device;
use crate::device::{join_with_commas, only_ready_devices, AdbDevice};
use crate::dialogue::{Next, Notice, Reply, Request, Script, Step};
use crate::endpoint;
use crate::endpoint::extract_ipv4_endpoints;
use crate::text;
use crate::text::{add_text, copy_texts, has_text, three, two};

verus! {

/// A search for a phone by Bonjour, with an attempt to connect to each endpoint found.
#[derive(Debug, PartialEq, Eq)]
pub struct BonjourAttempt {
    pub pairing_address: String,
    pub baseline: Vec<String>,
    pub skipped: Option<String>,
    pub timeout: Nanos,
    pub endpoints: Vec<String>,
    pub position: usize,
    pub phase: BonjourPhase,
}

/// What the search is waiting for.
#[derive(Debug, Clone, Copy, PartialEq, Eq, Structural)]
pub enum BonjourPhase {
    Discovering,
    Connecting,
    Over,
}

/// The endpoint is the one to leave out.
pub open spec fn left_out(endpoint: String, skipped: Option<String>) -> bool {
    match skipped {
        Some(skipped) => skipped@ == endpoint@,
        None => false,
    }
}

/// The first position from `from` on whose endpoint is not left out, or the end.
pub open spec fn next_position(endpoints: Seq<String>, skipped: Option<String>, from: int) -> int
    decreases endpoints.len() - from,
{
    if 0 <= from < endpoints.len() && left_out(endpoints[from], skipped) {
        next_position(endpoints, skipped, from + 1)
    } else {
        from
    }
}

/// What is said about the endpoints from `from` to `to`, which are left out.
pub open spec fn skipping(endpoints: Seq<String>, from: int, to: int) -> Seq<Notice<Seq<char>>> {
    Seq::new(
        (to - from) as nat,
        |i: int|
            Notice::Status("Skipping "@ + endpoints[from + i]@ + "; ADB already tried it."@),
    )
}

impl BonjourAttempt {
    /// There are endpoints only once they were found, and while a connection is tried, there
    /// is one that it is tried with.
    pub open spec fn wf(self) -> bool {
        &&& self.phase == BonjourPhase::Discovering ==> self.endpoints@.len() == 0
        &&& self.phase == BonjourPhase::Connecting ==> self.position < self.endpoints@.len()
    }

    /// The replies that the search can go on with.
    pub open spec fn expects(self, reply: Reply) -> bool {
        match self.phase {
            BonjourPhase::Discovering => reply is Texts || reply is Failed,
            BonjourPhase::Connecting => reply is Device || reply is Failed,
            BonjourPhase::Over => false,
        }
    }

    /// Whether the reply is one of those.
    pub fn accepts(&self, reply: &Reply) -> (r: bool)
        ensures
            r == self.expects(*reply),
    {
        match (self.phase, reply) {
            (BonjourPhase::Discovering, Reply::Texts(_) | Reply::Failed(_)) => true,
            (BonjourPhase::Connecting, Reply::Device(_) | Reply::Failed(_)) => true,
            _ => false,
        }
    }

    /// A flow begins in this state and with this step.
    pub open spec fn opens(
        pairing_address: String,
        baseline: Vec<String>,
        skipped: Option<String>,
        timeout: Nanos,
        flow: Self,
        step: Step,
    ) -> bool {
        &&& flow.wf()
        &&& flow.pairing_address == pairing_address
        &&& flow.baseline == baseline
        &&& flow.skipped == skipped
        &&& flow.timeout == timeout
        &&& flow.endpoints@.len() == 0
        &&& flow.position == 0
        &&& flow.phase == BonjourPhase::Discovering
        &&& step.asks(
            seq![
                Notice::Status(
                    "Checking macOS Bonjour directly for wireless debugging endpoints..."@,
                ),
            ],
            Request::DiscoverConnect { pairing_address, patience: 6_000_000_000 },
        )
    }

    /// Begins to search.
    pub fn begin(
        pairing_address: String,
        baseline: Vec<String>,
        skipped: Option<String>,
        timeout: Nanos,
    ) -> (begun: (BonjourAttempt, Step))
        ensures
            Self::opens(pairing_address, baseline, skipped, timeout, begun.0, begun.1),
    {
        let step = Script::new().status(
            "Checking macOS Bonjour directly for wireless debugging endpoints...",
        ).ask(
            Request::DiscoverConnect {
                pairing_address: pairing_address.clone(),
                patience: 6 * SECOND,
            },
        );
        let attempt = BonjourAttempt {
            pairing_address,
            baseline,
            skipped,
            timeout,
            endpoints: Vec::new(),
            position: 0,
            phase: BonjourPhase::Discovering,
        };
        (attempt, step)
    }

    /// After saying `said`, the endpoints from `from` on are tried: the first one that is not
    /// left out comes next, and where there is none, no device is found.
    pub open spec fn tries_from(
        self,
        from: int,
        said: Seq<Notice<Seq<char>>>,
        then: BonjourAttempt,
        step: Step,
    ) -> bool {
        let at = next_position(self.endpoints@, self.skipped, from);
        let all_said = said + skipping(self.endpoints@, from, at);
        &&& then == BonjourAttempt { position: then.position, phase: then.phase, ..self }
        &&& then.position == at
        &&& if at < self.endpoints@.len() {
            &&& then.phase == BonjourPhase::Connecting
            &&& step.asks_to_connect(
                all_said,
                self.endpoints@[at]@,
                self.baseline@,
                clock::patience(self.timeout),
            )
        } else {
            &&& then.phase == BonjourPhase::Over
            &&& step.gives(all_said, Reply::MaybeDevice(None))
        }
    }

    /// What a reply leads to.
    pub open spec fn leads_to(self, reply: Reply, then: BonjourAttempt, step: Step) -> bool {
        match (self.phase, reply) {
            (BonjourPhase::Discovering, Reply::Failed(failure)) => {
                &&& then == BonjourAttempt { phase: BonjourPhase::Over, ..self }
                &&& step.gives(
                    seq![Notice::Warning("Bonjour connect lookup failed: "@ + failure.message@)],
                    Reply::MaybeDevice(None),
                )
            },
            (BonjourPhase::Discovering, Reply::Texts(endpoints)) => if endpoints@.len() == 0 {
                &&& then == BonjourAttempt { phase: BonjourPhase::Over, ..self }
                &&& step.gives(
                    seq![Notice::Status("No Bonjour connect endpoints found outside ADB."@)],
                    Reply::MaybeDevice(None),
                )
            } else {
                (BonjourAttempt { endpoints, ..self }).tries_from(
                    0,
                    seq![
                        Notice::Status(
                            "Bonjour endpoint candidate(s): "@ + device::comma_list(
                                endpoints.deep_view(),
                            ),
                        ),
                    ],
                    then,
                    step,
                )
            },
            (BonjourPhase::Connecting, Reply::Device(found)) => {
                &&& then == BonjourAttempt { phase: BonjourPhase::Over, ..self }
                &&& step.gives(seq![], Reply::MaybeDevice(Some(found)))
            },
            (BonjourPhase::Connecting, Reply::Failed(failure)) => self.tries_from(
                self.position + 1,
                seq![
                    Notice::Warning(
                        "Bonjour endpoint "@ + self.endpoints@[self.position as int]@
                            + " failed: "@ + failure.message@,
                    ),
                ],
                then,
                step,
            ),
            _ => false,
        }
    }

    /// Tries the endpoints from `from` on.
    fn try_from(&mut self, from: usize, script: Script) -> (step: Step)
        requires
            from <= old(self).endpoints@.len(),
        ensures
            final(self).wf(),
            old(self).tries_from(from as int, script@, *final(self), step),
    {
        let ghost said = script@;
        let ghost before = *self;
        let mut script = script;
        let mut at: usize = from;
        assert(script@ =~= said + skipping(self.endpoints@, from as int, at as int));
        while at < self.endpoints.len()
            invariant
                *self == before,
                from <= at <= self.endpoints@.len(),
                script@ == said + skipping(self.endpoints@, from as int, at as int),
                next_position(self.endpoints@, self.skipped, from as int) == next_position(
                    self.endpoints@,
                    self.skipped,
                    at as int,
                ),
            ensures
                *self == before,
                from <= at <= self.endpoints@.len(),
                script@ == said + skipping(self.endpoints@, from as int, at as int),
                next_position(self.endpoints@, self.skipped, from as int) == at,
            decreases self.endpoints@.len() - at,
        {
            let skip = match &self.skipped {
                Some(skipped) => *skipped == self.endpoints[at],
                None => false,
            };
            if !skip {
                break ;
            }
            script = script.status(
                three("Skipping ", self.endpoints[at].as_str(), "; ADB already tried it.").as_str(),
            );
            assert(script@ =~= said + skipping(self.endpoints@, from as int, at + 1));
            at = at + 1;
        }
        self.position = at;
        if at < self.endpoints.len() {
            self.phase = BonjourPhase::Connecting;
            script.ask(
                Request::ConnectToEndpoint {
                    endpoint: self.endpoints[at].clone(),
                    baseline: copy_texts(&self.baseline),
                    timeout: verify_timeout(self.timeout),
                },
            )
        } else {
            self.phase = BonjourPhase::Over;
            script.give(Reply::MaybeDevice(None))
        }
    }
}

/// Goes on with the search for a phone by Bonjour.
pub fn try_direct_bonjour_connect(attempt: &mut BonjourAttempt, reply: Reply) -> (step: Step)
    requires
        old(attempt).wf(),
        old(attempt).expects(reply),
    ensures
        final(attempt).wf(),
        old(attempt).leads_to(reply, *final(attempt), step),
{
    match (attempt.phase, reply) {
        (BonjourPhase::Discovering, Reply::Failed(failure)) => {
            attempt.phase = BonjourPhase::Over;
            Script::new().warning(
                two("Bonjour connect lookup failed: ", failure.message.as_str()).as_str(),
            ).give(Reply::MaybeDevice(None))
        },
        (BonjourPhase::Discovering, Reply::Texts(endpoints)) => if endpoints.len() == 0 {
            attempt.phase = BonjourPhase::Over;
            Script::new().status("No Bonjour connect endpoints found outside ADB.").give(
                Reply::MaybeDevice(None),
            )
        } else {
            let script = Script::new().status(
                two(
                    "Bonjour endpoint candidate(s): ",
                    join_with_commas(&endpoints).as_str(),
                ).as_str(),
            );
            attempt.endpoints = endpoints;
            attempt.try_from(0, script)
        },
        (BonjourPhase::Connecting, Reply::Device(found)) => {
            attempt.phase = BonjourPhase::Over;
            Script::new().give(Reply::MaybeDevice(Some(found)))
        },
        (BonjourPhase::Connecting, Reply::Failed(failure)) => {
            assert(attempt.position < attempt.endpoints.len());
            let tried = three(
                "Bonjour endpoint ",
                attempt.endpoints[attempt.position].as_str(),
                " failed: ",
            );
            let script = Script::new().warning(
                two(tried.as_str(), failure.message.as_str()).as_str(),
            );
            attempt.try_from(attempt.position + 1, script)
        },
        _ => unreached(),
    }
}

/// A search of the screens of the devices that are connected already, with an attempt to
/// connect to each endpoint that is shown there.
#[derive(Debug, PartialEq, Eq)]
pub struct ScreenAttempt {
    pub baseline: Vec<String>,
    pub timeout: Nanos,
    pub devices: Vec<AdbDevice>,
    pub device_at: usize,
    pub endpoints: Vec<String>,
    pub endpoint_at: usize,
    /// The endpoints that were tried.
    pub seen: Vec<String>,
    pub phase: ScreenPhase,
}

/// What the search is waiting for.
#[derive(Debug, Clone, Copy, PartialEq, Eq, Structural)]
pub enum ScreenPhase {
    Listing,
    Reading,
    Connecting,
    Over,
}

/// The first position from `from` on whose endpoint was not tried yet, or the end.
pub open spec fn next_unseen(endpoints: Seq<String>, seen: Vec<String>, from: int) -> int
    decreases endpoints.len() - from,
{
    if 0 <= from < endpoints.len() && text::holds(seen, endpoints[from]@) {
        next_unseen(endpoints, seen, from + 1)
    } else {
        from
    }
}

impl ScreenAttempt {
    /// While a screen is read or a connection tried, there is a device and an endpoint that
    /// it is about.
    pub open spec fn wf(self) -> bool {
        &&& self.phase == ScreenPhase::Reading || self.phase == ScreenPhase::Connecting
            ==> self.device_at < self.devices@.len()
        &&& self.phase == ScreenPhase::Connecting ==> self.endpoint_at < self.endpoints@.len()
    }

    /// The replies that the search can go on with.
    pub open spec fn expects(self, reply: Reply) -> bool {
        match self.phase {
            ScreenPhase::Listing => reply is Devices || reply is Failed,
            ScreenPhase::Reading => reply is Text || reply is Failed,
            ScreenPhase::Connecting => reply is Device || reply is Failed,
            ScreenPhase::Over => false,
        }
    }

    /// Whether the reply is one of those.
    pub fn accepts(&self, reply: &Reply) -> (r: bool)
        ensures
            r == self.expects(*reply),
    {
        match (self.phase, reply) {
            (ScreenPhase::Listing, Reply::Devices(_) | Reply::Failed(_)) => true,
            (ScreenPhase::Reading, Reply::Text(_) | Reply::Failed(_)) => true,
            (ScreenPhase::Connecting, Reply::Device(_) | Reply::Failed(_)) => true,
            _ => false,
        }
    }

    /// A flow begins in this state and with this step.
    pub open spec fn opens(baseline: Vec<String>, timeout: Nanos, flow: Self, step: Step) -> bool {
        &&& flow.wf()
        &&& flow.baseline == baseline
        &&& flow.timeout == timeout
        &&& flow.devices@.len() == 0
        &&& flow.device_at == 0
        &&& flow.endpoints@.len() == 0
        &&& flow.endpoint_at == 0
        &&& flow.seen@.len() == 0
        &&& flow.phase == ScreenPhase::Listing
        &&& step.asks(seq![], Request::Devices)
    }

    /// Begins with the list of devices.
    pub fn begin(baseline: Vec<String>, timeout: Nanos) -> (begun: (ScreenAttempt, Step))
        ensures
            Self::opens(baseline, timeout, begun.0, begun.1),
    {
        let attempt = ScreenAttempt {
            baseline,
            timeout,
            devices: Vec::new(),
            device_at: 0,
            endpoints: Vec::new(),
            endpoint_at: 0,
            seen: Vec::new(),
            phase: ScreenPhase::Listing,
        };
        (attempt, Script::new().ask(Request::Devices))
    }

    /// After saying `said`, the device at `at` comes next, and where there is none, no device
    /// is found.
    pub open spec fn reads_from(
        self,
        at: int,
        said: Seq<Notice<Seq<char>>>,
        then: ScreenAttempt,
        step: Step,
    ) -> bool {
        &&& then == ScreenAttempt { device_at: then.device_at, phase: then.phase, ..self }
        &&& then.device_at == at
        &&& if at < self.devices@.len() {
            &&& then.phase == ScreenPhase::Reading
            &&& step.asks(
                said.push(
                    Notice::Status(
                        "Reading UI hierarchy from "@ + self.devices@[at].display_name@ + "..."@,
                    ),
                ),
                Request::DumpUiHierarchy(self.devices@[at].serial),
            )
        } else {
            &&& then.phase == ScreenPhase::Over
            &&& step.gives(said, Reply::MaybeDevice(None))
        }
    }

    /// After saying `said`, the endpoints of this device are tried from `from` on: the first
    /// one that was not tried before comes next, and where there is none, the next device.
    pub open spec fn tries_from(
        self,
        from: int,
        said: Seq<Notice<Seq<char>>>,
        then: ScreenAttempt,
        step: Step,
    ) -> bool {
        let at = next_unseen(self.endpoints@, self.seen, from);
        &&& then.endpoint_at == at
        &&& if at < self.endpoints@.len() {
            &&& then == ScreenAttempt {
                endpoint_at: then.endpoint_at,
                seen: then.seen,
                phase: ScreenPhase::Connecting,
                ..self
            }
            &&& then.seen.deep_view() == self.seen.deep_view().push(self.endpoints@[at]@)
            &&& step.asks_to_connect(
                said,
                self.endpoints@[at]@,
                self.baseline@,
                clock::patience(self.timeout),
            )
        } else {
            (ScreenAttempt { endpoint_at: then.endpoint_at, ..self }).reads_from(
                self.device_at + 1,
                said,
                then,
                step,
            )
        }
    }

    /// What a reply leads to.
    pub open spec fn leads_to(self, reply: Reply, then: ScreenAttempt, step: Step) -> bool {
        match (self.phase, reply) {
            (ScreenPhase::Listing, _) => {
                let ready = device::ready_devices(reply.listed_devices());
                let listed = ScreenAttempt { devices: then.devices, ..self };
                &&& then.devices@ == ready
                &&& if ready.len() == 0 {
                    &&& then == ScreenAttempt { phase: ScreenPhase::Over, ..listed }
                    &&& step.gives(
                        seq![
                            Notice::Status(
                                "No existing ADB transport is available for screen parsing."@,
                            ),
                        ],
                        Reply::MaybeDevice(None),
                    )
                } else {
                    listed.reads_from(
                        0,
                        seq![
                            Notice::Status(
                                "Trying to read the visible phone screen through ADB..."@,
                            ),
                        ],
                        then,
                        step,
                    )
                }
            },
            (ScreenPhase::Reading, Reply::Failed(failure)) => self.reads_from(
                self.device_at + 1,
                seq![
                    Notice::Warning(
                        "Could not read UI hierarchy from "@
                            + self.devices@[self.device_at as int].display_name@ + ": "@
                            + failure.message@,
                    ),
                ],
                then,
                step,
            ),
            (ScreenPhase::Reading, Reply::Text(hierarchy)) => {
                let shown = endpoint::ipv4_endpoints(hierarchy@);
                let read = ScreenAttempt { endpoints: then.endpoints, ..self };
                &&& then.endpoints.deep_view() == shown
                &&& if shown.len() == 0 {
                    read.reads_from(
                        self.device_at + 1,
                        seq![
                            Notice::Status(
                                "No IP:port text found on "@
                                    + self.devices@[self.device_at as int].display_name@ + "."@,
                            ),
                        ],
                        then,
                        step,
                    )
                } else {
                    read.tries_from(
                        0,
                        seq![
                            Notice::Status(
                                "Screen endpoint candidate(s): "@ + device::comma_list(shown),
                            ),
                        ],
                        then,
                        step,
                    )
                }
            },
            (ScreenPhase::Connecting, Reply::Device(found)) => {
                &&& then == ScreenAttempt { phase: ScreenPhase::Over, ..self }
                &&& step.gives(seq![], Reply::MaybeDevice(Some(found)))
            },
            (ScreenPhase::Connecting, Reply::Failed(failure)) => self.tries_from(
                self.endpoint_at + 1,
                seq![
                    Notice::Warning(
                        "Screen endpoint "@ + self.endpoints@[self.endpoint_at as int]@
                            + " failed: "@ + failure.message@,
                    ),
                ],
                then,
                step,
            ),
            _ => false,
        }
    }

    /// Reads the screen of the device at `at`, if there is one.
    fn read_from(&mut self, at: usize, script: Script) -> (step: Step)
        requires
            at <= old(self).devices@.len(),
        ensures
            final(self).wf(),
            old(self).reads_from(at as int, script@, *final(self), step),
    {
        self.device_at = at;
        if at < self.devices.len() {
            self.phase = ScreenPhase::Reading;
            script.status(
                three(
                    "Reading UI hierarchy from ",
                    self.devices[at].display_name.as_str(),
                    "...",
                ).as_str(),
            ).ask(Request::DumpUiHierarchy(self.devices[at].serial.clone()))
        } else {
            self.phase = ScreenPhase::Over;
            script.give(Reply::MaybeDevice(None))
        }
    }

    /// Tries the endpoints from `from` on.
    fn try_from(&mut self, from: usize, script: Script) -> (step: Step)
        requires
            from <= old(self).endpoints@.len(),
            old(self).device_at < old(self).devices@.len(),
        ensures
            final(self).wf(),
            old(self).tries_from(from as int, script@, *final(self), step),
    {
        let ghost before = *self;
        let mut at: usize = from;
        while at < self.endpoints.len() && has_text(&self.seen, &self.endpoints[at])
            invariant
                *self == before,
                from <= at <= self.endpoints@.len(),
                next_unseen(self.endpoints@, self.seen, from as int) == next_unseen(
                    self.endpoints@,
                    self.seen,
                    at as int,
                ),
            decreases self.endpoints@.len() - at,
        {
            at = at + 1;
        }
        self.endpoint_at = at;
        if at < self.endpoints.len() {
            self.phase = ScreenPhase::Connecting;
            let endpoint = self.endpoints[at].clone();
            add_text(&mut self.seen, endpoint.clone());
            script.ask(
                Request::ConnectToEndpoint {
                    endpoint,
                    baseline: copy_texts(&self.baseline),
                    timeout: verify_timeout(self.timeout),
                },
            )
        } else {
            assert(self.device_at < self.devices.len());
            self.read_from(self.device_at + 1, script)
        }
    }
}

/// Goes on with the search of the screens of the connected devices.
pub fn try_ui_hierarchy_connect(attempt: &mut ScreenAttempt, reply: Reply) -> (step: Step)
    requires
        old(attempt).wf(),
        old(attempt).expects(reply),
    ensures
        final(attempt).wf(),
        old(attempt).leads_to(reply, *final(attempt), step),
{
    match (attempt.phase, reply) {
        (ScreenPhase::Listing, reply) => {
            attempt.devices = only_ready_devices(reply.into_devices());
            if attempt.devices.len() == 0 {
                attempt.phase = ScreenPhase::Over;
                Script::new().status(
                    "No existing ADB transport is available for screen parsing.",
                ).give(Reply::MaybeDevice(None))
            } else {
                let script = Script::new().status(
                    "Trying to read the visible phone screen through ADB...",
                );
                attempt.read_from(0, script)
            }
        },
        (ScreenPhase::Reading, Reply::Failed(failure)) => {
            assert(attempt.device_at < attempt.devices.len());
            let unread = three(
                "Could not read UI hierarchy from ",
                attempt.devices[attempt.device_at].display_name.as_str(),
                ": ",
            );
            let script = Script::new().warning(
                two(unread.as_str(), failure.message.as_str()).as_str(),
            );
            attempt.read_from(attempt.device_at + 1, script)
        },
        (ScreenPhase::Reading, Reply::Text(hierarchy)) => {
            assert(attempt.device_at < attempt.devices.len());
            let endpoints = extract_ipv4_endpoints(hierarchy.as_str());
            let none = endpoints.len() == 0;
            let list = join_with_commas(&endpoints);
            attempt.endpoints = endpoints;
            if none {
                let script = Script::new().status(
                    three(
                        "No IP:port text found on ",
                        attempt.devices[attempt.device_at].display_name.as_str(),
                        ".",
                    ).as_str(),
                );
                attempt.read_from(attempt.device_at + 1, script)
            } else {
                let script = Script::new().status(
                    two("Screen endpoint candidate(s): ", list.as_str()).as_str(),
                );
                attempt.try_from(0, script)
            }
        },
        (ScreenPhase::Connecting, Reply::Device(found)) => {
            attempt.phase = ScreenPhase::Over;
            Script::new().give(Reply::MaybeDevice(Some(found)))
        },
        (ScreenPhase::Connecting, Reply::Failed(failure)) => {
            assert(attempt.endpoint_at < attempt.endpoints.len());
            let tried = three(
                "Screen endpoint ",
                attempt.endpoints[attempt.endpoint_at].as_str(),
                " failed: ",
            );
            let script = Script::new().warning(
                two(tried.as_str(), failure.message.as_str()).as_str(),
            );
            attempt.try_from(attempt.endpoint_at + 1, script)
        },
        _ => unreached(),
    }
}

/// The endpoint that a step has connected to, if it does so.
pub open spec fn connects_to(step: Step) -> Option<Seq<char>> {
    match step.next {
        Next::Ask(Request::ConnectToEndpoint { endpoint, .. }) => Some(endpoint@),
        _ => None,
    }
}

/// A position that `next_position` finds is not before `from`, and its endpoint is not left
/// out.
pub proof fn lemma_next_position(endpoints: Seq<String>, skipped: Option<String>, from: int)
    requires
        0 <= from <= endpoints.len(),
    ensures
        from <= next_position(endpoints, skipped, from) <= endpoints.len(),
        next_position(endpoints, skipped, from) < endpoints.len() ==> !left_out(
            endpoints[next_position(endpoints, skipped, from)],
            skipped,
        ),
        forall|i: int|
            from <= i < next_position(endpoints, skipped, from) ==> left_out(
                #[trigger] endpoints[i],
                skipped,
            ),
    decreases endpoints.len() - from,
{
    if from < endpoints.len() && left_out(endpoints[from], skipped) {
        lemma_next_position(endpoints, skipped, from + 1);
    }
}

/// The endpoint that the bridge already tried is never tried again.
pub proof fn law_skipped_endpoint_is_not_tried(
    attempt: BonjourAttempt,
    reply: Reply,
    then: BonjourAttempt,
    step: Step,
)
    requires
        attempt.wf(),
        attempt.expects(reply),
        attempt.leads_to(reply, then, step),
    ensures
        match (connects_to(step), attempt.skipped) {
            (Some(endpoint), Some(skipped)) => endpoint != skipped@,
            _ => true,
        },
{
    if let Reply::Texts(endpoints) = reply {
        lemma_next_position(endpoints@, attempt.skipped, 0);
    } else if attempt.phase == BonjourPhase::Connecting {
        lemma_next_position(attempt.endpoints@, attempt.skipped, attempt.position + 1);
    }
}

/// The search gives up only after every endpoint was tried that is not to be left out: from
/// one attempt to the next, and from the last one to the end, nothing else is passed over.
pub proof fn law_bonjour_attempt_passes_nothing_over(
    attempt: BonjourAttempt,
    reply: Reply,
    then: BonjourAttempt,
    step: Step,
    i: int,
)
    requires
        attempt.wf(),
        attempt.expects(reply),
        attempt.leads_to(reply, then, step),
        !(reply is Device),
        0 <= i < then.endpoints@.len(),
        attempt.phase == BonjourPhase::Connecting ==> attempt.position < i,
        then.phase == BonjourPhase::Connecting ==> i < then.position,
    ensures
        left_out(then.endpoints@[i], attempt.skipped),
{
    if let Reply::Texts(endpoints) = reply {
        lemma_next_position(endpoints@, attempt.skipped, 0);
    } else if attempt.phase == BonjourPhase::Connecting {
        lemma_next_position(attempt.endpoints@, attempt.skipped, attempt.position + 1);
    }
}

/// A run of the search of screens: from state to state by replies that were expected, each
/// with the step that it led to.
pub open spec fn is_screen_run(
    states: Seq<ScreenAttempt>,
    replies: Seq<Reply>,
    steps: Seq<Step>,
) -> bool {
    &&& states.len() == replies.len() + 1
    &&& steps.len() == replies.len()
    &&& states[0].phase == ScreenPhase::Listing
    &&& states[0].seen@.len() == 0
    &&& states[0].endpoints@.len() == 0
    &&& forall|i: int|
        0 <= i < replies.len() ==> states[i].wf() && states[i].expects(replies[i])
            && states[i].leads_to(replies[i], states[i + 1], #[trigger] steps[i])
}

/// A position that `next_unseen` finds is not before `from`, and its endpoint was not tried.
pub proof fn lemma_next_unseen(endpoints: Seq<String>, seen: Vec<String>, from: int)
    requires
        0 <= from <= endpoints.len(),
    ensures
        from <= next_unseen(endpoints, seen, from) <= endpoints.len(),
        next_unseen(endpoints, seen, from) < endpoints.len() ==> !text::holds(
            seen,
            endpoints[next_unseen(endpoints, seen, from)]@,
        ),
        forall|i: int|
            from <= i < next_unseen(endpoints, seen, from) ==> text::holds(
                seen,
                (#[trigger] endpoints[i])@,
            ),
    decreases endpoints.len() - from,
{
    if from < endpoints.len() && text::holds(seen, endpoints[from]@) {
        lemma_next_unseen(endpoints, seen, from + 1);
    }
}

/// What one reply does to the endpoints that were tried: the one that is tried next was not
/// tried before, and is from then on.
proof fn lemma_screen_step(attempt: ScreenAttempt, reply: Reply, then: ScreenAttempt, step: Step)
    requires
        attempt.wf(),
        attempt.expects(reply),
        attempt.leads_to(reply, then, step),
    ensures
        forall|text: Seq<char>| #[trigger]
            text::holds(attempt.seen, text) ==> text::holds(then.seen, text),
        match connects_to(step) {
            Some(endpoint) => {
                &&& !text::holds(attempt.seen, endpoint)
                &&& text::holds(then.seen, endpoint)
                &&& then.endpoints.deep_view().contains(endpoint)
            },
            None => true,
        },
        match reply {
            Reply::Text(hierarchy) => then.endpoints.deep_view() == endpoint::ipv4_endpoints(
                hierarchy@,
            ),
            _ => then.endpoints == attempt.endpoints,
        },
{
    let endpoints = then.endpoints@;
    let from = if reply is Text {
        0
    } else {
        attempt.endpoint_at + 1
    };
    let tries = attempt.phase == ScreenPhase::Connecting && reply is Failed || (reply is Text
        && endpoint::ipv4_endpoints(reply->Text_0@).len() > 0);
    if tries {
        assert(endpoints.len() == then.endpoints.deep_view().len());
        lemma_next_unseen(endpoints, attempt.seen, from);
        let at = next_unseen(endpoints, attempt.seen, from);
        if at < endpoints.len() {
            let before = attempt.seen.deep_view();
            let after = then.seen.deep_view();
            assert(after == before.push(endpoints[at]@));
            assert(after[before.len() as int] == endpoints[at]@);
            assert forall|text: Seq<char>| #[trigger]
                text::holds(attempt.seen, text) implies text::holds(then.seen, text) by {
                let i = choose|i: int| 0 <= i < before.len() && before[i] == text;
                assert(after[i] == text);
            }
            assert(then.endpoints.deep_view()[at] == endpoints[at]@);
        }
    }
}

/// What was tried stays tried.
proof fn lemma_tried_endpoints_stay(
    states: Seq<ScreenAttempt>,
    replies: Seq<Reply>,
    steps: Seq<Step>,
    from: int,
    to: int,
    text: Seq<char>,
)
    requires
        is_screen_run(states, replies, steps),
        0 <= from <= to < states.len(),
        text::holds(states[from].seen, text),
    ensures
        text::holds(states[to].seen, text),
    decreases to - from,
{
    if from < to {
        lemma_tried_endpoints_stay(states, replies, steps, from, to - 1, text);
        assert(states[to - 1].leads_to(replies[to - 1], states[to], steps[to - 1]));
        lemma_screen_step(states[to - 1], replies[to - 1], states[to], steps[to - 1]);
    }
}

/// However many screens show it, no endpoint is tried twice.
pub proof fn law_screen_endpoints_are_tried_once(
    states: Seq<ScreenAttempt>,
    replies: Seq<Reply>,
    steps: Seq<Step>,
    i: int,
    j: int,
)
    requires
        is_screen_run(states, replies, steps),
        0 <= i < j < steps.len(),
        connects_to(steps[i]) is Some,
        connects_to(steps[j]) is Some,
    ensures
        connects_to(steps[i]) != connects_to(steps[j]),
{
    assert(states[i].leads_to(replies[i], states[i + 1], steps[i]));
    assert(states[j].leads_to(replies[j], states[j + 1], steps[j]));
    lemma_screen_step(states[i], replies[i], states[i + 1], steps[i]);
    lemma_screen_step(states[j], replies[j], states[j + 1], steps[j]);
    lemma_tried_endpoints_stay(states, replies, steps, i + 1, j, connects_to(steps[i])->0);
}

/// The search goes on to another screen, or gives up, only after every endpoint of this one
/// was tried: from one attempt to the next, and from the last one on, only endpoints are passed
/// over that were tried before.
pub proof fn law_screen_attempt_passes_nothing_over(
    attempt: ScreenAttempt,
    reply: Reply,
    then: ScreenAttempt,
    step: Step,
    i: int,
)
    requires
        attempt.wf(),
        attempt.expects(reply),
        attempt.leads_to(reply, then, step),
        reply is Text || (attempt.phase == ScreenPhase::Connecting && reply is Failed),
        0 <= i < then.endpoints@.len(),
        attempt.phase == ScreenPhase::Connecting ==> attempt.endpoint_at < i,
        then.phase == ScreenPhase::Connecting ==> i < then.endpoint_at,
    ensures
        text::holds(attempt.seen, then.endpoints@[i]@),
{
    assert(then.endpoints@.len() == then.endpoints.deep_view().len());
    if reply is Text {
        lemma_next_unseen(then.endpoints@, attempt.seen, 0);
    } else {
        lemma_next_unseen(attempt.endpoints@, attempt.seen, attempt.endpoint_at + 1);
    }
}

/// The endpoints of a state of a run are those of a screen that was read before.
proof fn lemma_endpoints_come_from_a_screen(
    states: Seq<ScreenAttempt>,
    replies: Seq<Reply>,
    steps: Seq<Step>,
    at: int,
)
    requires
        is_screen_run(states, replies, steps),
        0 <= at < states.len(),
        states[at].endpoints.deep_view().len() > 0,
    ensures
        exists|k: int|
            0 <= k < at && (#[trigger] replies[k]) is Text && states[at].endpoints.deep_view()
                == endpoint::ipv4_endpoints(replies[k]->Text_0@),
    decreases at,
{
    if at > 0 {
        assert(states[at - 1].leads_to(replies[at - 1], states[at], steps[at - 1]));
        lemma_screen_step(states[at - 1], replies[at - 1], states[at], steps[at - 1]);
        if !(replies[at - 1] is Text) {
            lemma_endpoints_come_from_a_screen(states, replies, steps, at - 1);
        }
    }
}

/// Only endpoints that are shown on a screen, in full, are tried.
pub proof fn law_only_endpoints_on_a_screen_are_tried(
    states: Seq<ScreenAttempt>,
    replies: Seq<Reply>,
    steps: Seq<Step>,
    i: int,
)
    requires
        is_screen_run(states, replies, steps),
        0 <= i < steps.len(),
        connects_to(steps[i]) is Some,
    ensures
        endpoint::ipv4_endpoint(connects_to(steps[i])->0),
        exists|k: int|
            0 <= k <= i && (#[trigger] replies[k]) is Text && endpoint::ipv4_endpoints(
                replies[k]->Text_0@,
            ).contains(connects_to(steps[i])->0),
{
    assert(states[i].leads_to(replies[i], states[i + 1], steps[i]));
    lemma_screen_step(states[i], replies[i], states[i + 1], steps[i]);
    lemma_endpoints_come_from_a_screen(states, replies, steps, i + 1);
    let k = choose|k: int|
        0 <= k < i + 1 && (#[trigger] replies[k]) is Text && states[i + 1].endpoints.deep_view()
            == endpoint::ipv4_endpoints(replies[k]->Text_0@);
    endpoint::law_found_endpoints_are_strict_and_distinct(replies[k]->Text_0@);
}

/// What Bonjour finds is what is tried, each with what was there before and no more patience
/// than is due; the endpoint of an attempt is the one at its position among those found.
pub proof fn law_bonjour_attempt_tries_what_was_found(
    attempt: BonjourAttempt,
    reply: Reply,
    then: BonjourAttempt,
    step: Step,
)
    requires
        attempt.wf(),
        attempt.expects(reply),
        attempt.leads_to(reply, then, step),
    ensures
        then.skipped == attempt.skipped,
        then.baseline == attempt.baseline,
        then.timeout == attempt.timeout,
        match reply {
            Reply::Texts(found) => then.endpoints@ == if found@.len() == 0 {
                attempt.endpoints@
            } else {
                found@
            },
            _ => then.endpoints == attempt.endpoints,
        },
        then.phase == BonjourPhase::Connecting ==> match step.next {
            Next::Ask(Request::ConnectToEndpoint { endpoint, baseline, timeout }) => {
                &&& then.position < then.endpoints@.len()
                &&& endpoint@ == then.endpoints@[then.position as int]@
                &&& attempt.phase == BonjourPhase::Connecting ==> attempt.position < then.position
                &&& baseline@ == attempt.baseline@
                &&& SECOND <= timeout <= 8 * SECOND
                &&& SECOND <= attempt.timeout <= 8 * SECOND ==> timeout == attempt.timeout
                &&& attempt.timeout > 8 * SECOND ==> timeout == 8 * SECOND
                &&& attempt.timeout < SECOND ==> timeout == SECOND
            },
            _ => false,
        },
        step.next is Ask <==> then.phase == BonjourPhase::Connecting,
{
    if let Reply::Texts(endpoints) = reply {
        lemma_next_position(endpoints@, attempt.skipped, 0);
    } else if attempt.phase == BonjourPhase::Connecting {
        lemma_next_position(attempt.endpoints@, attempt.skipped, attempt.position + 1);
    }
}

/// A device that was connected to is what the search by Bonjour ends with, and nothing else; an
/// attempt that failed is reported with its endpoint and the reason.
pub proof fn law_bonjour_attempt_ends_with_what_was_connected(
    attempt: BonjourAttempt,
    reply: Reply,
    then: BonjourAttempt,
    step: Step,
)
    requires
        attempt.wf(),
        attempt.expects(reply),
        attempt.leads_to(reply, then, step),
    ensures
        match step.next {
            Next::Give(Reply::MaybeDevice(Some(found))) => reply == Reply::Device(found),
            Next::Give(result) => result == Reply::MaybeDevice(None) && !(reply is Device),
            Next::Ask(_) => !(reply is Device),
        },
        match reply {
            Reply::Failed(failure) => step.script@.len() > 0 && step.script@[0] == if attempt.phase
                == BonjourPhase::Discovering {
                Notice::Warning("Bonjour connect lookup failed: "@ + failure.message@)
            } else {
                Notice::Warning(
                    "Bonjour endpoint "@ + attempt.endpoints@[attempt.position as int]@
                        + " failed: "@ + failure.message@,
                )
            },
            Reply::Texts(found) => found@.len() > 0 ==> step.script@.len() > 0
                && step.script@[0] == Notice::Status(
                "Bonjour endpoint candidate(s): "@ + device::comma_list(found.deep_view()),
            ),
            _ => true,
        },
{
}

/// Each endpoint that is left out is named, and it is the one that was tried before.
pub proof fn law_left_out_endpoints_are_named(
    attempt: BonjourAttempt,
    reply: Reply,
    then: BonjourAttempt,
    step: Step,
    k: int,
)
    requires
        attempt.wf(),
        attempt.expects(reply),
        attempt.leads_to(reply, then, step),
        1 <= k < step.script@.len(),
    ensures
        attempt.skipped is Some,
        step.script@[k] == Notice::Status(
            "Skipping "@ + attempt.skipped->0@ + "; ADB already tried it."@,
        ),
{
    if let Reply::Texts(endpoints) = reply {
        lemma_next_position(endpoints@, attempt.skipped, 0);
        assert(left_out(endpoints@[k - 1], attempt.skipped));
    } else if attempt.phase == BonjourPhase::Connecting {
        lemma_next_position(attempt.endpoints@, attempt.skipped, attempt.position + 1);
        assert(left_out(attempt.endpoints@[attempt.position + k], attempt.skipped));
    }
}

/// The device whose screen a step has read, by its serial.
pub open spec fn reads_screen(step: Step) -> Option<Seq<char>> {
    match step.next {
        Next::Ask(Request::DumpUiHierarchy(serial)) => Some(serial@),
        _ => None,
    }
}

/// The serials that some steps read, in their order.
pub open spec fn screens_read(steps: Seq<Step>) -> Seq<Seq<char>>
    decreases steps.len(),
{
    if steps.len() == 0 {
        seq![]
    } else {
        match reads_screen(steps.last()) {
            Some(serial) => screens_read(steps.drop_last()).push(serial),
            None => screens_read(steps.drop_last()),
        }
    }
}

/// The serials of some devices.
pub open spec fn serials(devices: Seq<AdbDevice>) -> Seq<Seq<char>> {
    devices.map_values(|device: AdbDevice| device.serial@)
}

/// A screen that is read is that of the device that the user is told about, and it is the next
/// one in the list of the devices that are ready.
pub proof fn law_screen_attempt_reads_the_device_it_names(
    attempt: ScreenAttempt,
    reply: Reply,
    then: ScreenAttempt,
    step: Step,
)
    requires
        attempt.wf(),
        attempt.expects(reply),
        attempt.leads_to(reply, then, step),
    ensures
        then.baseline == attempt.baseline,
        then.timeout == attempt.timeout,
        then.phase == ScreenPhase::Reading <==> reads_screen(step) is Some,
        match reads_screen(step) {
            Some(serial) => {
                let at = then.device_at as int;
                &&& at < then.devices@.len()
                &&& serial == then.devices@[at].serial@
                &&& step.script@.len() > 0
                &&& step.script@.last() == Notice::Status(
                    "Reading UI hierarchy from "@ + then.devices@[at].display_name@ + "..."@,
                )
                &&& at == if attempt.phase == ScreenPhase::Listing {
                    0
                } else {
                    attempt.device_at + 1
                }
            },
            None => true,
        },
        attempt.phase == ScreenPhase::Listing ==> match reply {
            Reply::Devices(listed) => then.devices@ == device::ready_devices(listed@),
            _ => then.devices@.len() == 0,
        },
        attempt.phase != ScreenPhase::Listing ==> then.devices == attempt.devices,
        step.next is Give && !(reply is Device) && attempt.phase != ScreenPhase::Listing
            ==> attempt.device_at + 1 == attempt.devices@.len(),
{
    reveal(Seq::filter);
    assert(then.endpoints@.len() == then.endpoints.deep_view().len());
}

/// The number of screens that were read by a point of a run.
proof fn lemma_screens_read(
    states: Seq<ScreenAttempt>,
    replies: Seq<Reply>,
    steps: Seq<Step>,
    to: int,
)
    requires
        is_screen_run(states, replies, steps),
        1 <= to <= steps.len(),
    ensures
        states[to].devices == states[1].devices,
        match states[to].phase {
            ScreenPhase::Reading | ScreenPhase::Connecting => {
                &&& states[to].device_at < states[1].devices@.len()
                &&& screens_read(steps.take(to)) == serials(states[1].devices@).take(
                    states[to].device_at + 1,
                )
            },
            _ => screens_read(steps.take(to)).is_prefix_of(serials(states[1].devices@)),
        },
        states[to].phase != ScreenPhase::Listing,
        steps[to - 1].next is Give <==> states[to].phase == ScreenPhase::Over,
        steps[to - 1].next == Next::Give(Reply::MaybeDevice(None)) ==> screens_read(steps.take(to))
            == serials(states[1].devices@),
    decreases to,
{
    let i = to - 1;
    let all = serials(states[1].devices@);
    assert(steps[i] == steps[to - 1]);
    assert(states[i].leads_to(replies[i], states[i + 1], steps[i]));
    assert(steps.take(to).drop_last() =~= steps.take(i));
    assert(steps.take(to).last() == steps[i]);
    law_screen_attempt_reads_the_device_it_names(states[i], replies[i], states[to], steps[i]);
    if i == 0 {
        assert(steps.take(0) =~= seq![]);
        assert(screens_read(steps.take(0)) =~= seq![]);
        if states[1].devices@.len() > 0 {
            assert(screens_read(steps.take(1)) =~= all.take(1));
        } else {
            assert(all =~= seq![]);
        }
    } else {
        lemma_screens_read(states, replies, steps, i);
        let at = states[i].device_at as int;
        if reads_screen(steps[i]) is Some {
            assert(screens_read(steps.take(to)) =~= all.take(at + 2));
        } else {
            assert(screens_read(steps.take(to)) == all.take(at + 1));
            if at + 1 == all.len() {
                assert(all.take(at + 1) =~= all);
            }
        }
    }
}

/// Over a run, the screens that are read are those of the ready devices of the list, in its
/// order and each once; and all of them, if the search ends without a device.
pub proof fn law_screens_are_read_in_the_order_of_the_list(
    states: Seq<ScreenAttempt>,
    replies: Seq<Reply>,
    steps: Seq<Step>,
)
    requires
        is_screen_run(states, replies, steps),
        steps.len() > 0,
        replies[0] is Devices,
    ensures
        screens_read(steps).is_prefix_of(
            serials(device::ready_devices(replies[0]->Devices_0@)),
        ),
        steps.last().next == Next::Give(Reply::MaybeDevice(None)) ==> screens_read(steps)
            == serials(device::ready_devices(replies[0]->Devices_0@)),
{
    let n = steps.len() as int;
    lemma_screens_read(states, replies, steps, n);
    assert(steps.take(n) =~= steps);
    assert(states[0].leads_to(replies[0], states[1], steps[0]));
    law_screen_attempt_reads_the_device_it_names(states[0], replies[0], states[1], steps[0]);
}

/// A screen that was read is searched for endpoints at once, from the first on, and what is tried
/// is tried with what was there before and no more patience than is due.
pub proof fn law_screen_attempt_tries_what_is_shown(
    attempt: ScreenAttempt,
    reply: Reply,
    then: ScreenAttempt,
    step: Step,
)
    requires
        attempt.wf(),
        attempt.expects(reply),
        attempt.leads_to(reply, then, step),
    ensures
        match reply {
            Reply::Text(hierarchy) => {
                &&& then.endpoints.deep_view() == endpoint::ipv4_endpoints(hierarchy@)
                &&& endpoint::ipv4_endpoints(hierarchy@).len() > 0 ==> step.script@[0]
                    == Notice::Status(
                    "Screen endpoint candidate(s): "@ + device::comma_list(
                        endpoint::ipv4_endpoints(hierarchy@),
                    ),
                )
                &&& endpoint::ipv4_endpoints(hierarchy@).len() == 0 ==> step.script@[0]
                    == Notice::Status(
                    "No IP:port text found on "@
                        + attempt.devices@[attempt.device_at as int].display_name@ + "."@,
                )
            },
            _ => then.endpoints == attempt.endpoints,
        },
        match step.next {
            Next::Ask(Request::ConnectToEndpoint { endpoint, baseline, timeout }) => {
                &&& then.endpoint_at < then.endpoints@.len()
                &&& endpoint@ == then.endpoints@[then.endpoint_at as int]@
                &&& baseline@ == attempt.baseline@
                &&& SECOND <= timeout <= 8 * SECOND
                &&& SECOND <= attempt.timeout <= 8 * SECOND ==> timeout == attempt.timeout
                &&& attempt.timeout > 8 * SECOND ==> timeout == 8 * SECOND
                &&& attempt.timeout < SECOND ==> timeout == SECOND
            },
            _ => true,
        },
{
    assert(then.endpoints@.len() == then.endpoints.deep_view().len());
    if reply is Text {
        lemma_next_unseen(then.endpoints@, attempt.seen, 0);
    } else if attempt.phase == ScreenPhase::Connecting {
        lemma_next_unseen(attempt.endpoints@, attempt.seen, attempt.endpoint_at + 1);
    }
}

/// A device that was connected to is what the search of the screens ends with, and nothing else;
/// whatever failed is reported by its name and with the reason.
pub proof fn law_screen_attempt_ends_with_what_was_connected(
    attempt: ScreenAttempt,
    reply: Reply,
    then: ScreenAttempt,
    step: Step,
)
    requires
        attempt.wf(),
        attempt.expects(reply),
        attempt.leads_to(reply, then, step),
    ensures
        match step.next {
            Next::Give(Reply::MaybeDevice(Some(found))) => reply == Reply::Device(found),
            Next::Give(result) => result == Reply::MaybeDevice(None) && !(reply is Device),
            Next::Ask(request) => !(reply is Device) && (request is DumpUiHierarchy
                || request is ConnectToEndpoint),
        },
        match (attempt.phase, reply) {
            (ScreenPhase::Reading, Reply::Failed(failure)) => step.script@[0] == Notice::Warning(
                "Could not read UI hierarchy from "@
                    + attempt.devices@[attempt.device_at as int].display_name@ + ": "@
                    + failure.message@,
            ),
            (ScreenPhase::Connecting, Reply::Failed(failure)) => step.script@[0]
                == Notice::Warning(
                "Screen endpoint "@ + attempt.endpoints@[attempt.endpoint_at as int]@
                    + " failed: "@ + failure.message@,
            ),
            _ => true,
        },
{
}

/// Every endpoint that is passed over on the way to the next one is told, and nothing else after
/// the first line.
pub proof fn law_every_left_out_endpoint_is_told(
    attempt: BonjourAttempt,
    reply: Reply,
    then: BonjourAttempt,
    step: Step,
)
    requires
        attempt.wf(),
        attempt.expects(reply),
        attempt.leads_to(reply, then, step),
    ensures
        match (attempt.phase, reply) {
            (BonjourPhase::Discovering, Reply::Texts(found)) => if found@.len() > 0 {
                step.script@.len() == 1 + then.position
            } else {
                step.script@ == seq![
                    Notice::Status("No Bonjour connect endpoints found outside ADB."@),
                ]
            },
            (BonjourPhase::Connecting, Reply::Failed(_)) => step.script@.len() == then.position
                - attempt.position,
            (BonjourPhase::Discovering, _) => step.script@.len() == 1,
            _ => step.script@.len() == 0,
        },
{
    if let Reply::Texts(endpoints) = reply {
        lemma_next_position(endpoints@, attempt.skipped, 0);
    } else if attempt.phase == BonjourPhase::Connecting {
        lemma_next_position(attempt.endpoints@, attempt.skipped, attempt.position + 1);
    }
}

/// Whether there is a screen to read is told at once.
pub proof fn law_screen_attempt_tells_whether_it_can_read(
    attempt: ScreenAttempt,
    reply: Reply,
    then: ScreenAttempt,
    step: Step,
)
    requires
        attempt.wf(),
        attempt.phase == ScreenPhase::Listing,
        attempt.expects(reply),
        attempt.leads_to(reply, then, step),
    ensures
        match step.next {
            Next::Give(_) => {
                &&& step.script@ == seq![
                    Notice::Status(
                        "No existing ADB transport is available for screen parsing."@,
                    ),
                ]
                &&& match reply {
                    Reply::Devices(listed) => forall|i: int|
                        0 <= i < listed@.len() ==> (#[trigger] listed@[i]).state
                            != device::DeviceState::Device,
                    _ => true,
                }
            },
            Next::Ask(_) => {
                &&& step.script@.len() == 2
                &&& step.script@[0] == Notice::Status(
                    "Trying to read the visible phone screen through ADB..."@,
                )
                &&& match reply {
                    Reply::Devices(listed) => exists|i: int|
                        0 <= i < listed@.len() && (#[trigger] listed@[i]).state
                            == device::DeviceState::Device,
                    _ => false,
                }
            },
        },
{
    reveal(Seq::filter);
    if let Reply::Devices(listed) = reply {
        lemma_some_device_is_ready(listed@);
    }
}

/// There are ready devices exactly if one of the list is ready.
proof fn lemma_some_device_is_ready(devices: Seq<AdbDevice>)
    ensures
        device::ready_devices(devices).len() > 0 <==> exists|i: int|
            0 <= i < devices.len() && (#[trigger] devices[i]).state == device::DeviceState::Device,
    decreases devices.len(),
{
    device::law_one_more_device(seq![], devices[0]);
    if devices.len() == 0 {
        assert(devices =~= seq![]);
    } else {
        let front = devices.drop_last();
        let last = devices.last();
        lemma_some_device_is_ready(front);
        device::law_one_more_device(front, last);
        assert(front.push(last) =~= devices);
        assert(forall|i: int| 0 <= i < front.len() ==> #[trigger] front[i] == devices[i]);
        if last.state == device::DeviceState::Device {
            assert(devices[devices.len() - 1].state == device::DeviceState::Device);
        } else if device::ready_devices(front).len() > 0 {
            let i = choose|i: int|
                0 <= i < front.len() && (#[trigger] front[i]).state == device::DeviceState::Device;
            assert(devices[i].state == device::DeviceState::Device);
        } else {
            assert forall|i: int| 0 <= i < devices.len() implies (#[trigger] devices[i]).state
                != device::DeviceState::Device by {
                if i < front.len() {
                    assert(front[i].state != device::DeviceState::Device);
                }
            }
        }
    }
}

} // verus!
