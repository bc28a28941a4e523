//! The command dispatcher and the session it keeps: the remote endpoint and
//! the registered mission.
use crate::json::{
    json_kind, json_kind_of, now_rfc3339, object_field, read_object_field, text_with_field,
    with_text_field, IdField, IdFieldView, JsonKind,
};
use crate::queue::{queued, same_queue, EventQueue, QueueItem};
use crate::text::{decimal, decimal_text, i64_of_text, parse_decimal, same_text};
use vstd::prelude::*;
use vstd::string::StringExecFns;

verus! {

/// The commands the dispatcher knows.
#[derive(Clone, Copy, PartialEq, Eq, Structural, Debug)]
pub enum Command {
    /// Sets the remote endpoint.
    Setup,
    /// Hands its data back, to test the connection.
    Echo,
    /// Registers a mission with the backend.
    Mission,
    /// Queues a telemetry event.
    Event,
    /// Raises a fault on purpose, to exercise the caller's fault boundary.
    Fault,
    /// Any other name: the command is ignored.
    Unknown,
}

/// The command a name selects.
pub open spec fn command_of(name: Seq<char>) -> Command {
    if name == "setup"@ {
        Command::Setup
    } else if name == "echo"@ {
        Command::Echo
    } else if name == "mission"@ {
        Command::Mission
    } else if name == "event"@ {
        Command::Event
    } else if name == "panic"@ {
        Command::Fault
    } else {
        Command::Unknown
    }
}

/// Looks a command name up in the table of commands.
pub fn command(name: &str) -> (r: Command)
    ensures
        r == command_of(name@),
{
    if same_text(name, "setup") {
        Command::Setup
    } else if same_text(name, "echo") {
        Command::Echo
    } else if same_text(name, "mission") {
        Command::Mission
    } else if same_text(name, "event") {
        Command::Event
    } else if same_text(name, "panic") {
        Command::Fault
    } else {
        Command::Unknown
    }
}

/// The session: the endpoint, once set, and the current mission id.
pub struct SessionView {
    pub endpoint: Option<Seq<char>>,
    pub mission_id: i64,
}

impl SessionView {
    /// The session with its endpoint replaced.
    pub open spec fn with_endpoint(self, url: Seq<char>) -> SessionView {
        SessionView { endpoint: Some(url), mission_id: self.mission_id }
    }

    /// The session with its mission id replaced.
    pub open spec fn with_mission(self, id: i64) -> SessionView {
        SessionView { endpoint: self.endpoint, mission_id: id }
    }
}

/// Where missions are registered.
pub open spec fn missions_url(endpoint: Seq<char>) -> Seq<char> {
    endpoint + "/missions"@
}

/// Where the events of a mission are posted.
pub open spec fn events_url(endpoint: Seq<char>, mission_id: i64) -> Seq<char> {
    endpoint + "/missions/"@ + decimal_text(mission_id as int) + "/events"@
}

/// The mission id that a registration reply's `id` field gives: an integer,
/// or a string that writes one.
pub open spec fn mission_id_of(id: IdFieldView) -> Option<i64> {
    match id {
        IdFieldView::Integer(n) => Some(n),
        IdFieldView::Text(s) => i64_of_text(s),
        IdFieldView::Unusable => None,
    }
}

/// The text of an optional string.
pub open spec fn text_view(o: Option<String>) -> Option<Seq<char>> {
    match o {
        Some(s) => Some(s@),
        None => None,
    }
}

/// A registration to post: the mission description, sent to the backend.
#[derive(Debug, PartialEq, Eq)]
pub struct MissionRequest {
    pub url: String,
    pub body: String,
}

/// What a call asks of its caller.
#[derive(Debug, PartialEq, Eq)]
pub enum Step {
    /// Hand this result (or none) back to the host.
    Reply(Option<String>),
    /// Post the registration, then hand the reply to `Organizer::finish_mission`.
    Register(MissionRequest),
    /// Raise the diagnostic fault.
    Fault,
}

/// A step as the contracts see it.
pub enum StepView {
    Reply(Option<Seq<char>>),
    Register(Seq<char>, Seq<char>),
    Fault,
}

impl View for Step {
    type V = StepView;

    open spec fn view(&self) -> StepView {
        match self {
            Step::Reply(o) => StepView::Reply(text_view(*o)),
            Step::Register(req) => StepView::Register(req.url@, req.body@),
            Step::Fault => StepView::Fault,
        }
    }
}

/// Whether an event is accepted: it is a JSON object, an endpoint is set, and
/// the queue still takes items.
pub open spec fn event_accepted(s: SessionView, data: Seq<char>, q: &EventQueue) -> bool {
    &&& json_kind(data) == JsonKind::Object
    &&& s.endpoint is Some
    &&& q.is_open()
}

/// The payload of an event stamped at `time`: the event's object with
/// `timestamp` set to that time, written out again.
pub open spec fn stamped_event(data: Seq<char>, time: Seq<char>) -> Seq<char> {
    text_with_field(data, "timestamp"@, time)
}

/// The queue after an event stamped at `time`: when the event is accepted,
/// one item more, bound for the mission's events and carrying the stamped
/// event; the same queue otherwise.
pub open spec fn event_queued(
    s: SessionView,
    data: Seq<char>,
    time: Seq<char>,
    before: &EventQueue,
    after: &EventQueue,
) -> bool {
    if event_accepted(s, data, before) {
        queued(
            before,
            after,
            (events_url(s.endpoint.unwrap(), s.mission_id), stamped_event(data, time)),
        )
    } else {
        same_queue(before, after)
    }
}

/// The status text an event call answers with.
pub open spec fn event_status(accepted: bool) -> Seq<char> {
    if accepted {
        "OK"@
    } else {
        "ERROR"@
    }
}

/// What one call does: its answer, the session after it and the queue after
/// it, given the session and the queue before it.
pub open spec fn call_done(
    before: SessionView,
    name: Seq<char>,
    data: Seq<char>,
    q0: &EventQueue,
    r: StepView,
    after: SessionView,
    q1: &EventQueue,
) -> bool {
    match command_of(name) {
        Command::Setup => {
            &&& r == StepView::Reply(None)
            &&& after == before.with_endpoint(data)
            &&& same_queue(q0, q1)
        },
        Command::Echo => {
            &&& r == StepView::Reply(Some(data))
            &&& after == before
            &&& same_queue(q0, q1)
        },
        Command::Mission => {
            &&& after == before
            &&& same_queue(q0, q1)
            &&& if json_kind(data) != JsonKind::Invalid && before.endpoint is Some {
                r == StepView::Register(missions_url(before.endpoint.unwrap()), data)
            } else {
                r == StepView::Reply(Some("-1"@))
            }
        },
        Command::Event => {
            &&& r == StepView::Reply(
                Some(event_status(event_accepted(before, data, q0))),
            )
            &&& after == before
            &&& exists|time: Seq<char>| event_queued(before, data, time, q0, q1)
        },
        Command::Fault => {
            &&& r == StepView::Fault
            &&& after == before
            &&& same_queue(q0, q1)
        },
        Command::Unknown => {
            &&& r == StepView::Reply(None)
            &&& after == before
            &&& same_queue(q0, q1)
        },
    }
}

/// The dispatcher and the session it owns.
pub struct Organizer {
    hostname: Option<String>,
    mission_id: i64,
}

impl View for Organizer {
    type V = SessionView;

    closed spec fn view(&self) -> SessionView {
        SessionView { endpoint: text_view(self.hostname), mission_id: self.mission_id }
    }
}

impl Organizer {
    /// A session with no endpoint and mission id 0.
    pub fn new() -> (r: Organizer)
        ensures
            r@ == (SessionView { endpoint: None, mission_id: 0 }),
    {
        Organizer { hostname: None, mission_id: 0 }
    }

    /// The endpoint, if one is set.
    pub fn endpoint(&self) -> (r: Option<String>)
        ensures
            text_view(r) == self@.endpoint,
    {
        match &self.hostname {
            Some(h) => Some(h.clone()),
            None => None,
        }
    }

    /// The current mission id.
    pub fn mission_id(&self) -> (r: i64)
        ensures
            r == self@.mission_id,
    {
        self.mission_id
    }

    /// Replaces the endpoint with `data`, whatever it holds.
    pub fn setup(&mut self, data: String)
        ensures
            final(self)@ == old(self)@.with_endpoint(data@),
    {
        self.hostname = Some(data);
    }

    /// Hands `data` back unchanged.
    pub fn echo(&self, data: String) -> (r: String)
        ensures
            r@ == data@,
    {
        data
    }

    /// The registration to post for a mission description: none when the
    /// description is not JSON or no endpoint is set.
    pub fn mission_request(&self, data: String) -> (r: Option<MissionRequest>)
        ensures
            r is Some <==> (json_kind(data@) != JsonKind::Invalid && self@.endpoint is Some),
            r is Some ==> r->Some_0.url@ == missions_url(self@.endpoint.unwrap()),
            r is Some ==> r->Some_0.body@ == data@,
    {
        match json_kind_of(data.as_str()) {
            JsonKind::Invalid => None,
            _ => match &self.hostname {
                Some(h) => {
                    let mut url = h.clone();
                    url.append("/missions");
                    Some(MissionRequest { url, body: data })
                },
                None => None,
            },
        }
    }

    /// Takes the `id` of a registration reply as the mission id: `"OK"` when
    /// it gives one, `"-1"` and no change otherwise.
    pub fn apply_mission_id(&mut self, id: IdField) -> (r: String)
        ensures
            mission_id_of(id@) is Some ==> r@ == "OK"@
                && final(self)@ == old(self)@.with_mission(mission_id_of(id@).unwrap()),
            mission_id_of(id@) is None ==> r@ == "-1"@ && final(self)@ == old(self)@,
    {
        let found = match &id {
            IdField::Integer(n) => Some(*n),
            IdField::Text(s) => parse_decimal(s.as_str()),
            IdField::Unusable => None,
        };
        match found {
            Some(n) => {
                self.mission_id = n;
                String::from_str("OK")
            },
            None => String::from_str("-1"),
        }
    }

    /// Finishes a registration with the backend's reply body (`None` when the
    /// post failed): `"OK"` when the body is a JSON object whose `id` gives a
    /// mission id, which becomes the current one; `"-1"` and no change
    /// otherwise.
    pub fn finish_mission(&mut self, reply: Option<String>) -> (r: String)
        ensures
            r@ == "OK"@ || r@ == "-1"@,
            r@ == "-1"@ ==> final(self)@ == old(self)@,
            r@ == "OK"@ ==> final(self)@.endpoint == old(self)@.endpoint,
            reply is None ==> r@ == "-1"@ && final(self)@ == old(self)@,
            reply is Some && json_kind(reply->Some_0@) != JsonKind::Object ==> r@ == "-1"@
                && final(self)@ == old(self)@,
            reply is Some && json_kind(reply->Some_0@) == JsonKind::Object ==> match mission_id_of(
                object_field(reply->Some_0@, "id"@),
            ) {
                Some(n) => r@ == "OK"@ && final(self)@ == old(self)@.with_mission(n),
                None => r@ == "-1"@ && final(self)@ == old(self)@,
            },
    {
        proof {
            reveal_strlit("OK");
            reveal_strlit("-1");
            assert("OK"@[0] != "-1"@[0]);
        }
        match reply {
            None => String::from_str("-1"),
            Some(body) => match read_object_field(body.as_str(), "id") {
                Some(id) => self.apply_mission_id(id),
                None => String::from_str("-1"),
            },
        }
    }

    /// Where this session's events go, once an endpoint is set.
    fn events_destination(&self, host: &String) -> (r: String)
        requires
            self@.endpoint == Some(host@),
        ensures
            r@ == events_url(host@, self@.mission_id),
    {
        let mut url = host.clone();
        url.append("/missions/");
        let id = decimal(self.mission_id);
        url.append(id.as_str());
        url.append("/events");
        url
    }

    /// Queues an event stamped at `time`: a JSON object, with `time` stored
    /// under `timestamp`, bound for the current mission's events. Answers
    /// `"OK"` when queued and `"ERROR"` otherwise.
    pub fn event_at(&self, data: String, time: String, queue: &mut EventQueue) -> (r: String)
        requires
            old(queue).wf(),
        ensures
            final(queue).wf(),
            r@ == event_status(event_accepted(self@, data@, old(queue))),
            event_queued(self@, data@, time@, old(queue), final(queue)),
    {
        let payload = match with_text_field(data.as_str(), String::from_str("timestamp"), time) {
            Some(payload) => payload,
            None => return String::from_str("ERROR"),
        };
        let destination = match &self.hostname {
            Some(h) => self.events_destination(h),
            None => return String::from_str("ERROR"),
        };
        if queue.push(QueueItem { destination, payload }) {
            String::from_str("OK")
        } else {
            String::from_str("ERROR")
        }
    }

    /// Queues an event stamped with the current time, as `event_at` does.
    pub fn event(&self, data: String, queue: &mut EventQueue) -> (r: String)
        requires
            old(queue).wf(),
        ensures
            final(queue).wf(),
            r@ == event_status(event_accepted(self@, data@, old(queue))),
            exists|time: Seq<char>| event_queued(self@, data@, time, old(queue), final(queue)),
    {
        self.event_at(data, now_rfc3339(), queue)
    }

    /// Runs one command. `setup`, `echo`, `event`, the ignored names and the
    /// early failures of `mission` are answered at once; a `mission` that
    /// passes its checks asks the caller to post the registration; `panic`
    /// asks the caller to raise the diagnostic fault.
    pub fn call(&mut self, function: &str, data: String, queue: &mut EventQueue) -> (r: Step)
        requires
            old(queue).wf(),
        ensures
            final(queue).wf(),
            call_done(old(self)@, function@, data@, old(queue), r@, final(self)@, final(queue)),
    {
        match command(function) {
            Command::Setup => {
                self.setup(data);
                Step::Reply(None)
            },
            Command::Echo => Step::Reply(Some(self.echo(data))),
            Command::Mission => match self.mission_request(data) {
                Some(request) => Step::Register(request),
                None => Step::Reply(Some(String::from_str("-1"))),
            },
            Command::Event => Step::Reply(Some(self.event(data, queue))),
            Command::Fault => Step::Fault,
            Command::Unknown => Step::Reply(None),
        }
    }
}

/// Setting the same endpoint twice leaves the session, the answer and the
/// queue as setting it once.
pub proof fn lemma_setup_idempotent(
    s0: SessionView,
    url: Seq<char>,
    q0: &EventQueue,
    r1: StepView,
    s1: SessionView,
    q1: &EventQueue,
    r2: StepView,
    s2: SessionView,
    q2: &EventQueue,
    once: StepView,
    s_once: SessionView,
    q_once: &EventQueue,
)
    requires
        call_done(s0, "setup"@, url, q0, r1, s1, q1),
        call_done(s1, "setup"@, url, q1, r2, s2, q2),
        call_done(s0, "setup"@, url, q0, once, s_once, q_once),
    ensures
        s2 == s_once,
        r2 == once,
        same_queue(q2, q_once),
{
    reveal_strlit("setup");
    assert(command_of("setup"@) == Command::Setup);
}

/// The diagnostic fault changes nothing: an `echo` after it answers with its
/// data, and leaves the session and the queue as they were before the fault.
pub proof fn lemma_fault_then_echo(
    s0: SessionView,
    fault_data: Seq<char>,
    q0: &EventQueue,
    r1: StepView,
    s1: SessionView,
    q1: &EventQueue,
    x: Seq<char>,
    r2: StepView,
    s2: SessionView,
    q2: &EventQueue,
)
    requires
        call_done(s0, "panic"@, fault_data, q0, r1, s1, q1),
        call_done(s1, "echo"@, x, q1, r2, s2, q2),
    ensures
        r1 == StepView::Fault,
        r2 == StepView::Reply(Some(x)),
        s2 == s0,
        same_queue(q0, q2),
{
    reveal_strlit("setup");
    reveal_strlit("echo");
    reveal_strlit("mission");
    reveal_strlit("event");
    reveal_strlit("panic");
    assert("setup"@.len() == 5 && "echo"@.len() == 4 && "mission"@.len() == 7);
    assert("event"@.len() == 5 && "panic"@.len() == 5);
    assert("panic"@[0] != "setup"@[0] && "panic"@[0] != "event"@[0]);
    assert(command_of("panic"@) == Command::Fault);
    assert(command_of("echo"@) == Command::Echo);
}

/// While the queue takes items, an event that is a JSON object is accepted
/// exactly when an endpoint is set; what later happens to its delivery plays
/// no part.
pub proof fn lemma_object_accepted_iff_endpoint(s: SessionView, data: Seq<char>, q: &EventQueue)
    requires
        json_kind(data) == JsonKind::Object,
        q.is_open(),
    ensures
        event_accepted(s, data, q) <==> s.endpoint is Some,
        event_status(event_accepted(s, data, q)) == "OK"@ <==> s.endpoint is Some,
{
    reveal_strlit("OK");
    reveal_strlit("ERROR");
    assert("OK"@.len() != "ERROR"@.len());
}

/// An event that is not JSON, or whose value is not an object, is answered
/// with `"ERROR"` and leaves the queue as it was.
pub proof fn lemma_non_object_rejected(
    s: SessionView,
    data: Seq<char>,
    time: Seq<char>,
    before: &EventQueue,
    after: &EventQueue,
)
    requires
        json_kind(data) != JsonKind::Object,
        event_queued(s, data, time, before, after),
    ensures
        event_status(event_accepted(s, data, before)) == "ERROR"@,
        same_queue(before, after),
        after.accepted().len() == before.accepted().len(),
{
}

/// Each event answered with `"OK"` adds exactly one item to what the queue
/// has accepted, bound for the current mission's events; any other answer
/// adds none.
pub proof fn lemma_one_item_per_ok(
    s: SessionView,
    data: Seq<char>,
    time: Seq<char>,
    before: &EventQueue,
    after: &EventQueue,
)
    requires
        event_queued(s, data, time, before, after),
    ensures
        event_status(event_accepted(s, data, before)) == "OK"@ ==> {
            &&& after.accepted().len() == before.accepted().len() + 1
            &&& after.accepted().last().0 == events_url(s.endpoint.unwrap(), s.mission_id)
        },
        event_status(event_accepted(s, data, before)) != "OK"@ ==> after.accepted()
            == before.accepted(),
{
    reveal_strlit("OK");
    reveal_strlit("ERROR");
    assert("OK"@.len() != "ERROR"@.len());
}

} // verus!
