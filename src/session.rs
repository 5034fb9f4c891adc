use vstd::prelude::*;
use vstd::string::StringExecFns;
use crate::error::LifecycleError;
use crate::image::{image_reference, select_image};
use crate::network::{endpoint_of, extract_endpoint, topology_for, topology_of, NetworkConfig, Topology};

verus! {

/// The port on which a function container serves, inside the container.
pub open spec fn function_port() -> Seq<char> {
    "8080"@
}

/// A function as the caller describes it; `archive` and `main_file` are carried, not read.
#[derive(Debug, Clone)]
pub struct FunctionSpec {
    pub name: String,
    pub image: String,
    pub archive: String,
    pub main_file: String,
}

/// A started container and the endpoint at which it is reached.
#[derive(Debug, Clone)]
pub struct ContainerDescriptor {
    pub name: String,
    pub host: String,
    pub port: String,
}

/// The engine step a request is waiting on, or `Finished` once its outcome is delivered.
#[derive(Debug, Clone, Copy, PartialEq, Eq, Structural)]
pub enum Stage {
    Pull,
    Create,
    Start,
    Inspect,
    FetchLogs,
    Kill,
    Remove,
    Finished,
}

/// A failed engine step: the HTTP status the engine answered with, if any, and its message.
#[derive(Debug, Clone)]
pub struct EngineFailure {
    pub status: Option<u16>,
    pub message: String,
}

/// The engine's answer to the step a request is waiting on.
#[derive(Debug, Clone)]
pub enum EngineEvent {
    Completed,
    Inspected(NetworkConfig),
    Logs(Vec<String>),
    Failed(EngineFailure),
}

/// The shape of an engine answer, as far as sequencing is concerned.
#[derive(Debug, Clone, Copy, PartialEq, Eq, Structural)]
pub enum EventKind {
    Completed,
    Inspected,
    Logs,
    AlreadyStopped,
    Failed,
}

/// The status with which the engine refuses to kill a container that is not running.
pub open spec fn not_running_status() -> u16 {
    409
}

impl EngineEvent {
    pub open spec fn kind(&self) -> EventKind {
        match self {
            EngineEvent::Completed => EventKind::Completed,
            EngineEvent::Inspected(_) => EventKind::Inspected,
            EngineEvent::Logs(_) => EventKind::Logs,
            EngineEvent::Failed(f) => if f.status == Some(not_running_status()) {
                EventKind::AlreadyStopped
            } else {
                EventKind::Failed
            },
        }
    }
}

/// The stage that follows `s` when the engine answers with `k`. Steps run strictly in order;
/// any failure finishes the request, except a kill refused because the container is not
/// running, after which removal is still attempted.
pub open spec fn transition(s: Stage, k: EventKind) -> Stage {
    match s {
        Stage::Pull => if k == EventKind::Completed {
            Stage::Create
        } else {
            Stage::Finished
        },
        Stage::Create => if k == EventKind::Completed {
            Stage::Start
        } else {
            Stage::Finished
        },
        Stage::Start => if k == EventKind::Completed {
            Stage::Inspect
        } else {
            Stage::Finished
        },
        Stage::Kill => if k == EventKind::Completed || k == EventKind::AlreadyStopped {
            Stage::Remove
        } else {
            Stage::Finished
        },
        _ => Stage::Finished,
    }
}

/// What a finished request hands back to its caller.
#[derive(Debug, Clone)]
pub enum Outcome {
    Container(ContainerDescriptor),
    Logs(Vec<String>),
    Removed,
    Failed(LifecycleError),
}

/// The next thing to do for a request: an engine step, or delivering its outcome.
#[derive(Debug, Clone)]
pub enum Action {
    PullImage(String),
    CreateContainer { name: String, image: String },
    StartContainer(String),
    InspectContainer(String),
    FetchLogs(String),
    KillContainer(String),
    RemoveContainer(String),
    Deliver(Outcome),
}

impl Action {
    /// The stage a request enters by taking this action.
    pub open spec fn issues(&self) -> Stage {
        match self {
            Action::PullImage(_) => Stage::Pull,
            Action::CreateContainer { .. } => Stage::Create,
            Action::StartContainer(_) => Stage::Start,
            Action::InspectContainer(_) => Stage::Inspect,
            Action::FetchLogs(_) => Stage::FetchLogs,
            Action::KillContainer(_) => Stage::Kill,
            Action::RemoveContainer(_) => Stage::Remove,
            Action::Deliver(_) => Stage::Finished,
        }
    }
}

/// One lifecycle request in progress. Each request owns its session; nothing is shared.
#[derive(Debug, Clone)]
pub struct Session {
    pub stage: Stage,
    pub name: String,
    pub image: String,
    pub topology: Topology,
}

impl Session {
    /// The engine step `a` is addressed to this session's container and image.
    pub open spec fn addresses(&self, a: Action) -> bool {
        match a {
            Action::PullImage(i) => i@ == self.image@,
            Action::CreateContainer { name, image } => name@ == self.name@ && image@ == self.image@,
            Action::StartContainer(n) => n@ == self.name@,
            Action::InspectContainer(n) => n@ == self.name@,
            Action::FetchLogs(n) => n@ == self.name@,
            Action::KillContainer(n) => n@ == self.name@,
            Action::RemoveContainer(n) => n@ == self.name@,
            Action::Deliver(_) => true,
        }
    }

    /// `o` is the outcome owed when `event` finishes this session.
    pub open spec fn owes(&self, event: EngineEvent, o: Outcome) -> bool {
        match event {
            EngineEvent::Failed(f) => o matches Outcome::Failed(LifecycleError::Engine(m)) && m@
                == f.message@,
            EngineEvent::Inspected(c) => if self.stage == Stage::Inspect {
                match endpoint_of(c, self.topology, function_port()) {
                    Some((h, p)) => o matches Outcome::Container(d) && d.name@ == self.name@
                        && d.host@ == h && d.port@ == p,
                    None => o matches Outcome::Failed(LifecycleError::EndpointMissing),
                }
            } else {
                o matches Outcome::Failed(LifecycleError::UnexpectedReply)
            },
            EngineEvent::Logs(lines) => if self.stage == Stage::FetchLogs {
                o matches Outcome::Logs(v) && v@ == lines@
            } else {
                o matches Outcome::Failed(LifecycleError::UnexpectedReply)
            },
            EngineEvent::Completed => if self.stage == Stage::Remove {
                o matches Outcome::Removed
            } else {
                o matches Outcome::Failed(LifecycleError::UnexpectedReply)
            },
        }
    }
}

fn event_kind(e: &EngineEvent) -> (k: EventKind)
    ensures
        k == e.kind(),
{
    match e {
        EngineEvent::Completed => EventKind::Completed,
        EngineEvent::Inspected(_) => EventKind::Inspected,
        EngineEvent::Logs(_) => EventKind::Logs,
        EngineEvent::Failed(f) => match f.status {
            Some(code) => if code == 409 {
                EventKind::AlreadyStopped
            } else {
                EventKind::Failed
            },
            None => EventKind::Failed,
        },
    }
}

fn next_stage(s: Stage, k: EventKind) -> (r: Stage)
    ensures
        r == transition(s, k),
{
    match s {
        Stage::Pull => if k == EventKind::Completed {
            Stage::Create
        } else {
            Stage::Finished
        },
        Stage::Create => if k == EventKind::Completed {
            Stage::Start
        } else {
            Stage::Finished
        },
        Stage::Start => if k == EventKind::Completed {
            Stage::Inspect
        } else {
            Stage::Finished
        },
        Stage::Kill => if k == EventKind::Completed || k == EventKind::AlreadyStopped {
            Stage::Remove
        } else {
            Stage::Finished
        },
        _ => Stage::Finished,
    }
}

/// Starts provisioning a container for `function`. The image is resolved before any engine
/// step: an unsupported image finishes the request at once.
pub fn begin_provision(function: &FunctionSpec, container_name: &str, engine_endpoint: &str) -> (r:
    (Session, Action))
    ensures
        r.0.name@ == container_name@,
        r.0.topology == topology_for(engine_endpoint@),
        r.1.issues() == r.0.stage,
        match image_reference(function.image@) {
            Some(reference) => r.0.stage == Stage::Pull && r.0.image@ == reference && r.0.addresses(
                r.1,
            ),
            None => r.0.stage == Stage::Finished && (r.1 matches Action::Deliver(
                Outcome::Failed(LifecycleError::UnsupportedImage(id)),
            ) && id@ == function.image@),
        },
{
    let topology = topology_of(engine_endpoint);
    match select_image(function.image.as_str()) {
        Ok(image) => {
            let session = Session {
                stage: Stage::Pull,
                name: String::from_str(container_name),
                image: image.clone(),
                topology,
            };
            (session, Action::PullImage(image))
        },
        Err(e) => {
            let session = Session {
                stage: Stage::Finished,
                name: String::from_str(container_name),
                image: String::new(),
                topology,
            };
            (session, Action::Deliver(Outcome::Failed(e)))
        },
    }
}

/// Starts fetching the logs recorded by a container.
pub fn begin_fetch_logs(container_name: &str, engine_endpoint: &str) -> (r: (Session, Action))
    ensures
        r.0.name@ == container_name@,
        r.0.topology == topology_for(engine_endpoint@),
        r.0.stage == Stage::FetchLogs,
        r.1.issues() == r.0.stage,
        r.0.addresses(r.1),
{
    let session = Session {
        stage: Stage::FetchLogs,
        name: String::from_str(container_name),
        image: String::new(),
        topology: topology_of(engine_endpoint),
    };
    let action = Action::FetchLogs(String::from_str(container_name));
    (session, action)
}

/// Starts killing and removing a container.
pub fn begin_cleanup(container_name: &str, engine_endpoint: &str) -> (r: (Session, Action))
    ensures
        r.0.name@ == container_name@,
        r.0.topology == topology_for(engine_endpoint@),
        r.0.stage == Stage::Kill,
        r.1.issues() == r.0.stage,
        r.0.addresses(r.1),
{
    let session = Session {
        stage: Stage::Kill,
        name: String::from_str(container_name),
        image: String::new(),
        topology: topology_of(engine_endpoint),
    };
    let action = Action::KillContainer(String::from_str(container_name));
    (session, action)
}

impl Session {
    fn outcome(&self, event: EngineEvent) -> (o: Outcome)
        ensures
            self.owes(event, o),
    {
        proof {
            reveal_strlit("8080");
        }
        match event {
            EngineEvent::Failed(f) => Outcome::Failed(LifecycleError::Engine(f.message)),
            EngineEvent::Inspected(c) => {
                if self.stage == Stage::Inspect {
                    match extract_endpoint(&c, self.topology, "8080") {
                        Some((host, port)) => Outcome::Container(
                            ContainerDescriptor { name: self.name.clone(), host, port },
                        ),
                        None => Outcome::Failed(LifecycleError::EndpointMissing),
                    }
                } else {
                    Outcome::Failed(LifecycleError::UnexpectedReply)
                }
            },
            EngineEvent::Logs(lines) => {
                if self.stage == Stage::FetchLogs {
                    Outcome::Logs(lines)
                } else {
                    Outcome::Failed(LifecycleError::UnexpectedReply)
                }
            },
            EngineEvent::Completed => {
                if self.stage == Stage::Remove {
                    Outcome::Removed
                } else {
                    Outcome::Failed(LifecycleError::UnexpectedReply)
                }
            },
        }
    }

    /// Advances the request by the engine's answer to the step it was waiting on, and says
    /// what to do next: the following step, or the outcome to deliver.
    pub fn step(&mut self, event: EngineEvent) -> (action: Action)
        requires
            old(self).stage != Stage::Finished,
        ensures
            final(self).stage == transition(old(self).stage, event.kind()),
            final(self).name == old(self).name,
            final(self).image == old(self).image,
            final(self).topology == old(self).topology,
            action.issues() == final(self).stage,
            old(self).addresses(action),
            final(self).stage == Stage::Finished ==> (action matches Action::Deliver(o) && old(
                self,
            ).owes(event, o)),
    {
        let next = next_stage(self.stage, event_kind(&event));
        match next {
            Stage::Create => {
                self.stage = next;
                Action::CreateContainer { name: self.name.clone(), image: self.image.clone() }
            },
            Stage::Start => {
                self.stage = next;
                Action::StartContainer(self.name.clone())
            },
            Stage::Inspect => {
                self.stage = next;
                Action::InspectContainer(self.name.clone())
            },
            Stage::Remove => {
                self.stage = next;
                Action::RemoveContainer(self.name.clone())
            },
            _ => {
                let o = self.outcome(event);
                self.stage = Stage::Finished;
                Action::Deliver(o)
            },
        }
    }
}

/// The stages a request passes through when the engine answers with `events` in turn,
/// starting from `s`. The run stops once the request is finished.
pub open spec fn run(s: Stage, events: Seq<EventKind>) -> Seq<Stage>
    decreases events.len(),
{
    if s == Stage::Finished || events.len() == 0 {
        Seq::empty()
    } else {
        let n = transition(s, events[0]);
        seq![n] + run(n, events.drop_first())
    }
}

/// The most engine answers a request still waits for in stage `s`.
pub open spec fn steps_left(s: Stage) -> nat {
    match s {
        Stage::Pull => 4,
        Stage::Create => 3,
        Stage::Start => 2,
        Stage::Inspect => 1,
        Stage::FetchLogs => 1,
        Stage::Kill => 2,
        Stage::Remove => 1,
        Stage::Finished => 0,
    }
}

/// Whatever the engine answers, a request delivers its outcome at most once, as the last
/// thing it does; and once it has had as many answers as it has steps, it has delivered.
pub proof fn lemma_delivered_exactly_once(s: Stage, events: Seq<EventKind>)
    ensures
        forall|i: int| 0 <= i < run(s, events).len() - 1 ==> run(s, events)[i] != Stage::Finished,
        s != Stage::Finished && events.len() >= steps_left(s) ==> run(s, events).len() > 0 && run(
            s,
            events,
        ).last() == Stage::Finished,
    decreases events.len(),
{
    if s != Stage::Finished && events.len() > 0 {
        let n = transition(s, events[0]);
        let rest = events.drop_first();
        lemma_delivered_exactly_once(n, rest);
        let r = run(s, events);
        let t = run(n, rest);
        assert(r == seq![n] + t);
        assert forall|i: int| 0 <= i < r.len() - 1 implies r[i] != Stage::Finished by {
            if i == 0 {
                if n == Stage::Finished {
                    assert(t.len() == 0);
                }
            } else {
                assert(r[i] == t[i - 1]);
            }
        }
        if n != Stage::Finished && events.len() >= steps_left(s) {
            assert(r.last() == t.last());
        }
    }
}

pub open spec fn is_provisioning(s: Stage) -> bool {
    s == Stage::Pull || s == Stage::Create || s == Stage::Start || s == Stage::Inspect || s
        == Stage::Finished
}

proof fn lemma_provisioning_closed(s: Stage, events: Seq<EventKind>)
    requires
        is_provisioning(s),
    ensures
        forall|i: int| 0 <= i < run(s, events).len() ==> is_provisioning(#[trigger] run(s, events)[i]),
    decreases events.len(),
{
    if s != Stage::Finished && events.len() > 0 {
        let n = transition(s, events[0]);
        lemma_provisioning_closed(n, events.drop_first());
        let r = run(s, events);
        assert forall|i: int| 0 <= i < r.len() implies is_provisioning(#[trigger] r[i]) by {
            if i > 0 {
                assert(r[i] == run(n, events.drop_first())[i - 1]);
            }
        }
    }
}

/// Provisioning never kills or removes a container, whatever the engine answers: a container
/// whose start failed after it was created is left for an explicit cleanup.
pub proof fn lemma_provision_never_removes(events: Seq<EventKind>)
    ensures
        forall|i: int|
            0 <= i < run(Stage::Pull, events).len() ==> #[trigger] run(Stage::Pull, events)[i]
                != Stage::Kill && run(Stage::Pull, events)[i] != Stage::Remove,
{
    lemma_provisioning_closed(Stage::Pull, events);
    assert forall|i: int| 0 <= i < run(Stage::Pull, events).len() implies #[trigger] run(
        Stage::Pull,
        events,
    )[i] != Stage::Kill && run(Stage::Pull, events)[i] != Stage::Remove by {
        assert(is_provisioning(run(Stage::Pull, events)[i]));
    }
}

/// When pull, create and start succeed, provisioning inspects the container and then
/// delivers, whatever the inspection returned.
pub proof fn lemma_provision_success_path(last: EventKind)
    ensures
        run(
            Stage::Pull,
            seq![EventKind::Completed, EventKind::Completed, EventKind::Completed, last],
        ) =~= seq![Stage::Create, Stage::Start, Stage::Inspect, Stage::Finished],
{
    reveal_with_fuel(run, 5);
    let e = seq![EventKind::Completed, EventKind::Completed, EventKind::Completed, last];
    assert(e.drop_first() =~= seq![EventKind::Completed, EventKind::Completed, last]);
    assert(e.drop_first().drop_first() =~= seq![EventKind::Completed, last]);
    assert(e.drop_first().drop_first().drop_first() =~= seq![last]);
    assert(seq![last].drop_first() =~= Seq::<EventKind>::empty());
}

/// When the start fails after the create succeeded, provisioning delivers at once and takes
/// no further step.
pub proof fn lemma_provision_start_failure(failure: EventKind, later: Seq<EventKind>)
    requires
        failure != EventKind::Completed,
    ensures
        run(Stage::Pull, seq![EventKind::Completed, EventKind::Completed, failure] + later)
            =~= seq![Stage::Create, Stage::Start, Stage::Finished],
{
    reveal_with_fuel(run, 4);
    let e = seq![EventKind::Completed, EventKind::Completed, failure] + later;
    assert(e.drop_first() =~= seq![EventKind::Completed, failure] + later);
    assert(e.drop_first().drop_first() =~= seq![failure] + later);
    assert(run(Stage::Finished, e.drop_first().drop_first().drop_first()) =~= Seq::<
        Stage,
    >::empty());
}

/// A kill that succeeds, or is refused because the container is not running, is followed by
/// the removal, whose own answer finishes the cleanup.
pub proof fn lemma_cleanup_removes_after_kill(kill: EventKind, removal: EventKind)
    requires
        kill == EventKind::Completed || kill == EventKind::AlreadyStopped,
    ensures
        run(Stage::Kill, seq![kill, removal]) =~= seq![Stage::Remove, Stage::Finished],
{
    reveal_with_fuel(run, 3);
    let e = seq![kill, removal];
    assert(e.drop_first() =~= seq![removal]);
    assert(seq![removal].drop_first() =~= Seq::<EventKind>::empty());
}

/// Logs are fetched once: the first answer finishes the request, nothing is fetched again.
pub proof fn lemma_logs_fetched_once(events: Seq<EventKind>)
    requires
        events.len() > 0,
    ensures
        run(Stage::FetchLogs, events) =~= seq![Stage::Finished],
{
    reveal_with_fuel(run, 2);
}

} // verus!
