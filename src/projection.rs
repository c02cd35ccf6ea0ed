//! The two named projections of the jump graph, their refresh (drop if it
//! exists, then build), and route queries, which build the risk projection on
//! demand. Beside them, a model of the store's projections.
use vstd::prelude::*;

use crate::database::Error;

verus! {

/// A named in-memory projection of the jump graph.
#[derive(Clone, Copy, Debug, PartialEq, Eq, Structural)]
pub enum Projection {
    /// `system-map`, weighted by `cost`: fewest jumps.
    SystemMap,
    /// `jump-risk`, weighted by `risk`: least accumulated risk.
    JumpRisk,
}

impl Projection {
    pub open spec fn name_spec(self) -> Seq<char> {
        match self {
            Projection::SystemMap => seq!['s', 'y', 's', 't', 'e', 'm', '-', 'm', 'a', 'p'],
            Projection::JumpRisk => seq!['j', 'u', 'm', 'p', '-', 'r', 'i', 's', 'k'],
        }
    }

    pub open spec fn weight_spec(self) -> Seq<char> {
        match self {
            Projection::SystemMap => seq!['c', 'o', 's', 't'],
            Projection::JumpRisk => seq!['r', 'i', 's', 'k'],
        }
    }

    /// The projection's name in the store.
    pub fn name(&self) -> (r: String)
        ensures
            r@ == self.name_spec(),
    {
        match self {
            Projection::SystemMap => {
                let r = String::from_str("system-map");
                proof {
                    reveal_strlit("system-map");
                    assert(r@ =~= self.name_spec());
                }
                r
            },
            Projection::JumpRisk => {
                let r = String::from_str("jump-risk");
                proof {
                    reveal_strlit("jump-risk");
                    assert(r@ =~= self.name_spec());
                }
                r
            },
        }
    }

    /// The edge property that the projection exposes as its weight.
    pub fn weight_property(&self) -> (r: String)
        ensures
            r@ == self.weight_spec(),
    {
        match self {
            Projection::SystemMap => {
                let r = String::from_str("cost");
                proof {
                    reveal_strlit("cost");
                    assert(r@ =~= self.weight_spec());
                }
                r
            },
            Projection::JumpRisk => {
                let r = String::from_str("risk");
                proof {
                    reveal_strlit("risk");
                    assert(r@ =~= self.weight_spec());
                }
                r
            },
        }
    }
}

/// A store operation on projections that the runtime is to perform.
#[derive(Debug)]
pub enum ProjectionCommand {
    /// Ask whether the projection exists.
    CheckExists(Projection),
    /// Drop the projection.
    Drop(Projection),
    /// Project the `System` nodes and `JUMP` edges under the projection's name,
    /// exposing its weight property.
    Build(Projection),
    /// Find the route from the first to the second system name on the projection.
    FindRoute(Projection, String, String),
    /// Refresh over: the graph name that the build reported, or the error.
    FinishRefresh(Result<String, Error>),
    /// Query over: the system names along the route (none when there is no route), or the error.
    FinishRoute(Result<Option<Vec<String>>, Error>),
}

/// What the last store operation produced.
#[derive(Debug)]
pub enum ProjectionEvent {
    Exists(bool),
    /// The drop completed.
    Dropped,
    /// The build completed and reported this graph name.
    Built(String),
    Route(Option<Vec<String>>),
    Failed(Error),
}

#[derive(Clone, Copy, Debug, PartialEq, Eq, Structural)]
pub enum ProjectionPhase {
    AwaitExists,
    AwaitDrop,
    AwaitBuild,
    AwaitRoute,
    Finished,
}

/// A refresh of one projection, or a route query on one.
pub struct ProjectionTask {
    pub projection: Projection,
    pub phase: ProjectionPhase,
    /// For a route query: the endpoints; `None` for a refresh.
    pub route: Option<(String, String)>,
}

impl ProjectionTask {
    /// A refresh of `projection`, with its first command.
    pub fn refresh(projection: Projection) -> (r: (ProjectionTask, ProjectionCommand))
        ensures
            r.0.projection == projection,
            r.0.route is None,
            r.0.phase == ProjectionPhase::AwaitExists,
            r.1 == ProjectionCommand::CheckExists(projection),
    {
        (ProjectionTask { projection, phase: ProjectionPhase::AwaitExists, route: None }, ProjectionCommand::CheckExists(projection))
    }

    /// A fewest-jumps route query: it runs on `system-map` as it stands.
    pub fn shortest_route(from: String, to: String) -> (r: (ProjectionTask, ProjectionCommand))
        ensures
            r.0.projection == Projection::SystemMap,
            r.0.route == Some((from, to)),
            r.0.phase == ProjectionPhase::AwaitRoute,
            r.1 == ProjectionCommand::FindRoute(Projection::SystemMap, from, to),
    {
        let f = from.clone();
        let t = to.clone();
        (ProjectionTask { projection: Projection::SystemMap, phase: ProjectionPhase::AwaitRoute, route: Some((from, to)) }, ProjectionCommand::FindRoute(Projection::SystemMap, f, t))
    }

    /// A least-risk route query: it builds `jump-risk` first if it is missing.
    pub fn safest_route(from: String, to: String) -> (r: (ProjectionTask, ProjectionCommand))
        ensures
            r.0.projection == Projection::JumpRisk,
            r.0.route == Some((from, to)),
            r.0.phase == ProjectionPhase::AwaitExists,
            r.1 == ProjectionCommand::CheckExists(Projection::JumpRisk),
    {
        (ProjectionTask { projection: Projection::JumpRisk, phase: ProjectionPhase::AwaitExists, route: Some((from, to)) }, ProjectionCommand::CheckExists(Projection::JumpRisk))
    }

    /// Whether the task is over.
    pub fn is_finished(&self) -> (r: bool)
        ensures
            r == (self.phase == ProjectionPhase::Finished),
    {
        match self.phase {
            ProjectionPhase::Finished => true,
            _ => false,
        }
    }

    /// The command that ends the task with `e`, in the task's own kind.
    pub open spec fn fails_with(self, cmd: ProjectionCommand, e: Error) -> bool {
        match self.route {
            None => cmd == ProjectionCommand::FinishRefresh(Err(e)),
            Some(_) => cmd == ProjectionCommand::FinishRoute(Err(e)),
        }
    }

    /// The command that runs the route query, once the projection is there.
    pub open spec fn queries(self, cmd: ProjectionCommand) -> bool {
        match self.route {
            Some((from, to)) => cmd == ProjectionCommand::FindRoute(self.projection, from, to),
            None => false,
        }
    }

    /// Takes the outcome of the last store operation and returns the next one.
    /// A refresh drops an existing projection, then builds it; a query builds a
    /// missing projection, then finds the route. A failure ends the task with
    /// that error, as does an outcome of another operation than the one awaited.
    pub fn step(&mut self, event: ProjectionEvent) -> (cmd: ProjectionCommand)
        requires
            old(self).phase != ProjectionPhase::Finished,
        ensures
            final(self).projection == old(self).projection,
            final(self).route == old(self).route,
            match event {
                ProjectionEvent::Failed(e) => final(self).phase == ProjectionPhase::Finished
                    && old(self).fails_with(cmd, e),
                ProjectionEvent::Exists(exists) => if old(self).phase == ProjectionPhase::AwaitExists {
                    if old(self).route is None {
                        if exists {
                            final(self).phase == ProjectionPhase::AwaitDrop && cmd
                                == ProjectionCommand::Drop(old(self).projection)
                        } else {
                            final(self).phase == ProjectionPhase::AwaitBuild && cmd
                                == ProjectionCommand::Build(old(self).projection)
                        }
                    } else {
                        if exists {
                            final(self).phase == ProjectionPhase::AwaitRoute && old(self).queries(cmd)
                        } else {
                            final(self).phase == ProjectionPhase::AwaitBuild && cmd
                                == ProjectionCommand::Build(old(self).projection)
                        }
                    }
                } else {
                    final(self).phase == ProjectionPhase::Finished && cmd.is_client_failure()
                },
                ProjectionEvent::Dropped => if old(self).phase == ProjectionPhase::AwaitDrop {
                    final(self).phase == ProjectionPhase::AwaitBuild && cmd
                        == ProjectionCommand::Build(old(self).projection)
                } else {
                    final(self).phase == ProjectionPhase::Finished && cmd.is_client_failure()
                },
                ProjectionEvent::Built(name) => if old(self).phase == ProjectionPhase::AwaitBuild {
                    if old(self).route is None {
                        final(self).phase == ProjectionPhase::Finished && cmd
                            == ProjectionCommand::FinishRefresh(Ok(name))
                    } else {
                        final(self).phase == ProjectionPhase::AwaitRoute && old(self).queries(cmd)
                    }
                } else {
                    final(self).phase == ProjectionPhase::Finished && cmd.is_client_failure()
                },
                ProjectionEvent::Route(found) => if old(self).phase == ProjectionPhase::AwaitRoute {
                    final(self).phase == ProjectionPhase::Finished && cmd
                        == ProjectionCommand::FinishRoute(Ok(found))
                } else {
                    final(self).phase == ProjectionPhase::Finished && cmd.is_client_failure()
                },
            },
    {
        let phase = self.phase;
        match event {
            ProjectionEvent::Failed(e) => self.fail(e),
            ProjectionEvent::Exists(exists) => {
                if phase == ProjectionPhase::AwaitExists {
                    if exists && self.route.is_none() {
                        self.phase = ProjectionPhase::AwaitDrop;
                        ProjectionCommand::Drop(self.projection)
                    } else if exists {
                        self.query()
                    } else {
                        self.phase = ProjectionPhase::AwaitBuild;
                        ProjectionCommand::Build(self.projection)
                    }
                } else {
                    self.fail(out_of_order())
                }
            },
            ProjectionEvent::Dropped => {
                if phase == ProjectionPhase::AwaitDrop {
                    self.phase = ProjectionPhase::AwaitBuild;
                    ProjectionCommand::Build(self.projection)
                } else {
                    self.fail(out_of_order())
                }
            },
            ProjectionEvent::Built(name) => {
                if phase == ProjectionPhase::AwaitBuild {
                    if self.route.is_none() {
                        self.phase = ProjectionPhase::Finished;
                        ProjectionCommand::FinishRefresh(Ok(name))
                    } else {
                        self.query()
                    }
                } else {
                    self.fail(out_of_order())
                }
            },
            ProjectionEvent::Route(found) => {
                if phase == ProjectionPhase::AwaitRoute {
                    self.phase = ProjectionPhase::Finished;
                    ProjectionCommand::FinishRoute(Ok(found))
                } else {
                    self.fail(out_of_order())
                }
            },
        }
    }

    fn query(&mut self) -> (cmd: ProjectionCommand)
        requires
            old(self).route is Some,
        ensures
            final(self).projection == old(self).projection,
            final(self).route == old(self).route,
            final(self).phase == ProjectionPhase::AwaitRoute,
            old(self).queries(cmd),
    {
        self.phase = ProjectionPhase::AwaitRoute;
        match &self.route {
            Some((from, to)) => ProjectionCommand::FindRoute(self.projection, from.clone(), to.clone()),
            None => ProjectionCommand::FinishRoute(Ok(None)),
        }
    }

    fn fail(&mut self, e: Error) -> (cmd: ProjectionCommand)
        ensures
            final(self).projection == old(self).projection,
            final(self).route == old(self).route,
            final(self).phase == ProjectionPhase::Finished,
            old(self).fails_with(cmd, e),
    {
        self.phase = ProjectionPhase::Finished;
        if self.route.is_none() {
            ProjectionCommand::FinishRefresh(Err(e))
        } else {
            ProjectionCommand::FinishRoute(Err(e))
        }
    }
}

impl ProjectionCommand {
    /// This command ends the task with a client error, as an outcome that came
    /// out of order does.
    pub open spec fn is_client_failure(self) -> bool {
        match self {
            ProjectionCommand::FinishRefresh(Err(Error::Client(_))) => true,
            ProjectionCommand::FinishRoute(Err(Error::Client(_))) => true,
            _ => false,
        }
    }
}

/// The store error for an outcome that does not answer the awaited operation.
pub fn out_of_order() -> (e: Error)
    ensures
        e is Client,
{
    Error::Client(String::from_str("an outcome arrived for an operation that was not awaited"))
}

// ----- Model of the store's projections -----

/// What a projection holds: the jump edges at build time and the weight property.
pub type Snapshot = (Seq<(i64, i64)>, Seq<char>);

/// The projections after a drop of `name`.
pub open spec fn after_drop(store: Map<Seq<char>, Snapshot>, name: Seq<char>) -> Map<
    Seq<char>,
    Snapshot,
> {
    store.remove(name)
}

/// The projections after a build of `name` over `edges`, weighted by `weight`.
pub open spec fn after_build(
    store: Map<Seq<char>, Snapshot>,
    name: Seq<char>,
    edges: Seq<(i64, i64)>,
    weight: Seq<char>,
) -> Map<Seq<char>, Snapshot> {
    store.insert(name, (edges, weight))
}

/// The projections after a refresh: drop if it exists, then build.
pub open spec fn after_refresh(
    store: Map<Seq<char>, Snapshot>,
    p: Projection,
    edges: Seq<(i64, i64)>,
) -> Map<Seq<char>, Snapshot> {
    let dropped = if store.contains_key(p.name_spec()) {
        after_drop(store, p.name_spec())
    } else {
        store
    };
    after_build(dropped, p.name_spec(), edges, p.weight_spec())
}

/// Refreshing a projection twice in a row over the same edges leaves the store's
/// projections, and so every route found on them, as one refresh does; the
/// projection holds the edges and weight of the last build under the same name.
pub proof fn lemma_refresh_twice(store: Map<Seq<char>, Snapshot>, p: Projection, edges: Seq<(i64, i64)>)
    ensures
        after_refresh(after_refresh(store, p, edges), p, edges) == after_refresh(store, p, edges),
        after_refresh(store, p, edges).contains_key(p.name_spec()),
        after_refresh(store, p, edges)[p.name_spec()] == (edges, p.weight_spec()),
        forall|other: Seq<char>|
            other != p.name_spec() ==> (after_refresh(store, p, edges).contains_key(other)
                == store.contains_key(other)) && (store.contains_key(other) ==> after_refresh(
                store,
                p,
                edges,
            )[other] == store[other]),
{
    let once = after_refresh(store, p, edges);
    let twice = after_refresh(once, p, edges);
    assert(twice =~= once);
}

/// The projections after a route query on `p`: a missing `jump-risk` is built
/// first; nothing else is written.
pub open spec fn after_route_query(
    store: Map<Seq<char>, Snapshot>,
    p: Projection,
    edges: Seq<(i64, i64)>,
) -> Map<Seq<char>, Snapshot> {
    if p == Projection::JumpRisk && !store.contains_key(p.name_spec()) {
        after_build(store, p.name_spec(), edges, p.weight_spec())
    } else {
        store
    }
}

/// A route query is repeatable: a second query with the same inputs writes
/// nothing and runs on the same projection contents as the first, so the
/// store's route search gets the same input both times.
pub proof fn lemma_route_query_repeatable(
    store: Map<Seq<char>, Snapshot>,
    p: Projection,
    edges: Seq<(i64, i64)>,
)
    ensures
        after_route_query(after_route_query(store, p, edges), p, edges) == after_route_query(
            store,
            p,
            edges,
        ),
        store.contains_key(p.name_spec()) ==> after_route_query(store, p, edges) == store,
{
}

} // verus!
