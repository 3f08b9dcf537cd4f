//! The query lifecycle: per-category bindings, the Fresh → Active →
//! Finished life of each query, and the conditional-render block.
//!
//! A query lives as Fresh until it is first bound around a draw, is
//! Active while draws count into it, and becomes permanently Finished
//! when a draw is performed without it after prior use. Beginning a
//! Finished query is the query-protocol violation.

use vstd::prelude::*;
use std::collections::HashMap;
use crate::commands::Command;
use crate::glenum::{
    GL_ANY_SAMPLES_PASSED, GL_PRIMITIVES_GENERATED, GL_QUERY_BY_REGION_NO_WAIT,
    GL_QUERY_BY_REGION_WAIT, GL_QUERY_NO_WAIT, GL_QUERY_WAIT, GL_SAMPLES_PASSED, GL_TIME_ELAPSED,
    GL_TRANSFORM_FEEDBACK_PRIMITIVES_WRITTEN,
};
use crate::params::{ConditionalRendering, SamplesQueryParam};
use crate::state::{emit, QueryBindings, SyncOutcome};
use crate::DrawError;

verus! {

broadcast use vstd::std_specs::hash::group_hash_axioms;

/// Where in its life a query stands.
#[derive(Clone, Copy, PartialEq, Eq, Structural, Debug)]
pub enum QueryLifecycle {
    /// Never yet bound around a draw.
    Fresh,
    /// Bound around at least one draw; may be bound again.
    Active,
    /// Its usage pattern has ended its life: only reading the result
    /// remains legal, never another draw-time binding.
    Finished,
}

/// The lifecycle a status table assigns to a query; a query the table
/// has never seen is Fresh.
pub open spec fn spec_status(m: Map<u64, QueryLifecycle>, id: u64) -> QueryLifecycle {
    if m.contains_key(id) {
        m[id]
    } else {
        QueryLifecycle::Fresh
    }
}

/// Tracks the lifecycle of every query the engine has seen, by handle.
/// One instance exists per device context, beside the state mirror.
pub struct QueryLifecycleManager {
    statuses: HashMap<u64, QueryLifecycle>,
}

impl QueryLifecycleManager {
    /// The status table, as a map from handle to lifecycle.
    pub closed spec fn map(&self) -> Map<u64, QueryLifecycle> {
        self.statuses@
    }

    /// The lifecycle of one query; Fresh when the table has no entry.
    pub open spec fn status_of(&self, id: u64) -> QueryLifecycle {
        spec_status(self.map(), id)
    }

    /// A manager that has seen no query yet.
    pub fn new() -> (r: QueryLifecycleManager)
        ensures
            r.map() == Map::<u64, QueryLifecycle>::empty(),
    {
        QueryLifecycleManager { statuses: HashMap::new() }
    }

    /// The lifecycle of the query with the given handle.
    pub fn status(&self, id: u64) -> (st: QueryLifecycle)
        ensures
            st == self.status_of(id),
    {
        match self.statuses.get(&id) {
            Some(st) => *st,
            None => QueryLifecycle::Fresh,
        }
    }

    /// Records the lifecycle of the query with the given handle.
    pub fn set_status(&mut self, id: u64, st: QueryLifecycle)
        ensures
            final(self).map() == old(self).map().insert(id, st),
    {
        self.statuses.insert(id, st);
    }
}

/// What synchronizing one query category does: the binding it leaves,
/// the status table it leaves, the commands it emits, and the protocol
/// violation it runs into, if any.
pub ghost struct QueryCategoryOutcome<B> {
    /// The category's binding after the step.
    pub binding: B,
    /// The status table after the step.
    pub statuses: Map<u64, QueryLifecycle>,
    /// The commands the step emits, in order.
    pub cmds: Seq<Command>,
    /// The violated rule, or `None`.
    pub err: Option<DrawError>,
}

/// One plain query category: if the requested binding differs from the
/// current one, end the current query (which finishes its life) and
/// begin the requested one; beginning a Finished query fails.
pub open spec fn query_category_sync(
    binding: Option<u64>,
    statuses: Map<u64, QueryLifecycle>,
    requested: Option<u64>,
    target: u32,
) -> QueryCategoryOutcome<Option<u64>> {
    if requested == binding {
        QueryCategoryOutcome { binding, statuses, cmds: Seq::empty(), err: None }
    } else {
        let ended = match binding {
            Some(q) => QueryCategoryOutcome {
                binding: None,
                statuses: statuses.insert(q, QueryLifecycle::Finished),
                cmds: seq![Command::EndQuery { target }],
                err: None,
            },
            None => QueryCategoryOutcome { binding: None, statuses, cmds: Seq::empty(), err: None },
        };
        match requested {
            Some(q) => {
                if spec_status(ended.statuses, q) == QueryLifecycle::Finished {
                    QueryCategoryOutcome { err: Some(DrawError::WrongQueryOperation), ..ended }
                } else {
                    QueryCategoryOutcome {
                        binding: Some(q),
                        statuses: ended.statuses.insert(q, QueryLifecycle::Active),
                        cmds: ended.cmds + seq![Command::BeginQuery { target, query: q }],
                        err: None,
                    }
                }
            },
            None => ended,
        }
    }
}

/// The device target a samples query binds to, by kind.
pub open spec fn samples_target(p: SamplesQueryParam) -> u32 {
    match p {
        SamplesQueryParam::SamplesPassedQuery(..) => GL_SAMPLES_PASSED,
        SamplesQueryParam::AnySamplesPassedQuery(..) => GL_ANY_SAMPLES_PASSED,
    }
}

/// The samples category: as a plain category, except that the binding
/// carries the kind and each kind has its own device target.
pub open spec fn samples_query_sync(
    binding: Option<SamplesQueryParam>,
    statuses: Map<u64, QueryLifecycle>,
    requested: Option<SamplesQueryParam>,
) -> QueryCategoryOutcome<Option<SamplesQueryParam>> {
    if requested == binding {
        QueryCategoryOutcome { binding, statuses, cmds: Seq::empty(), err: None }
    } else {
        let ended = match binding {
            Some(p) => QueryCategoryOutcome {
                binding: None,
                statuses: statuses.insert(p.spec_query_id(), QueryLifecycle::Finished),
                cmds: seq![Command::EndQuery { target: samples_target(p) }],
                err: None,
            },
            None => QueryCategoryOutcome { binding: None, statuses, cmds: Seq::empty(), err: None },
        };
        match requested {
            Some(p) => {
                if spec_status(ended.statuses, p.spec_query_id()) == QueryLifecycle::Finished {
                    QueryCategoryOutcome { err: Some(DrawError::WrongQueryOperation), ..ended }
                } else {
                    QueryCategoryOutcome {
                        binding: Some(p),
                        statuses: ended.statuses.insert(p.spec_query_id(), QueryLifecycle::Active),
                        cmds: ended.cmds + seq![
                            Command::BeginQuery {
                                target: samples_target(p),
                                query: p.spec_query_id(),
                            },
                        ],
                        err: None,
                    }
                }
            },
            None => ended,
        }
    }
}

/// What synchronizing all four query categories does.
pub ghost struct QueriesOutcome {
    /// All four bindings after the step.
    pub bindings: QueryBindings,
    /// The status table after the step.
    pub statuses: Map<u64, QueryLifecycle>,
    /// The commands the step emits, in order.
    pub cmds: Seq<Command>,
    /// The violated rule, or `None`.
    pub err: Option<DrawError>,
}

/// All four query categories in fixed order: samples, time elapsed,
/// primitives generated, transform-feedback primitives written. A
/// failure cuts the later categories off.
pub open spec fn queries_sync(
    b: QueryBindings,
    statuses: Map<u64, QueryLifecycle>,
    samples: Option<SamplesQueryParam>,
    time_elapsed: Option<u64>,
    primitives_generated: Option<u64>,
    tf_primitives_written: Option<u64>,
) -> QueriesOutcome {
    let o1 = samples_query_sync(b.samples_passed, statuses, samples);
    if o1.err is Some {
        QueriesOutcome {
            bindings: QueryBindings { samples_passed: o1.binding, ..b },
            statuses: o1.statuses,
            cmds: o1.cmds,
            err: o1.err,
        }
    } else {
        let o2 = query_category_sync(b.time_elapsed, o1.statuses, time_elapsed, GL_TIME_ELAPSED);
        if o2.err is Some {
            QueriesOutcome {
                bindings: QueryBindings {
                    samples_passed: o1.binding,
                    time_elapsed: o2.binding,
                    ..b
                },
                statuses: o2.statuses,
                cmds: o1.cmds + o2.cmds,
                err: o2.err,
            }
        } else {
            let o3 = query_category_sync(b.primitives_generated, o2.statuses,
                primitives_generated, GL_PRIMITIVES_GENERATED);
            if o3.err is Some {
                QueriesOutcome {
                    bindings: QueryBindings {
                        samples_passed: o1.binding,
                        time_elapsed: o2.binding,
                        primitives_generated: o3.binding,
                        ..b
                    },
                    statuses: o3.statuses,
                    cmds: o1.cmds + o2.cmds + o3.cmds,
                    err: o3.err,
                }
            } else {
                let o4 = query_category_sync(b.transform_feedback_primitives_written, o3.statuses,
                    tf_primitives_written, GL_TRANSFORM_FEEDBACK_PRIMITIVES_WRITTEN);
                QueriesOutcome {
                    bindings: QueryBindings {
                        samples_passed: o1.binding,
                        time_elapsed: o2.binding,
                        primitives_generated: o3.binding,
                        transform_feedback_primitives_written: o4.binding,
                    },
                    statuses: o4.statuses,
                    cmds: o1.cmds + o2.cmds + o3.cmds + o4.cmds,
                    err: o4.err,
                }
            }
        }
    }
}

/// One plain category, on the live mirror and status table.
fn sync_query_category(
    binding: &mut Option<u64>,
    queries: &mut QueryLifecycleManager,
    cmds: &mut Vec<Command>,
    requested: Option<u64>,
    target: u32,
) -> (r: Result<(), DrawError>)
    ensures
        ({
            let o = query_category_sync(*old(binding), old(queries).map(), requested, target);
            &&& *final(binding) == o.binding
            &&& final(queries).map() == o.statuses
            &&& final(cmds)@ == old(cmds)@ + o.cmds
            &&& (r is Ok <==> o.err is None)
            &&& (r matches Err(e) ==> o.err == Some(e))
        }),
{
    let ghost o = query_category_sync(*binding, queries.map(), requested, target);
    let same = match (requested, *binding) {
        (Some(a), Some(b)) => a == b,
        (None, None) => true,
        _ => false,
    };
    if same {
        proof {
            assert(requested == *binding);
            assert(cmds@ =~= old(cmds)@ + o.cmds);
        }
        return Ok(());
    }
    if let Some(q) = *binding {
        emit(cmds, Command::EndQuery { target });
        queries.set_status(q, QueryLifecycle::Finished);
        *binding = None;
    }
    if let Some(q) = requested {
        let st = queries.status(q);
        if st == QueryLifecycle::Finished {
            proof {
                assert(cmds@ =~= old(cmds)@ + o.cmds);
            }
            return Err(DrawError::WrongQueryOperation);
        }
        emit(cmds, Command::BeginQuery { target, query: q });
        queries.set_status(q, QueryLifecycle::Active);
        *binding = Some(q);
    }
    proof {
        assert(cmds@ =~= old(cmds)@ + o.cmds);
    }
    Ok(())
}

/// The samples category, on the live mirror and status table.
fn sync_samples_query(
    binding: &mut Option<SamplesQueryParam>,
    queries: &mut QueryLifecycleManager,
    cmds: &mut Vec<Command>,
    requested: Option<SamplesQueryParam>,
) -> (r: Result<(), DrawError>)
    ensures
        ({
            let o = samples_query_sync(*old(binding), old(queries).map(), requested);
            &&& *final(binding) == o.binding
            &&& final(queries).map() == o.statuses
            &&& final(cmds)@ == old(cmds)@ + o.cmds
            &&& (r is Ok <==> o.err is None)
            &&& (r matches Err(e) ==> o.err == Some(e))
        }),
{
    let ghost o = samples_query_sync(*binding, queries.map(), requested);
    let same = match (requested, *binding) {
        (Some(a), Some(b)) => a == b,
        (None, None) => true,
        _ => false,
    };
    if same {
        proof {
            assert(requested == *binding);
            assert(cmds@ =~= old(cmds)@ + o.cmds);
        }
        return Ok(());
    }
    if let Some(p) = *binding {
        let target = match p {
            SamplesQueryParam::SamplesPassedQuery(..) => GL_SAMPLES_PASSED,
            SamplesQueryParam::AnySamplesPassedQuery(..) => GL_ANY_SAMPLES_PASSED,
        };
        emit(cmds, Command::EndQuery { target });
        queries.set_status(p.query_id(), QueryLifecycle::Finished);
        *binding = None;
    }
    if let Some(p) = requested {
        let id = p.query_id();
        let st = queries.status(id);
        if st == QueryLifecycle::Finished {
            proof {
                assert(cmds@ =~= old(cmds)@ + o.cmds);
            }
            return Err(DrawError::WrongQueryOperation);
        }
        let target = match p {
            SamplesQueryParam::SamplesPassedQuery(..) => GL_SAMPLES_PASSED,
            SamplesQueryParam::AnySamplesPassedQuery(..) => GL_ANY_SAMPLES_PASSED,
        };
        emit(cmds, Command::BeginQuery { target, query: id });
        queries.set_status(id, QueryLifecycle::Active);
        *binding = Some(p);
    }
    proof {
        assert(cmds@ =~= old(cmds)@ + o.cmds);
    }
    Ok(())
}

/// Synchronizes all four query categories, appending the emitted
/// commands to `cmds`.
#[verifier::rlimit(100)]
pub fn sync_queries(
    bindings: &mut QueryBindings,
    queries: &mut QueryLifecycleManager,
    cmds: &mut Vec<Command>,
    samples_passed_query: Option<SamplesQueryParam>,
    time_elapsed_query: Option<u64>,
    primitives_generated_query: Option<u64>,
    transform_feedback_primitives_written_query: Option<u64>,
) -> (r: Result<(), DrawError>)
    ensures
        ({
            let o = queries_sync(*old(bindings), old(queries).map(), samples_passed_query,
                time_elapsed_query, primitives_generated_query,
                transform_feedback_primitives_written_query);
            &&& *final(bindings) == o.bindings
            &&& final(queries).map() == o.statuses
            &&& final(cmds)@ == old(cmds)@ + o.cmds
            &&& (r is Ok <==> o.err is None)
            &&& (r matches Err(e) ==> o.err == Some(e))
        }),
{
    let ghost o = queries_sync(*bindings, queries.map(), samples_passed_query, time_elapsed_query,
        primitives_generated_query, transform_feedback_primitives_written_query);

    let r1 = sync_samples_query(&mut bindings.samples_passed, queries, cmds, samples_passed_query);
    if let Err(e) = r1 {
        proof {
            assert(cmds@ =~= old(cmds)@ + o.cmds);
        }
        return Err(e);
    }

    let r2 = sync_query_category(&mut bindings.time_elapsed, queries, cmds, time_elapsed_query,
        GL_TIME_ELAPSED);
    if let Err(e) = r2 {
        proof {
            assert(cmds@ =~= old(cmds)@ + o.cmds);
        }
        return Err(e);
    }

    let r3 = sync_query_category(&mut bindings.primitives_generated, queries, cmds,
        primitives_generated_query, GL_PRIMITIVES_GENERATED);
    if let Err(e) = r3 {
        proof {
            assert(cmds@ =~= old(cmds)@ + o.cmds);
        }
        return Err(e);
    }

    let r4 = sync_query_category(&mut bindings.transform_feedback_primitives_written, queries,
        cmds, transform_feedback_primitives_written_query,
        GL_TRANSFORM_FEEDBACK_PRIMITIVES_WRITTEN);
    if let Err(e) = r4 {
        proof {
            assert(cmds@ =~= old(cmds)@ + o.cmds);
        }
        return Err(e);
    }

    proof {
        assert(cmds@ =~= old(cmds)@ + o.cmds);
    }
    Ok(())
}

/// The device mode of a conditional-render block.
pub open spec fn conditional_mode(wait: bool, per_region: bool) -> u32 {
    if wait && per_region {
        GL_QUERY_BY_REGION_WAIT
    } else if per_region {
        GL_QUERY_BY_REGION_NO_WAIT
    } else if wait {
        GL_QUERY_WAIT
    } else {
        GL_QUERY_NO_WAIT
    }
}

/// The conditional-render dimension: a distinct block keyed on a
/// samples-kind query reference, independent of the samples binding; on
/// change, end the current block and begin the requested one. Query
/// lifecycles are untouched.
pub open spec fn conditional_render_sync(
    s: Option<ConditionalRendering>,
    requested: Option<ConditionalRendering>,
) -> SyncOutcome<Option<ConditionalRendering>> {
    if requested == s {
        SyncOutcome::silent(s)
    } else {
        let ended: Seq<Command> = match s {
            Some(_) => seq![Command::EndConditionalRender],
            None => Seq::empty(),
        };
        let begun: Seq<Command> = match requested {
            Some(c) => seq![
                Command::BeginConditionalRender {
                    query: c.query.spec_query_id(),
                    mode: conditional_mode(c.wait, c.per_region),
                },
            ],
            None => Seq::empty(),
        };
        SyncOutcome::ok(requested, ended + begun)
    }
}

/// Synchronizes the conditional-render block of the mirror.
pub fn sync_conditional_render(
    state: &mut Option<ConditionalRendering>,
    cmds: &mut Vec<Command>,
    condition: Option<ConditionalRendering>,
)
    ensures
        ({
            let o = conditional_render_sync(*old(state), condition);
            &&& *final(state) == o.state
            &&& final(cmds)@ == old(cmds)@ + o.cmds
            &&& o.err is None
        }),
{
    let ghost o = conditional_render_sync(*state, condition);
    let same = match (&condition, &*state) {
        (Some(a), Some(b)) => *a == *b,
        (None, None) => true,
        _ => false,
    };
    if same {
        proof {
            assert(condition == *state);
            assert(cmds@ =~= old(cmds)@ + o.cmds);
        }
        return;
    }
    if state.is_some() {
        emit(cmds, Command::EndConditionalRender);
    }
    if let Some(c) = condition {
        let mode = if c.wait && c.per_region {
            GL_QUERY_BY_REGION_WAIT
        } else if c.per_region {
            GL_QUERY_BY_REGION_NO_WAIT
        } else if c.wait {
            GL_QUERY_WAIT
        } else {
            GL_QUERY_NO_WAIT
        };
        emit(cmds, Command::BeginConditionalRender { query: c.query.query_id(), mode });
    }
    *state = condition;
    proof {
        assert(cmds@ =~= old(cmds)@ + o.cmds);
    }
}

} // verus!
