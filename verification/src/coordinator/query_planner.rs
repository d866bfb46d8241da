//! The steps by which the coordinator carries a query out.

use crate::ident::random_uuid;
use crate::text::{lowercase, lowercase_of, mentions, occurs_in, owned_texts, slices_of, texts_of};
use vstd::prelude::*;
use vstd::string::StringExecFns;

verus! {

/// One step of a plan.
#[derive(Debug, PartialEq, Eq)]
pub struct QueryStep {
    pub step_id: String,
    /// The part of the engine that takes the step.
    pub step_type: String,
    pub description: String,
    pub estimated_time_ms: u64,
    /// The steps that must be done before this one.
    pub dependencies: Vec<String>,
}

/// The plan of one query. The cost is the sum of the steps' times, a whole
/// number of milliseconds.
#[derive(Debug, PartialEq, Eq)]
pub struct QueryPlan {
    pub query_id: String,
    pub sql_query: String,
    pub steps: Vec<QueryStep>,
    pub estimated_cost: u64,
}

/// Makes the plans.
#[derive(Debug)]
pub struct QueryPlanner {}

/// A step as plain values.
pub struct StepView {
    pub step_id: Seq<char>,
    pub step_type: Seq<char>,
    pub description: Seq<char>,
    pub estimated_time_ms: u64,
    pub dependencies: Seq<Seq<char>>,
}

impl View for QueryStep {
    type V = StepView;

    open spec fn view(&self) -> StepView {
        StepView {
            step_id: self.step_id@,
            step_type: self.step_type@,
            description: self.description@,
            estimated_time_ms: self.estimated_time_ms,
            dependencies: texts_of(self.dependencies@),
        }
    }
}

/// The steps of a list as plain values.
pub open spec fn step_views(steps: Seq<QueryStep>) -> Seq<StepView> {
    Seq::new(steps.len(), |i: int| steps[i]@)
}

/// The sum of the times of `steps`.
pub open spec fn total_time(steps: Seq<StepView>) -> nat
    decreases steps.len(),
{
    if steps.len() == 0 {
        0
    } else {
        total_time(steps.drop_last()) + steps.last().estimated_time_ms as nat
    }
}

/// The step that reads the query.
pub open spec fn parse_step() -> StepView {
    StepView {
        step_id: "parse"@,
        step_type: "parser"@,
        description: "Parse SQL query"@,
        estimated_time_ms: 5,
        dependencies: Seq::empty(),
    }
}

/// The step that improves the plan, behind the reading.
pub open spec fn optimize_step(estimated_time_ms: u64) -> StepView {
    StepView {
        step_id: "optimize"@,
        step_type: "optimizer"@,
        description: "Optimize query plan"@,
        estimated_time_ms,
        dependencies: seq!["parse"@],
    }
}

/// The step that finds the shards, behind the improving.
pub open spec fn shard_step() -> StepView {
    StepView {
        step_id: "shard"@,
        step_type: "shard_manager"@,
        description: "Determine shard distribution"@,
        estimated_time_ms: 15,
        dependencies: seq!["optimize"@],
    }
}

/// The step that runs the query on the workers, behind the step `after`.
pub open spec fn execute_step(estimated_time_ms: u64, after: Seq<char>) -> StepView {
    StepView {
        step_id: "execute"@,
        step_type: "executor"@,
        description: "Execute query on workers"@,
        estimated_time_ms,
        dependencies: seq![after],
    }
}

/// The step that puts the workers' results together, behind the running.
pub open spec fn aggregate_step() -> StepView {
    StepView {
        step_id: "aggregate"@,
        step_type: "aggregator"@,
        description: "Aggregate results"@,
        estimated_time_ms: 20,
        dependencies: seq!["execute"@],
    }
}

/// The steps of a query: five where it joins, three where it does not.
pub open spec fn planned_steps(joins: bool) -> Seq<StepView> {
    if joins {
        seq![
            parse_step(),
            optimize_step(10),
            shard_step(),
            execute_step(50, "shard"@),
            aggregate_step(),
        ]
    } else {
        seq![parse_step(), optimize_step(8), execute_step(30, "optimize"@)]
    }
}

/// The cost of a plan: 100 where the query joins, 43 where it does not.
pub open spec fn planned_cost(joins: bool) -> u64 {
    if joins {
        100
    } else {
        43
    }
}

impl QueryStep {
    /// A step of the given values.
    pub fn of(step_id: &str, step_type: &str, description: &str, estimated_time_ms: u64, dependencies: &[&str]) -> (s:
        Self)
        ensures
            s@ == (StepView {
                step_id: step_id@,
                step_type: step_type@,
                description: description@,
                estimated_time_ms,
                dependencies: slices_of(dependencies@),
            }),
    {
        QueryStep {
            step_id: String::from_str(step_id),
            step_type: String::from_str(step_type),
            description: String::from_str(description),
            estimated_time_ms,
            dependencies: owned_texts(dependencies),
        }
    }
}

impl QueryPlanner {
    /// A planner.
    pub fn new() -> (p: Self) {
        QueryPlanner {  }
    }

    /// The plan, named `query_id`, of the query `sql_query`, whose text in
    /// lower case is `lowered`: the longer plan where that text holds the
    /// word `join`.
    pub fn plan_lowered(&self, sql_query: &str, lowered: &str, query_id: String) -> (plan: QueryPlan)
        ensures
            plan.query_id == query_id,
            plan.sql_query@ == sql_query@,
            step_views(plan.steps@) == planned_steps(occurs_in("join"@, lowered@)),
            plan.estimated_cost == planned_cost(occurs_in("join"@, lowered@)),
    {
        let joins = mentions(lowered, "join");
        let mut steps: Vec<QueryStep> = Vec::new();
        steps.push(QueryStep::of("parse", "parser", "Parse SQL query", 5, &[]));
        if joins {
            steps.push(QueryStep::of("optimize", "optimizer", "Optimize query plan", 10, &["parse"]));
            steps.push(
                QueryStep::of("shard", "shard_manager", "Determine shard distribution", 15, &["optimize"]),
            );
            steps.push(QueryStep::of("execute", "executor", "Execute query on workers", 50, &["shard"]));
            steps.push(QueryStep::of("aggregate", "aggregator", "Aggregate results", 20, &["execute"]));
        } else {
            steps.push(QueryStep::of("optimize", "optimizer", "Optimize query plan", 8, &["parse"]));
            steps.push(QueryStep::of("execute", "executor", "Execute query on workers", 30, &["optimize"]));
        }
        proof {
            assert(steps@[0]@.dependencies =~= Seq::<Seq<char>>::empty());
            assert(steps@[0]@ == parse_step());
            assert(steps@[1]@.dependencies =~= seq!["parse"@]);
            if joins {
                assert(steps@[2]@.dependencies =~= seq!["optimize"@]);
                assert(steps@[3]@.dependencies =~= seq!["shard"@]);
                assert(steps@[4]@.dependencies =~= seq!["execute"@]);
            } else {
                assert(steps@[2]@.dependencies =~= seq!["optimize"@]);
            }
            assert(step_views(steps@) =~= planned_steps(joins));
        }
        let estimated_cost: u64 = if joins {
            100
        } else {
            43
        };
        QueryPlan { query_id, sql_query: String::from_str(sql_query), steps, estimated_cost }
    }

    /// The plan of the query `sql_query`, under a fresh random name.
    pub fn plan_query(&self, sql_query: &str) -> (plan: QueryPlan)
        ensures
            plan.query_id@.len() == 36,
            plan.sql_query@ == sql_query@,
            step_views(plan.steps@) == planned_steps(occurs_in("join"@, lowercase_of(sql_query@))),
            plan.estimated_cost == planned_cost(occurs_in("join"@, lowercase_of(sql_query@))),
    {
        let query_id = random_uuid();
        let lowered = lowercase(sql_query);
        self.plan_lowered(sql_query, lowered.as_str(), query_id)
    }
}

/// The cost of a plan is the sum of the times of its steps.
pub proof fn lemma_cost_is_total_time(joins: bool)
    ensures
        planned_cost(joins) == total_time(planned_steps(joins)),
{
    let steps = planned_steps(joins);
    if joins {
        assert(steps.drop_last().drop_last().drop_last().drop_last().drop_last() =~= Seq::<StepView>::empty());
        assert(total_time(steps.drop_last().drop_last().drop_last().drop_last().drop_last()) == 0);
        assert(steps.drop_last().drop_last().drop_last().drop_last().last() == parse_step());
        assert(total_time(steps.drop_last().drop_last().drop_last().drop_last()) == 5);
        assert(total_time(steps.drop_last().drop_last().drop_last()) == 15);
        assert(total_time(steps.drop_last().drop_last()) == 30);
        assert(total_time(steps.drop_last()) == 80);
    } else {
        assert(steps.drop_last().drop_last().drop_last() =~= Seq::<StepView>::empty());
        assert(total_time(steps.drop_last().drop_last().drop_last()) == 0);
        assert(steps.drop_last().drop_last().last() == parse_step());
        assert(total_time(steps.drop_last().drop_last()) == 5);
        assert(total_time(steps.drop_last()) == 13);
    }
}

} // verus!
