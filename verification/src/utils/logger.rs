//! The lines that the engine writes to its log. The library words them;
//! writing them out is left to the program.

use crate::text::{decimal, push_decimal};
use vstd::prelude::*;
use vstd::string::StringExecFns;

verus! {

/// Words the log lines.
pub struct Logger;

impl Logger {
    /// A query has started.
    pub fn query_start(query_id: &str, sql: &str) -> (line: String)
        ensures
            line@ == "Query started: "@ + query_id@ + " - "@ + sql@,
    {
        let mut line = String::from_str("Query started: ");
        line.append(query_id);
        line.append(" - ");
        line.append(sql);
        proof {
            assert(line@ =~= "Query started: "@ + query_id@ + " - "@ + sql@);
        }
        line
    }

    /// A query is done.
    pub fn query_complete(query_id: &str, execution_time_ms: u64) -> (line: String)
        ensures
            line@ == "Query completed: "@ + query_id@ + " - "@ + decimal(execution_time_ms as nat) + "ms"@,
    {
        let mut line = String::from_str("Query completed: ");
        line.append(query_id);
        line.append(" - ");
        push_decimal(&mut line, execution_time_ms);
        line.append("ms");
        proof {
            assert(line@ =~= "Query completed: "@ + query_id@ + " - "@ + decimal(execution_time_ms as nat) + "ms"@);
        }
        line
    }

    /// A query went to a worker.
    pub fn query_dispatch(query_id: &str, worker_id: &str) -> (line: String)
        ensures
            line@ == "Query dispatched: "@ + query_id@ + " -> "@ + worker_id@,
    {
        let mut line = String::from_str("Query dispatched: ");
        line.append(query_id);
        line.append(" -> ");
        line.append(worker_id);
        proof {
            assert(line@ =~= "Query dispatched: "@ + query_id@ + " -> "@ + worker_id@);
        }
        line
    }

    /// A worker has started a task.
    pub fn worker_task_start(worker_id: &str, task_id: &str) -> (line: String)
        ensures
            line@ == "Worker task started: "@ + worker_id@ + " - "@ + task_id@,
    {
        let mut line = String::from_str("Worker task started: ");
        line.append(worker_id);
        line.append(" - ");
        line.append(task_id);
        proof {
            assert(line@ =~= "Worker task started: "@ + worker_id@ + " - "@ + task_id@);
        }
        line
    }

    /// A worker has finished a task.
    pub fn worker_task_complete(worker_id: &str, task_id: &str, execution_time_ms: u64) -> (line: String)
        ensures
            line@ == "Worker task completed: "@ + worker_id@ + " - "@ + task_id@ + " - "@ + decimal(execution_time_ms as nat) + "ms"@,
    {
        let mut line = String::from_str("Worker task completed: ");
        line.append(worker_id);
        line.append(" - ");
        line.append(task_id);
        line.append(" - ");
        push_decimal(&mut line, execution_time_ms);
        line.append("ms");
        proof {
            assert(line@ =~= "Worker task completed: "@ + worker_id@ + " - "@ + task_id@ + " - "@ + decimal(execution_time_ms as nat) + "ms"@);
        }
        line
    }

    /// Something happened to a shard.
    pub fn shard_operation(operation: &str, shard_id: &str, details: &str) -> (line: String)
        ensures
            line@ == "Shard operation: "@ + operation@ + " - "@ + shard_id@ + " - "@ + details@,
    {
        let mut line = String::from_str("Shard operation: ");
        line.append(operation);
        line.append(" - ");
        line.append(shard_id);
        line.append(" - ");
        line.append(details);
        proof {
            assert(line@ =~= "Shard operation: "@ + operation@ + " - "@ + shard_id@ + " - "@ + details@);
        }
        line
    }

    /// A component has started.
    pub fn system_startup(component: &str, port: u16) -> (line: String)
        ensures
            line@ == "System startup: "@ + component@ + " on port "@ + decimal(port as nat),
    {
        let mut line = String::from_str("System startup: ");
        line.append(component);
        line.append(" on port ");
        push_decimal(&mut line, port as u64);
        proof {
            assert(line@ =~= "System startup: "@ + component@ + " on port "@ + decimal(port as nat));
        }
        line
    }

    /// A component has stopped.
    pub fn system_shutdown(component: &str) -> (line: String)
        ensures
            line@ == "System shutdown: "@ + component@,
    {
        let mut line = String::from_str("System shutdown: ");
        line.append(component);
        proof {
            assert(line@ =~= "System shutdown: "@ + component@);
        }
        line
    }

    /// An error, with where it happened.
    pub fn error_with_context(context: &str, error: &str) -> (line: String)
        ensures
            line@ == context@ + ": "@ + error@,
    {
        let mut line = String::new();
        line.append(context);
        line.append(": ");
        line.append(error);
        proof {
            assert(line@ =~= context@ + ": "@ + error@);
        }
        line
    }

    /// A warning, with where it happened.
    pub fn warning_with_context(context: &str, warning: &str) -> (line: String)
        ensures
            line@ == context@ + ": "@ + warning@,
    {
        let mut line = String::new();
        line.append(context);
        line.append(": ");
        line.append(warning);
        proof {
            assert(line@ =~= context@ + ": "@ + warning@);
        }
        line
    }

    /// A line for debugging.
    pub fn debug_info(message: &str) -> (line: String)
        ensures
            line@ == message@,
    {
        let mut line = String::new();
        line.append(message);
        proof {
            assert(line@ =~= message@);
        }
        line
    }

    /// A line for tracing.
    pub fn trace_info(message: &str) -> (line: String)
        ensures
            line@ == message@,
    {
        let mut line = String::new();
        line.append(message);
        proof {
            assert(line@ =~= message@);
        }
        line
    }
}

} // verus!
