//! The watchdog: its configuration and how long a task may run.
use vstd::prelude::*;

verus! {

/// Where the rate limiter's counters are kept.
pub struct CacheConfig {
    pub event_throughput_key: String,
    pub api_throughput_key: String,
}

/// Where the tasks are stored.
pub struct DatabaseConfig {
    pub event_db_url: String,
    pub event_db_name: String,
}

/// How often the watchdog runs, how long its requests may take and how
/// many tasks it takes each round.
pub struct WatchdogConfig {
    pub rate_limiter_refresh_interval: u64,
    pub http_client_timeout_secs: u64,
    pub max_amount_of_tasks_to_process: u64,
    pub redis: CacheConfig,
    pub db: DatabaseConfig,
}

impl WatchdogConfig {
    /// The configuration when the environment sets none of the watchdog's own
    /// variables: a 10 second refresh, a 10 second timeout, 100 tasks a round.
    pub fn with_defaults(redis: CacheConfig, db: DatabaseConfig) -> (r: WatchdogConfig)
        ensures
            r.rate_limiter_refresh_interval == 10,
            r.http_client_timeout_secs == 10,
            r.max_amount_of_tasks_to_process == 100,
            r.redis == redis,
            r.db == db,
    {
        WatchdogConfig {
            rate_limiter_refresh_interval: 10,
            http_client_timeout_secs: 10,
            max_amount_of_tasks_to_process: 100,
            redis,
            db,
        }
    }
}

/// Which tasks a round of the watchdog takes: the active ones that no worker
/// holds (worker 0) and whose start time has come, at most `limit` of them.
pub struct DueTasksQuery {
    pub active: bool,
    pub worker_id: i64,
    pub start_time_at_most: i64,
    pub limit: u64,
}

/// What a task that a round took is marked with: held by worker 1, and no
/// longer active.
pub struct TaskClaim {
    pub worker_id: i64,
    pub active: bool,
}

impl WatchdogConfig {
    /// The tasks due at `now_millis`, as many as a round may take.
    pub fn due_tasks(&self, now_millis: i64) -> (r: DueTasksQuery)
        ensures
            r.active,
            r.worker_id == 0,
            r.start_time_at_most == now_millis,
            r.limit == self.max_amount_of_tasks_to_process,
    {
        DueTasksQuery {
            active: true,
            worker_id: 0,
            start_time_at_most: now_millis,
            limit: self.max_amount_of_tasks_to_process,
        }
    }
}

/// How the tasks a round took are marked.
pub fn task_claim() -> (r: TaskClaim)
    ensures
        r.worker_id == 1,
        !r.active,
{
    TaskClaim { worker_id: 1, active: false }
}

/// How long a task's request may take, in seconds: five minutes for a task
/// whose caller waits for it, the configured timeout otherwise.
pub fn task_timeout_secs(awaits: bool, timeout: u64) -> (r: u64)
    ensures
        r == if awaits {
            300
        } else {
            timeout
        },
{
    if awaits {
        300
    } else {
        timeout
    }
}

} // verus!
