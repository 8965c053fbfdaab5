//! The cloud batch bridge: jobs handed to a batch queue, their identifiers
//! and their lifecycle states.
use vstd::prelude::*;
use std::collections::HashMap;
use crate::httputil::{chrono_now_secs, clock_since_epoch};
use crate::text::{owned, string_from_chars};

verus! {

/// Where a submitted job stands.
#[derive(Debug, Clone, PartialEq, Eq)]
pub enum BatchJobStatus {
    Submitted,
    Pending,
    Runnable,
    Starting,
    Running,
    Succeeded,
    Failed(String),
}

/// A job submitted to the batch queue.
#[derive(Debug, Clone)]
pub struct BatchJob {
    pub id: String,
    pub name: String,
    pub status: BatchJobStatus,
    pub created_at: u64,
    pub updated_at: u64,
    pub log_stream: Option<String>,
}

/// A client of one batch queue in one region.
#[derive(Debug)]
pub struct BatchClient {
    pub region: String,
    pub queue: String,
    pub job_definition_prefix: String,
}

/// The lowercase letter a random draw picks.
pub open spec fn letter_of(d: u32) -> char {
    ((97 + d % 26) as u8) as char
}

/// The job id for eight random draws: `job-` and one letter per draw.
pub open spec fn job_id_text(draws: Seq<u32>) -> Seq<char> {
    "job-"@ + draws.map_values(|d: u32| letter_of(d))
}

/// The low 32 bits of the nanoseconds in a clock reading of `secs` seconds
/// and `nanos` nanoseconds.
pub open spec fn nanos_low_bits(secs: u64, nanos: u32) -> int {
    (secs * 1_000_000_000 + nanos) % 0x1_0000_0000
}

/// The low 32 bits of the nanoseconds in the reading `secs`, `nanos`.
fn nanos_low(secs: u64, nanos: u32) -> (n: u32)
    requires
        nanos < 1_000_000_000,
    ensures
        n == nanos_low_bits(secs, nanos),
{
    let total: u128 = (secs as u128) * 1_000_000_000 + (nanos as u128);
    (total % 0x1_0000_0000) as u32
}

/// The low 32 bits of the nanoseconds since the Unix epoch, by the system
/// clock (0 if the clock is before the epoch).
fn clock_nanos_low() -> (n: u32)
    ensures
        exists|secs: u64, nanos: u32| nanos < 1_000_000_000 && n == #[trigger] nanos_low_bits(secs, nanos),
{
    let (secs, nanos) = clock_since_epoch();
    let n = nanos_low(secs, nanos);
    assert(nanos < 1_000_000_000 && n == nanos_low_bits(secs, nanos));
    n
}

/// The job id for the given draws; see `job_id_text`.
pub fn job_id(draws: &[u32]) -> (s: String)
    ensures
        s@ == job_id_text(draws@),
{
    let mut cs: Vec<char> = Vec::new();
    cs.push('j');
    cs.push('o');
    cs.push('b');
    cs.push('-');
    let mut i: usize = 0;
    while i < draws.len()
        invariant
            i <= draws@.len(),
            cs@ == seq!['j', 'o', 'b', '-'] + draws@.take(i as int).map_values(|d: u32| letter_of(d)),
        decreases draws@.len() - i,
    {
        let d = draws[i];
        let c = ((97 + d % 26) as u8) as char;
        cs.push(c);
        proof {
            assert(draws@.take(i + 1).map_values(|d: u32| letter_of(d)) =~= draws@.take(
                i as int,
            ).map_values(|d: u32| letter_of(d)).push(c));
        }
        i = i + 1;
    }
    proof {
        reveal_strlit("job-");
        assert(draws@.take(draws@.len() as int) =~= draws@);
        assert("job-"@ =~= seq!['j', 'o', 'b', '-']);
    }
    string_from_chars(cs)
}

/// The status that a batch service's status name stands for; an unknown
/// name is a failure naming it.
pub open spec fn status_text_of(s: Seq<char>) -> BatchJobStatusView {
    if s == "SUBMITTED"@ {
        BatchJobStatusView::Submitted
    } else if s == "PENDING"@ {
        BatchJobStatusView::Pending
    } else if s == "RUNNABLE"@ {
        BatchJobStatusView::Runnable
    } else if s == "STARTING"@ {
        BatchJobStatusView::Starting
    } else if s == "RUNNING"@ {
        BatchJobStatusView::Running
    } else if s == "SUCCEEDED"@ {
        BatchJobStatusView::Succeeded
    } else {
        BatchJobStatusView::Failed("unknown status: "@ + s)
    }
}

pub enum BatchJobStatusView {
    Submitted,
    Pending,
    Runnable,
    Starting,
    Running,
    Succeeded,
    Failed(Seq<char>),
}

impl View for BatchJobStatus {
    type V = BatchJobStatusView;

    open spec fn view(&self) -> BatchJobStatusView {
        match self {
            BatchJobStatus::Submitted => BatchJobStatusView::Submitted,
            BatchJobStatus::Pending => BatchJobStatusView::Pending,
            BatchJobStatus::Runnable => BatchJobStatusView::Runnable,
            BatchJobStatus::Starting => BatchJobStatusView::Starting,
            BatchJobStatus::Running => BatchJobStatusView::Running,
            BatchJobStatus::Succeeded => BatchJobStatusView::Succeeded,
            BatchJobStatus::Failed(s) => BatchJobStatusView::Failed(s@),
        }
    }
}

/// Reads a batch service's status name; see `status_text_of`.
pub fn status_from_name(s: &str) -> (r: BatchJobStatus)
    ensures
        r@ == status_text_of(s@),
{
    if crate::text::str_eq(s, "SUBMITTED") {
        BatchJobStatus::Submitted
    } else if crate::text::str_eq(s, "PENDING") {
        BatchJobStatus::Pending
    } else if crate::text::str_eq(s, "RUNNABLE") {
        BatchJobStatus::Runnable
    } else if crate::text::str_eq(s, "STARTING") {
        BatchJobStatus::Starting
    } else if crate::text::str_eq(s, "RUNNING") {
        BatchJobStatus::Running
    } else if crate::text::str_eq(s, "SUCCEEDED") {
        BatchJobStatus::Succeeded
    } else {
        let mut m = owned("unknown status: ");
        m.append(s);
        proof {
            reveal_strlit("unknown status: ");
        }
        BatchJobStatus::Failed(m)
    }
}

impl BatchClient {
    pub fn new(region: &str, queue: &str) -> (c: Self)
        ensures
            c.region@ == region@,
            c.queue@ == queue@,
            c.job_definition_prefix@ == "tachy-agent-worker"@,
    {
        BatchClient {
            region: owned(region),
            queue: owned(queue),
            job_definition_prefix: owned("tachy-agent-worker"),
        }
    }

    /// Submits a job: it is accepted as `Submitted`, under a fresh id of
    /// `job-` and eight random lowercase letters, stamped with the clock.
    pub fn submit_job(&self, name: &str, command: Vec<String>, env_vars: HashMap<String, String>) -> (r: Result<
        BatchJob,
        String,
    >)
        ensures
            r matches Ok(job) && {
                &&& job.name@ == name@
                &&& job.status == BatchJobStatus::Submitted
                &&& job.log_stream is None
                &&& exists|draws: Seq<u32>| draws.len() == 8 && job.id@ == job_id_text(draws)
            },
    {
        let mut draws: Vec<u32> = Vec::new();
        let mut i: usize = 0;
        while i < 8
            invariant
                i <= 8,
                draws@.len() == i,
            decreases 8 - i,
        {
            draws.push(clock_nanos_low());
            i = i + 1;
        }
        let id = job_id(draws.as_slice());
        let created_at = chrono_now_secs();
        let updated_at = chrono_now_secs();
        Ok(
            BatchJob {
                id,
                name: owned(name),
                status: BatchJobStatus::Submitted,
                created_at,
                updated_at,
                log_stream: None,
            },
        )
    }
}

} // verus!
