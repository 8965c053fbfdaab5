use std::collections::HashMap;
use tachy_daemon::batch::{job_id, status_from_name, BatchClient, BatchJobStatus};

#[test]
fn client_defaults() {
    let c = BatchClient::new("us-east-1", "gpu-queue");
    assert_eq!(c.region, "us-east-1");
    assert_eq!(c.queue, "gpu-queue");
    assert_eq!(c.job_definition_prefix, "tachy-agent-worker");
}

#[test]
fn submitted_job_has_fresh_id() {
    let c = BatchClient::new("r", "q");
    let job = c.submit_job("train", vec!["run".to_string()], HashMap::new()).unwrap();
    assert_eq!(job.name, "train");
    assert_eq!(job.status, BatchJobStatus::Submitted);
    assert!(job.log_stream.is_none());
    assert_eq!(job.id.len(), 12);
    assert!(job.id.starts_with("job-"));
    assert!(job.id[4..].chars().all(|c| c.is_ascii_lowercase()));
}

#[test]
fn job_ids_from_draws() {
    assert_eq!(job_id(&[0, 1, 25, 26, 27, 51, 52, 100]), "job-abzabzaw");
}

#[test]
fn status_names() {
    assert_eq!(status_from_name("SUBMITTED"), BatchJobStatus::Submitted);
    assert_eq!(status_from_name("PENDING"), BatchJobStatus::Pending);
    assert_eq!(status_from_name("RUNNABLE"), BatchJobStatus::Runnable);
    assert_eq!(status_from_name("STARTING"), BatchJobStatus::Starting);
    assert_eq!(status_from_name("RUNNING"), BatchJobStatus::Running);
    assert_eq!(status_from_name("SUCCEEDED"), BatchJobStatus::Succeeded);
    assert_eq!(status_from_name("FAILED"), BatchJobStatus::Failed("unknown status: FAILED".to_string()));
}
