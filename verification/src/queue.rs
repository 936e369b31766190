use vstd::prelude::*;
use crate::params::Input;
use crate::tag::{dec_of, u64_to_decimal};

verus! {

/// The three text artifacts a finished solver run produces.
#[derive(Clone, Debug)]
pub struct Output {
    pub pdb_kv: String,
    pub report: String,
    pub log: String,
}

/// A job as the queue service reports it. `id` is the public tag, not the
/// queue service's numeric id.
#[derive(Clone, Debug)]
pub struct Job {
    pub id: String,
    pub status: String,
    pub output: Option<Output>,
    pub created_at: String,
    pub started_at: Option<String>,
    pub ended_at: Option<String>,
    pub expires_after: String,
}

impl Job {
    /// The job view shown to a client: the queue service's record under the
    /// public tag it was asked by. Every other field is kept as reported.
    pub fn with_tag(self, tag: String) -> (r: Job)
        ensures
            r.id == tag,
            r.status == self.status,
            r.output == self.output,
            r.created_at == self.created_at,
            r.started_at == self.started_at,
            r.ended_at == self.ended_at,
            r.expires_after == self.expires_after,
    {
        Job {
            id: tag,
            status: self.status,
            output: self.output,
            created_at: self.created_at,
            started_at: self.started_at,
            ended_at: self.ended_at,
            expires_after: self.expires_after,
        }
    }
}

/// The body posted to the queue service to enqueue a job: the single content
/// tag and the full request envelope.
#[derive(Clone, Debug)]
pub struct EnqueueRequest {
    pub tags: Vec<String>,
    pub input: Input,
}

impl EnqueueRequest {
    /// An enqueue body carrying exactly the given tag and envelope.
    pub fn new(tag: String, input: Input) -> (r: EnqueueRequest)
        ensures
            r.tags@.len() == 1,
            r.tags@[0] == tag,
            r.input == input,
    {
        let mut tags: Vec<String> = Vec::new();
        tags.push(tag);
        EnqueueRequest { tags, input }
    }
}

/// The body reporting a finished job back to the queue service.
#[derive(Clone, Debug)]
pub struct JobOutput {
    pub status: String,
    pub output: Output,
}

impl JobOutput {
    /// A completion report: status `completed` with the run's artifacts.
    pub fn completed(output: Output) -> (r: JobOutput)
        ensures
            r.status@ == "completed"@,
            r.output == output,
    {
        JobOutput { status: String::from_str("completed"), output }
    }
}

/// The body configuring a queue on startup.
#[derive(Clone, Debug)]
pub struct QueueConfigBody {
    pub timeout: String,
    pub expires_after: String,
    pub retries: i32,
}

/// A queue configuration body with the given timeout, expiry and retries.
pub fn queue_settings(timeout: &str, expires_after: &str, retries: i32) -> (r: QueueConfigBody)
    ensures
        r.timeout@ == timeout@,
        r.expires_after@ == expires_after@,
        r.retries == retries,
{
    QueueConfigBody {
        timeout: String::from_str(timeout),
        expires_after: String::from_str(expires_after),
        retries,
    }
}

/// The queue-creation endpoint: `{base}/queue/{name}`.
pub fn queue_url(base: &str, name: &str) -> (r: String)
    ensures
        r@ == base@ + "/queue/"@ + name@,
{
    let mut s = String::from_str(base);
    s.append("/queue/");
    s.append(name);
    s
}

/// The endpoint jobs are enqueued to and leased from:
/// `{base}/queue/{name}/job`.
pub fn queue_job_url(base: &str, name: &str) -> (r: String)
    ensures
        r@ == base@ + "/queue/"@ + name@ + "/job"@,
{
    let mut s = String::from_str(base);
    s.append("/queue/");
    s.append(name);
    s.append("/job");
    s
}

/// The tag-lookup endpoint: `{base}/tag/{tag}`.
pub fn tag_url(base: &str, tag: &str) -> (r: String)
    ensures
        r@ == base@ + "/tag/"@ + tag@,
{
    let mut s = String::from_str(base);
    s.append("/tag/");
    s.append(tag);
    s
}

/// The endpoint of one job's record: `{base}/job/{qid}`.
pub fn job_url(base: &str, qid: u32) -> (r: String)
    ensures
        r@ == base@ + "/job/"@ + dec_of(qid as nat),
{
    let mut s = String::from_str(base);
    s.append("/job/");
    let d = u64_to_decimal(qid as u64);
    s.append(d.as_str());
    s
}

/// The job-fetch endpoint asking for the fields of the job view.
pub fn job_fetch_url(base: &str, qid: u32) -> (r: String)
    ensures
        r@ == base@ + "/job/"@ + dec_of(qid as nat)
            + "?fields=status,output,created_at,started_at,ended_at,expires_after"@,
{
    let mut s = job_url(base, qid);
    s.append("?fields=status,output,created_at,started_at,ended_at,expires_after");
    s
}

} // verus!
