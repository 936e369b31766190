use vstd::prelude::*;
use crate::params::{Input, Settings};
use crate::queue::{JobOutput, Output};
use crate::tag::{dec_of, u64_to_decimal};

verus! {

/// Where the worker finds the solver and where it lays out job directories.
#[derive(Clone, Debug)]
pub struct Config {
    pub kv_path: String,
    pub job_path: String,
}

/// A job as leased from the queue service: its numeric queue id and the
/// request envelope to run.
#[derive(Clone, Debug)]
pub struct JobInput {
    pub id: u32,
    pub input: Input,
}

/// How long the worker sleeps after a failed lease, in seconds.
pub const BACKOFF_SECONDS: u64 = 5;

/// The directory a job's files live in: `{job_path}/{id}`.
pub open spec fn spec_job_directory(job_path: Seq<char>, id: u32) -> Seq<char> {
    job_path + "/"@ + dec_of(id as nat)
}

/// The job-scoped directory for a leased job.
pub fn job_directory(job_path: &str, id: u32) -> (r: String)
    ensures
        r@ == spec_job_directory(job_path@, id),
{
    let mut s = String::from_str(job_path);
    s.append("/");
    let d = u64_to_decimal(id as u64);
    s.append(d.as_str());
    s
}

/// The input files the worker writes into a job directory.
#[derive(Clone, Debug)]
pub struct JobFiles {
    pub params_toml: String,
    pub protein_pdb: String,
    pub ligand_pdb: String,
}

/// The paths of the three input files under the given job directory.
pub fn job_files(dir: &str) -> (r: JobFiles)
    ensures
        r.params_toml@ == dir@ + "/params.toml"@,
        r.protein_pdb@ == dir@ + "/protein.pdb"@,
        r.ligand_pdb@ == dir@ + "/ligand.pdb"@,
{
    let mut params = String::from_str(dir);
    params.append("/params.toml");
    let mut protein = String::from_str(dir);
    protein.append("/protein.pdb");
    let mut ligand = String::from_str(dir);
    ligand.append("/ligand.pdb");
    JobFiles { params_toml: params, protein_pdb: protein, ligand_pdb: ligand }
}

/// The solver invocation for a leased job: program, its one flag and
/// argument, and the directory it runs in.
#[derive(Clone, Debug)]
pub struct SolverCommand {
    pub program: String,
    pub param_flag: String,
    pub param_file: String,
    pub work_dir: String,
}

/// Plans the solver subprocess: `{kv_path}/parKVFinder -p params.toml`, run
/// inside the job directory.
pub fn solver_command(config: &Config, id: u32) -> (r: SolverCommand)
    ensures
        r.program@ == config.kv_path@ + "/parKVFinder"@,
        r.param_flag@ == "-p"@,
        r.param_file@ == "params.toml"@,
        r.work_dir@ == spec_job_directory(config.job_path@, id),
{
    let mut program = String::from_str(config.kv_path.as_str());
    program.append("/parKVFinder");
    SolverCommand {
        program,
        param_flag: String::from_str("-p"),
        param_file: String::from_str("params.toml"),
        work_dir: job_directory(config.job_path.as_str(), id),
    }
}

/// Where a successful run leaves its three artifacts, relative to the job
/// directory.
#[derive(Clone, Debug)]
pub struct ArtifactPaths {
    pub pdb_kv: String,
    pub report: String,
    pub log: String,
}

/// The artifact files the worker reads back after a successful run.
pub fn artifact_paths(config: &Config, id: u32) -> (r: ArtifactPaths)
    ensures
        r.pdb_kv@ == spec_job_directory(config.job_path@, id)
            + "/KV_Files/KVFinderWeb/KVFinderWeb.KVFinder.output.pdb"@,
        r.report@ == spec_job_directory(config.job_path@, id)
            + "/KV_Files/KVFinderWeb/KVFinderWeb.KVFinder.results.toml"@,
        r.log@ == spec_job_directory(config.job_path@, id) + "/KV_Files/KVFinder.log"@,
{
    let dir = job_directory(config.job_path.as_str(), id);
    let mut pdb_kv = String::from_str(dir.as_str());
    pdb_kv.append("/KV_Files/KVFinderWeb/KVFinderWeb.KVFinder.output.pdb");
    let mut report = String::from_str(dir.as_str());
    report.append("/KV_Files/KVFinderWeb/KVFinderWeb.KVFinder.results.toml");
    let mut log = String::from_str(dir.as_str());
    log.append("/KV_Files/KVFinder.log");
    ArtifactPaths { pdb_kv, report, log }
}

/// The structure lines joined as they stand, with one final newline.
pub open spec fn spec_concat_lines(lines: Seq<String>) -> Seq<char>
    decreases lines.len(),
{
    if lines.len() == 0 {
        Seq::empty()
    } else {
        spec_concat_lines(lines.drop_last()) + lines.last()@
    }
}

/// The content of a structure file: the given lines, kept verbatim, followed
/// by one newline.
pub fn pdb_file_content(lines: &Vec<String>) -> (r: String)
    ensures
        r@ == spec_concat_lines(lines@) + "\n"@,
{
    let mut out = String::new();
    let mut i: usize = 0;
    while i < lines.len()
        invariant
            i <= lines@.len(),
            out@ == spec_concat_lines(lines@.subrange(0, i as int)),
        decreases lines@.len() - i,
    {
        proof {
            assert(lines@.subrange(0, i + 1 as int).drop_last() =~= lines@.subrange(0, i as int));
            assert(lines@.subrange(0, i + 1 as int).last() == lines@[i as int]);
        }
        out.append(lines[i].as_str());
        i += 1;
    }
    proof {
        assert(lines@.subrange(0, lines@.len() as int) =~= lines@);
    }
    out.append("\n");
    out
}

/// The file-location block of the solver's parameter file.
#[derive(Clone, Debug)]
pub struct KVFilesPath {
    pub dictionary: String,
    pub pdb: String,
    pub output: String,
    pub base_name: String,
    pub ligand: String,
}

/// The solver's parameter file: a title, where its files live, and the job's
/// settings unchanged.
#[derive(Clone, Debug)]
pub struct KVParameters {
    pub title: String,
    pub files_path: KVFilesPath,
    pub settings: Settings,
}

/// Plans the solver's parameter file for a job: the fixed title, the
/// dictionary under the solver's install root, the job-relative input and
/// output names, and the settings as submitted.
pub fn params_for(kv_path: &str, settings: &Settings) -> (r: KVParameters)
    ensures
        r.title@ == "KVFinder-worker parameters"@,
        r.files_path.dictionary@ == kv_path@ + "/dictionary"@,
        r.files_path.pdb@ == "./protein.pdb"@,
        r.files_path.ligand@ == "./ligand.pdb"@,
        r.files_path.output@ == "./"@,
        r.files_path.base_name@ == "KVFinderWeb"@,
        r.settings == *settings,
{
    let mut dictionary = String::from_str(kv_path);
    dictionary.append("/dictionary");
    KVParameters {
        title: String::from_str("KVFinder-worker parameters"),
        files_path: KVFilesPath {
            dictionary,
            pdb: String::from_str("./protein.pdb"),
            output: String::from_str("./"),
            base_name: String::from_str("KVFinderWeb"),
            ligand: String::from_str("./ligand.pdb"),
        },
        settings: *settings,
    }
}

/// What the worker does after trying to lease a job.
#[derive(Clone, Debug)]
pub enum WorkerAction {
    /// The lease failed: sleep for the backoff and try again.
    Backoff,
    /// A job was leased: run it.
    Run(JobInput),
}

/// The worker's decision after one lease attempt: back off when the queue
/// service could not be reached, otherwise run the leased job.
pub fn plan_lease(leased: Option<JobInput>) -> (r: WorkerAction)
    ensures
        leased is None ==> r is Backoff,
        leased matches Some(j) ==> r == WorkerAction::Run(j),
{
    match leased {
        None => WorkerAction::Backoff,
        Some(j) => WorkerAction::Run(j),
    }
}

/// What the worker does after a run.
#[derive(Clone, Debug)]
pub enum ReportAction {
    /// The run succeeded: report its artifacts as completed.
    Complete(u32, JobOutput),
    /// The run failed: report nothing and lease the next job.
    Skip,
}

/// The worker's decision after running a job: a successful run is reported
/// back as completed under its queue id; a failed run is left unreported.
pub fn plan_report(id: u32, outcome: Option<Output>) -> (r: ReportAction)
    ensures
        outcome is None ==> r is Skip,
        outcome matches Some(out) ==> (r matches ReportAction::Complete(i, body) && i == id
            && body.status@ == "completed"@ && body.output == out),
{
    match outcome {
        None => ReportAction::Skip,
        Some(out) => ReportAction::Complete(id, JobOutput::completed(out)),
    }
}

} // verus!
