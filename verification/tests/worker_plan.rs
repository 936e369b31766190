use kvfinder::num::Numeric;
use kvfinder::params::{BoxVertices, Cutoffs, Modes, Probes, Resolution, Settings, StepSize};
use kvfinder::queue::{
    job_fetch_url, job_url, queue_job_url, queue_settings, queue_url, tag_url, JobOutput, Output,
};
use kvfinder::worker::{
    artifact_paths, job_directory, job_files, params_for, pdb_file_content, plan_lease,
    plan_report, solver_command, Config, JobInput, ReportAction, WorkerAction, BACKOFF_SECONDS,
};

fn key(x: f64) -> u64 {
    let x = if x == 0.0 { 0.0 } else { x };
    let b = x.to_bits();
    if b & (1u64 << 63) != 0 {
        !b
    } else {
        b | (1u64 << 63)
    }
}

fn num(x: f64) -> Numeric {
    Numeric { key: key(x) }
}

fn settings() -> Settings {
    let p = kvfinder::num::Point3 { x: num(0.0), y: num(0.0), z: num(0.0) };
    let b = BoxVertices { p1: p, p2: p, p3: p, p4: p };
    Settings {
        modes: Modes {
            whole_protein_mode: true,
            box_mode: false,
            resolution_mode: Resolution::Low,
            surface_mode: true,
            kvp_mode: false,
            ligand_mode: false,
        },
        step_size: StepSize { step_size: num(0.6) },
        probes: Probes { probe_in: num(1.4), probe_out: num(4.0) },
        cutoffs: Cutoffs {
            volume_cutoff: num(5.0),
            ligand_cutoff: num(5.0),
            removal_distance: num(2.4),
        },
        visiblebox: b,
        internalbox: b,
    }
}

fn config() -> Config {
    Config { kv_path: String::from("/opt/kvf"), job_path: String::from("/var/jobs") }
}

#[test]
fn queue_endpoints() {
    let base = "http://ocypod:8023";
    assert_eq!(queue_url(base, "kvfinder"), "http://ocypod:8023/queue/kvfinder");
    assert_eq!(queue_job_url(base, "kvfinder"), "http://ocypod:8023/queue/kvfinder/job");
    assert_eq!(tag_url(base, "8077399887167959166"), "http://ocypod:8023/tag/8077399887167959166");
    assert_eq!(job_url(base, 17), "http://ocypod:8023/job/17");
    assert_eq!(
        job_fetch_url(base, 17),
        "http://ocypod:8023/job/17?fields=status,output,created_at,started_at,ended_at,expires_after"
    );
}

#[test]
fn queue_configuration_body() {
    let body = queue_settings("30m", "1d", 0);
    assert_eq!(body.timeout, "30m");
    assert_eq!(body.expires_after, "1d");
    assert_eq!(body.retries, 0);
}

#[test]
fn job_directory_is_named_by_the_queue_id() {
    assert_eq!(job_directory("/var/jobs", 42), "/var/jobs/42");
    assert_eq!(job_directory("/var/jobs", 0), "/var/jobs/0");
}

#[test]
fn job_input_files() {
    let files = job_files("/var/jobs/42");
    assert_eq!(files.params_toml, "/var/jobs/42/params.toml");
    assert_eq!(files.protein_pdb, "/var/jobs/42/protein.pdb");
    assert_eq!(files.ligand_pdb, "/var/jobs/42/ligand.pdb");
}

#[test]
fn solver_invocation() {
    let cmd = solver_command(&config(), 42);
    assert_eq!(cmd.program, "/opt/kvf/parKVFinder");
    assert_eq!(cmd.param_flag, "-p");
    assert_eq!(cmd.param_file, "params.toml");
    assert_eq!(cmd.work_dir, "/var/jobs/42");
}

#[test]
fn artifact_locations() {
    let a = artifact_paths(&config(), 42);
    assert_eq!(a.pdb_kv, "/var/jobs/42/KV_Files/KVFinderWeb/KVFinderWeb.KVFinder.output.pdb");
    assert_eq!(a.report, "/var/jobs/42/KV_Files/KVFinderWeb/KVFinderWeb.KVFinder.results.toml");
    assert_eq!(a.log, "/var/jobs/42/KV_Files/KVFinder.log");
}

#[test]
fn structure_file_content_keeps_lines_verbatim() {
    let lines = vec![String::from("ATOM a\n"), String::from("ATOM b\n")];
    assert_eq!(pdb_file_content(&lines), "ATOM a\nATOM b\n\n");
    let empty: Vec<String> = vec![];
    assert_eq!(pdb_file_content(&empty), "\n");
    let unterminated = vec![String::from("x"), String::from("y")];
    assert_eq!(pdb_file_content(&unterminated), "xy\n");
}

#[test]
fn parameter_file_plan() {
    let p = params_for("/opt/kvf", &settings());
    assert_eq!(p.title, "KVFinder-worker parameters");
    assert_eq!(p.files_path.dictionary, "/opt/kvf/dictionary");
    assert_eq!(p.files_path.pdb, "./protein.pdb");
    assert_eq!(p.files_path.ligand, "./ligand.pdb");
    assert_eq!(p.files_path.output, "./");
    assert_eq!(p.files_path.base_name, "KVFinderWeb");
    assert_eq!(p.settings, settings());
}

#[test]
fn lease_failure_backs_off() {
    assert!(matches!(plan_lease(None), WorkerAction::Backoff));
    assert_eq!(BACKOFF_SECONDS, 5);
}

#[test]
fn leased_job_is_run() {
    let job = JobInput {
        id: 7,
        input: kvfinder::params::Input {
            settings: settings(),
            pdb: vec![String::from("ATOM")],
            pdb_ligand: None,
        },
    };
    match plan_lease(Some(job)) {
        WorkerAction::Run(j) => assert_eq!(j.id, 7),
        WorkerAction::Backoff => panic!("a leased job must be run"),
    }
}

#[test]
fn successful_run_is_reported_completed() {
    let output = Output {
        pdb_kv: String::from("pdb artifact"),
        report: String::from("report artifact"),
        log: String::from("log artifact"),
    };
    match plan_report(9, Some(output)) {
        ReportAction::Complete(id, body) => {
            assert_eq!(id, 9);
            assert_eq!(body.status, "completed");
            assert_eq!(body.output.pdb_kv, "pdb artifact");
            assert_eq!(body.output.report, "report artifact");
            assert_eq!(body.output.log, "log artifact");
        }
        ReportAction::Skip => panic!("a successful run must be reported"),
    }
}

#[test]
fn failed_run_is_not_reported() {
    assert!(matches!(plan_report(9, None), ReportAction::Skip));
}

#[test]
fn completion_body_shape() {
    let body = JobOutput::completed(Output {
        pdb_kv: String::new(),
        report: String::new(),
        log: String::new(),
    });
    assert_eq!(body.status, "completed");
}
