use kvfinder::frontend::{create_after_lookup, create_begin, hello, last_queue_id, CreateStep};
use kvfinder::num::{Bounds, Numeric};
use kvfinder::params::{BoxVertices, Cutoffs, Input, Modes, Probes, Resolution, Settings, StepSize};
use kvfinder::queue::Job;
use kvfinder::tag::{tag_of, u64_to_decimal};
use kvfinder::validate::ValidationError;

fn key(x: f64) -> u64 {
    let x = if x == 0.0 { 0.0 } else { x };
    let b = x.to_bits();
    if b & (1u64 << 63) != 0 {
        !b
    } else {
        b | (1u64 << 63)
    }
}

fn num(x: f64) -> Numeric {
    Numeric { key: key(x) }
}

fn zero_box() -> BoxVertices {
    let p = kvfinder::num::Point3 { x: num(0.0), y: num(0.0), z: num(0.0) };
    BoxVertices { p1: p, p2: p, p3: p, p4: p }
}

fn valid_input() -> Input {
    Input {
        settings: Settings {
            modes: Modes {
                whole_protein_mode: true,
                box_mode: false,
                resolution_mode: Resolution::Low,
                surface_mode: true,
                kvp_mode: false,
                ligand_mode: false,
            },
            step_size: StepSize { step_size: num(0.6) },
            probes: Probes { probe_in: num(1.4), probe_out: num(4.0) },
            cutoffs: Cutoffs {
                volume_cutoff: num(5.0),
                ligand_cutoff: num(5.0),
                removal_distance: num(2.4),
            },
            visiblebox: zero_box(),
            internalbox: zero_box(),
        },
        pdb: vec![String::from(
            "ATOM      1  N   ALA A   1      11.104   6.134  -6.504  1.00  0.00           N",
        )],
        pdb_ligand: None,
    }
}

fn queued_job(id: &str) -> Job {
    Job {
        id: String::from(id),
        status: String::from("queued"),
        output: None,
        created_at: String::from("2020-01-01T00:00:00Z"),
        started_at: None,
        ended_at: None,
        expires_after: String::from("1d"),
    }
}

#[test]
fn decimal_rendering() {
    assert_eq!(u64_to_decimal(0), "0");
    assert_eq!(u64_to_decimal(7), "7");
    assert_eq!(u64_to_decimal(10), "10");
    assert_eq!(u64_to_decimal(12345), "12345");
    assert_eq!(u64_to_decimal(u64::MAX), "18446744073709551615");
}

#[test]
fn tags_are_deterministic_decimal_strings() {
    let canon = b"{\"settings\":{}}".to_vec();
    let t1 = tag_of(&canon);
    let t2 = tag_of(&canon);
    assert_eq!(t1, t2);
    assert!(!t1.is_empty());
    assert!(t1.chars().all(|c| c.is_ascii_digit()));
    let other = b"{\"settings\":{\"x\":1}}".to_vec();
    assert_ne!(tag_of(&other), t1);
}

#[test]
fn tag_of_the_empty_serialisation_is_the_known_digest() {
    // CityHash64 of the empty byte string.
    assert_eq!(tag_of(&Vec::new()), "11160318154034397263");
}

#[test]
fn greeting() {
    assert_eq!(hello(), "KVFinder Web");
}

#[test]
fn unknown_tag_resolves_to_nothing() {
    let ids: Vec<u32> = vec![];
    assert_eq!(last_queue_id(&ids), None);
}

#[test]
fn latest_queue_id_wins() {
    assert_eq!(last_queue_id(&vec![4]), Some(4));
    assert_eq!(last_queue_id(&vec![4, 9, 17]), Some(17));
}

#[test]
fn job_view_carries_the_public_tag() {
    let job = queued_job("ignored-internal");
    let viewed = job.with_tag(String::from("8077399887167959166"));
    assert_eq!(viewed.id, "8077399887167959166");
    assert_eq!(viewed.status, "queued");
    assert_eq!(viewed.expires_after, "1d");
    assert!(viewed.output.is_none());
}

#[test]
fn submission_of_a_valid_input_is_tagged() {
    let input = valid_input();
    let canon = b"canonical-json-of-the-input".to_vec();
    let bounds: Result<Bounds, ValidationError> = Err(ValidationError::InconsistentBox);
    let tag = create_begin(&input, &bounds, &canon).unwrap();
    assert_eq!(tag, tag_of(&canon));
}

#[test]
fn submission_of_an_invalid_input_keeps_the_rule_error() {
    let mut input = valid_input();
    input.settings.modes.box_mode = true;
    let canon = b"irrelevant".to_vec();
    let bounds: Result<Bounds, ValidationError> = Err(ValidationError::InconsistentBox);
    assert_eq!(
        create_begin(&input, &bounds, &canon).unwrap_err(),
        ValidationError::ModesEqual
    );
    let mut mismatch = valid_input();
    mismatch.settings.modes.ligand_mode = true;
    assert_eq!(
        create_begin(&mismatch, &bounds, &canon).unwrap_err(),
        ValidationError::LigandMissing
    );
}

#[test]
fn new_tag_is_enqueued_with_that_tag() {
    let input = valid_input();
    let canon = b"canonical-json-of-the-input".to_vec();
    let bounds: Result<Bounds, ValidationError> = Err(ValidationError::InconsistentBox);
    let tag = create_begin(&input, &bounds, &canon).unwrap();
    match create_after_lookup(tag.clone(), input, None) {
        CreateStep::Enqueue(req) => {
            assert_eq!(req.tags.len(), 1);
            assert_eq!(req.tags[0], tag);
        }
        CreateStep::Respond(_) => panic!("a new tag must be enqueued"),
    }
}

#[test]
fn repeated_submission_answers_with_the_existing_job() {
    let input = valid_input();
    let canon = b"canonical-json-of-the-input".to_vec();
    let bounds: Result<Bounds, ValidationError> = Err(ValidationError::InconsistentBox);

    let first_tag = create_begin(&input, &bounds, &canon).unwrap();
    let second_tag = create_begin(&input.clone(), &bounds, &canon).unwrap();
    assert_eq!(first_tag, second_tag);

    let existing = queued_job("queue-internal").with_tag(first_tag.clone());
    match create_after_lookup(second_tag, input, Some(existing)) {
        CreateStep::Respond(job) => {
            assert_eq!(job.id, first_tag);
            assert!(["queued", "running", "completed"].contains(&job.status.as_str()));
        }
        CreateStep::Enqueue(_) => panic!("a known tag must not be enqueued again"),
    }
}
