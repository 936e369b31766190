use vstd::prelude::*;
use crate::num::{Numeric, Point3};

verus! {

/// Grid resolution of the solver. The service restricts which variants a job
/// may ask for.
#[derive(Clone, Copy, PartialEq, Eq, Structural, Debug)]
pub enum Resolution {
    Low,
    Medium,
    High,
    Off,
}

/// The boolean switches of a job together with its resolution.
#[derive(Clone, Copy, PartialEq, Eq, Structural, Debug)]
pub struct Modes {
    pub whole_protein_mode: bool,
    pub box_mode: bool,
    pub resolution_mode: Resolution,
    pub surface_mode: bool,
    pub kvp_mode: bool,
    pub ligand_mode: bool,
}

/// Grid step of the solver.
#[derive(Clone, Copy, PartialEq, Eq, Structural, Debug)]
pub struct StepSize {
    pub step_size: Numeric,
}

/// Inner and outer probe radii.
#[derive(Clone, Copy, PartialEq, Eq, Structural, Debug)]
pub struct Probes {
    pub probe_in: Numeric,
    pub probe_out: Numeric,
}

/// Volume, ligand and removal thresholds.
#[derive(Clone, Copy, PartialEq, Eq, Structural, Debug)]
pub struct Cutoffs {
    pub volume_cutoff: Numeric,
    pub ligand_cutoff: Numeric,
    pub removal_distance: Numeric,
}

/// Four vertices spanning a box region.
#[derive(Clone, Copy, PartialEq, Eq, Structural, Debug)]
pub struct BoxVertices {
    pub p1: Point3,
    pub p2: Point3,
    pub p3: Point3,
    pub p4: Point3,
}

/// The full nested parameter record of a job.
#[derive(Clone, Copy, PartialEq, Eq, Structural, Debug)]
pub struct Settings {
    pub modes: Modes,
    pub step_size: StepSize,
    pub probes: Probes,
    pub cutoffs: Cutoffs,
    pub visiblebox: BoxVertices,
    pub internalbox: BoxVertices,
}

/// The immutable request envelope: parameters, the protein structure as one
/// text line per atom record, and optionally a ligand structure.
#[derive(Clone, Debug)]
pub struct Input {
    pub settings: Settings,
    pub pdb: Vec<String>,
    pub pdb_ligand: Option<Vec<String>>,
}

} // verus!
