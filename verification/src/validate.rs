use vstd::prelude::*;
use crate::num::{
    Bounds, KEY_FIFTY, KEY_FIVE, KEY_TEN, KEY_THREE_FIFTHS, KEY_ZERO, spec_point_in_bounds,
    point_in_bounds,
};
use crate::params::{Input, Resolution, Settings};

verus! {

/// Why a job description was refused. Every variant carries a fixed message.
#[derive(Clone, Copy, PartialEq, Eq, Structural, Debug)]
pub enum ValidationError {
    /// Whole-protein and box modes were both set or both clear.
    ModesEqual,
    /// The resolution asked for is not offered by the service.
    ResolutionRestricted,
    /// The inner probe radius is outside its interval.
    ProbeInRange,
    /// The outer probe radius is outside its interval.
    ProbeOutRange,
    /// The outer probe is smaller than the inner probe.
    ProbesOrder,
    /// The removal distance is outside its interval.
    RemovalDistanceRange,
    /// The volume cutoff is negative.
    VolumeCutoffRange,
    /// The cavity representation switch is set.
    KvpModeSet,
    /// Ligand mode is set but no ligand was given.
    LigandMissing,
    /// A ligand was given but ligand mode is clear.
    LigandUnexpected,
    /// The ligand cutoff is not positive.
    LigandCutoffRange,
    /// A box vertex lies outside the region it must stay in.
    InconsistentBox,
    /// The protein structure has no atom record to derive boundaries from.
    NoAtomRecords,
    /// An atom record is too short to carry the three coordinate columns.
    MalformedAtomRecord,
}

/// The fixed rejection message of each refusal.
pub open spec fn spec_message(e: ValidationError) -> Seq<char> {
    match e {
        ValidationError::ModesEqual => "Invalid parameters file! Whole protein and box modes cannot be equal!"@,
        ValidationError::ResolutionRestricted => "Invalid parameters file! Resolution mode is restricted to Low option on this web service!"@,
        ValidationError::ProbeInRange => "Invalid parameters file! Probe In must be between 0 and 5!"@,
        ValidationError::ProbeOutRange => "Invalid parameters file! Probe Out must be between 0 and 50!"@,
        ValidationError::ProbesOrder => "Invalid parameters file! Probe Out must be greater than Probe In!"@,
        ValidationError::RemovalDistanceRange => "Invalid parameters file! Removal distance must be between 0 and 10!"@,
        ValidationError::VolumeCutoffRange => "Invalid parameters file! Volume cutoff must be greater than 0!"@,
        ValidationError::KvpModeSet => "Invalid parameters file! Cavity Representation (kvp_mode) must be false on this webservice!"@,
        ValidationError::LigandMissing => "Invalid parameters file! A ligand must be provided when Ligand mode is set to true!"@,
        ValidationError::LigandUnexpected => "Invalid parameters file! The Ligand mode must be set to true when providing a ligand!"@,
        ValidationError::LigandCutoffRange => "Invalid parameters file! Ligand cutoff must be greater than 0!"@,
        ValidationError::InconsistentBox => "Invalid parameters file! Inconsistent box coordinates!"@,
        ValidationError::NoAtomRecords => "Invalid parameters file! No ATOM or HETATM records in the provided PDB!"@,
        ValidationError::MalformedAtomRecord => "Invalid parameters file! Malformed ATOM or HETATM record in the provided PDB!"@,
    }
}

impl ValidationError {
    /// The human-readable reason sent back with a rejection.
    pub fn message(&self) -> (r: String)
        ensures
            r@ == spec_message(*self),
    {
        match self {
            ValidationError::ModesEqual => String::from_str(
                "Invalid parameters file! Whole protein and box modes cannot be equal!",
            ),
            ValidationError::ResolutionRestricted => String::from_str(
                "Invalid parameters file! Resolution mode is restricted to Low option on this web service!",
            ),
            ValidationError::ProbeInRange => String::from_str(
                "Invalid parameters file! Probe In must be between 0 and 5!",
            ),
            ValidationError::ProbeOutRange => String::from_str(
                "Invalid parameters file! Probe Out must be between 0 and 50!",
            ),
            ValidationError::ProbesOrder => String::from_str(
                "Invalid parameters file! Probe Out must be greater than Probe In!",
            ),
            ValidationError::RemovalDistanceRange => String::from_str(
                "Invalid parameters file! Removal distance must be between 0 and 10!",
            ),
            ValidationError::VolumeCutoffRange => String::from_str(
                "Invalid parameters file! Volume cutoff must be greater than 0!",
            ),
            ValidationError::KvpModeSet => String::from_str(
                "Invalid parameters file! Cavity Representation (kvp_mode) must be false on this webservice!",
            ),
            ValidationError::LigandMissing => String::from_str(
                "Invalid parameters file! A ligand must be provided when Ligand mode is set to true!",
            ),
            ValidationError::LigandUnexpected => String::from_str(
                "Invalid parameters file! The Ligand mode must be set to true when providing a ligand!",
            ),
            ValidationError::LigandCutoffRange => String::from_str(
                "Invalid parameters file! Ligand cutoff must be greater than 0!",
            ),
            ValidationError::InconsistentBox => String::from_str(
                "Invalid parameters file! Inconsistent box coordinates!",
            ),
            ValidationError::NoAtomRecords => String::from_str(
                "Invalid parameters file! No ATOM or HETATM records in the provided PDB!",
            ),
            ValidationError::MalformedAtomRecord => String::from_str(
                "Invalid parameters file! Malformed ATOM or HETATM record in the provided PDB!",
            ),
        }
    }
}

/// Exactly one of whole-protein and box mode is set.
pub open spec fn spec_modes_exclusive(s: Settings) -> bool {
    s.modes.whole_protein_mode != s.modes.box_mode
}

/// The resolution is Low, or it is Off and the step size is exactly six
/// tenths.
pub open spec fn spec_resolution_ok(s: Settings) -> bool {
    ||| s.modes.resolution_mode is Low
    ||| (s.modes.resolution_mode is Off && s.step_size.step_size.key == KEY_THREE_FIFTHS)
}

/// Ligand mode is set exactly when a ligand accompanies the request.
pub open spec fn spec_ligand_consistent(input: Input) -> bool {
    input.settings.modes.ligand_mode <==> input.pdb_ligand is Some
}

/// The first violation among the parameter rules, in the order they are
/// applied; `None` when every rule short of the box-geometry rule holds.
pub open spec fn spec_param_error(input: Input) -> Option<ValidationError> {
    let s = input.settings;
    if !spec_modes_exclusive(s) {
        Some(ValidationError::ModesEqual)
    } else if !spec_resolution_ok(s) {
        Some(ValidationError::ResolutionRestricted)
    } else if !s.probes.probe_in.spec_in_range(KEY_ZERO, KEY_FIVE) {
        Some(ValidationError::ProbeInRange)
    } else if !s.probes.probe_out.spec_in_range(KEY_ZERO, KEY_FIFTY) {
        Some(ValidationError::ProbeOutRange)
    } else if s.probes.probe_out.key < s.probes.probe_in.key {
        Some(ValidationError::ProbesOrder)
    } else if !s.cutoffs.removal_distance.spec_in_range(KEY_ZERO, KEY_TEN) {
        Some(ValidationError::RemovalDistanceRange)
    } else if s.cutoffs.volume_cutoff.key < KEY_ZERO {
        Some(ValidationError::VolumeCutoffRange)
    } else if s.modes.kvp_mode {
        Some(ValidationError::KvpModeSet)
    } else if s.modes.ligand_mode && input.pdb_ligand is None {
        Some(ValidationError::LigandMissing)
    } else if !s.modes.ligand_mode && input.pdb_ligand is Some {
        Some(ValidationError::LigandUnexpected)
    } else if s.cutoffs.ligand_cutoff.key <= KEY_ZERO {
        Some(ValidationError::LigandCutoffRange)
    } else {
        None
    }
}

/// The smallest box enclosing the internal box's four vertices, axis by axis.
pub open spec fn spec_internal_hull(s: Settings) -> Bounds {
    let b = s.internalbox;
    Bounds {
        x_min: spec_min4(b.p1.x.key, b.p2.x.key, b.p3.x.key, b.p4.x.key),
        x_max: spec_max4(b.p1.x.key, b.p2.x.key, b.p3.x.key, b.p4.x.key),
        y_min: spec_min4(b.p1.y.key, b.p2.y.key, b.p3.y.key, b.p4.y.key),
        y_max: spec_max4(b.p1.y.key, b.p2.y.key, b.p3.y.key, b.p4.y.key),
        z_min: spec_min4(b.p1.z.key, b.p2.z.key, b.p3.z.key, b.p4.z.key),
        z_max: spec_max4(b.p1.z.key, b.p2.z.key, b.p3.z.key, b.p4.z.key),
    }
}

/// The smallest of four keys, as a value.
pub open spec fn spec_min4(a: u64, b: u64, c: u64, d: u64) -> crate::num::Numeric {
    crate::num::Numeric {
        key: crate::num::spec_min_key(
            crate::num::spec_min_key(a, b),
            crate::num::spec_min_key(c, d),
        ),
    }
}

/// The largest of four keys, as a value.
pub open spec fn spec_max4(a: u64, b: u64, c: u64, d: u64) -> crate::num::Numeric {
    crate::num::Numeric {
        key: crate::num::spec_max_key(
            crate::num::spec_max_key(a, b),
            crate::num::spec_max_key(c, d),
        ),
    }
}

/// The box-geometry rule: every visible-box vertex lies in the hull of the
/// internal box, and every internal-box vertex lies in the protein-derived
/// boundaries.
pub open spec fn spec_boxes_ok(s: Settings, pdb_bounds: Bounds) -> bool {
    let hull = spec_internal_hull(s);
    &&& spec_point_in_bounds(hull, s.visiblebox.p1)
    &&& spec_point_in_bounds(hull, s.visiblebox.p2)
    &&& spec_point_in_bounds(hull, s.visiblebox.p3)
    &&& spec_point_in_bounds(hull, s.visiblebox.p4)
    &&& spec_point_in_bounds(pdb_bounds, s.internalbox.p1)
    &&& spec_point_in_bounds(pdb_bounds, s.internalbox.p2)
    &&& spec_point_in_bounds(pdb_bounds, s.internalbox.p3)
    &&& spec_point_in_bounds(pdb_bounds, s.internalbox.p4)
}

/// What the whole validator returns: the first parameter violation; then,
/// under box mode, the failure of the boundary derivation if it failed, or
/// the box-geometry rule against the derived boundaries.
pub open spec fn spec_check(input: Input, pdb_bounds: Result<Bounds, ValidationError>) -> Result<
    (),
    ValidationError,
> {
    match spec_param_error(input) {
        Some(e) => Err(e),
        None => {
            if input.settings.modes.box_mode {
                match pdb_bounds {
                    Err(e) => Err(e),
                    Ok(b) => {
                        if spec_boxes_ok(input.settings, b) {
                            Ok(())
                        } else {
                            Err(ValidationError::InconsistentBox)
                        }
                    },
                }
            } else {
                Ok(())
            }
        },
    }
}

/// Smaller of two keys.
fn min_key(a: u64, b: u64) -> (r: u64)
    ensures
        r == crate::num::spec_min_key(a, b),
{
    if a <= b {
        a
    } else {
        b
    }
}

/// Larger of two keys.
fn max_key(a: u64, b: u64) -> (r: u64)
    ensures
        r == crate::num::spec_max_key(a, b),
{
    if a >= b {
        a
    } else {
        b
    }
}

/// The enclosing hull of the internal box, computed axis by axis.
fn internal_hull(s: &Settings) -> (r: Bounds)
    ensures
        r == spec_internal_hull(*s),
{
    let b = &s.internalbox;
    Bounds {
        x_min: crate::num::Numeric {
            key: min_key(min_key(b.p1.x.key, b.p2.x.key), min_key(b.p3.x.key, b.p4.x.key)),
        },
        x_max: crate::num::Numeric {
            key: max_key(max_key(b.p1.x.key, b.p2.x.key), max_key(b.p3.x.key, b.p4.x.key)),
        },
        y_min: crate::num::Numeric {
            key: min_key(min_key(b.p1.y.key, b.p2.y.key), min_key(b.p3.y.key, b.p4.y.key)),
        },
        y_max: crate::num::Numeric {
            key: max_key(max_key(b.p1.y.key, b.p2.y.key), max_key(b.p3.y.key, b.p4.y.key)),
        },
        z_min: crate::num::Numeric {
            key: min_key(min_key(b.p1.z.key, b.p2.z.key), min_key(b.p3.z.key, b.p4.z.key)),
        },
        z_max: crate::num::Numeric {
            key: max_key(max_key(b.p1.z.key, b.p2.z.key), max_key(b.p3.z.key, b.p4.z.key)),
        },
    }
}

/// The box-geometry rule on given protein boundaries.
pub fn check_boxes(s: &Settings, pdb_bounds: &Bounds) -> (r: Result<(), ValidationError>)
    ensures
        r == (if spec_boxes_ok(*s, *pdb_bounds) {
            Ok::<(), ValidationError>(())
        } else {
            Err(ValidationError::InconsistentBox)
        }),
{
    let hull = internal_hull(s);
    if !point_in_bounds(&hull, &s.visiblebox.p1) {
        return Err(ValidationError::InconsistentBox);
    }
    if !point_in_bounds(&hull, &s.visiblebox.p2) {
        return Err(ValidationError::InconsistentBox);
    }
    if !point_in_bounds(&hull, &s.visiblebox.p3) {
        return Err(ValidationError::InconsistentBox);
    }
    if !point_in_bounds(&hull, &s.visiblebox.p4) {
        return Err(ValidationError::InconsistentBox);
    }
    if !point_in_bounds(pdb_bounds, &s.internalbox.p1) {
        return Err(ValidationError::InconsistentBox);
    }
    if !point_in_bounds(pdb_bounds, &s.internalbox.p2) {
        return Err(ValidationError::InconsistentBox);
    }
    if !point_in_bounds(pdb_bounds, &s.internalbox.p3) {
        return Err(ValidationError::InconsistentBox);
    }
    if !point_in_bounds(pdb_bounds, &s.internalbox.p4) {
        return Err(ValidationError::InconsistentBox);
    }
    Ok(())
}

/// The parameter rules short of box geometry, applied in order; the first
/// violation is returned.
pub fn check_parameters(input: &Input) -> (r: Result<(), ValidationError>)
    ensures
        r == (match spec_param_error(*input) {
            Some(e) => Err::<(), ValidationError>(e),
            None => Ok(()),
        }),
{
    let s = &input.settings;
    if s.modes.whole_protein_mode == s.modes.box_mode {
        return Err(ValidationError::ModesEqual);
    }
    let resolution_ok = match s.modes.resolution_mode {
        Resolution::Low => true,
        Resolution::Off => s.step_size.step_size.key == KEY_THREE_FIFTHS,
        _ => false,
    };
    if !resolution_ok {
        return Err(ValidationError::ResolutionRestricted);
    }
    if !s.probes.probe_in.in_range(KEY_ZERO, KEY_FIVE) {
        return Err(ValidationError::ProbeInRange);
    }
    if !s.probes.probe_out.in_range(KEY_ZERO, KEY_FIFTY) {
        return Err(ValidationError::ProbeOutRange);
    }
    if s.probes.probe_out.key < s.probes.probe_in.key {
        return Err(ValidationError::ProbesOrder);
    }
    if !s.cutoffs.removal_distance.in_range(KEY_ZERO, KEY_TEN) {
        return Err(ValidationError::RemovalDistanceRange);
    }
    if s.cutoffs.volume_cutoff.key < KEY_ZERO {
        return Err(ValidationError::VolumeCutoffRange);
    }
    if s.modes.kvp_mode {
        return Err(ValidationError::KvpModeSet);
    }
    if s.modes.ligand_mode && input.pdb_ligand.is_none() {
        return Err(ValidationError::LigandMissing);
    }
    if !s.modes.ligand_mode && input.pdb_ligand.is_some() {
        return Err(ValidationError::LigandUnexpected);
    }
    if s.cutoffs.ligand_cutoff.key <= KEY_ZERO {
        return Err(ValidationError::LigandCutoffRange);
    }
    Ok(())
}

impl Input {
    /// The whole validator. `pdb_bounds` is the outcome of deriving the
    /// protein boundaries from this input's structure lines; it is only
    /// consulted under box mode.
    pub fn check(&self, pdb_bounds: &Result<Bounds, ValidationError>) -> (r: Result<
        (),
        ValidationError,
    >)
        ensures
            r == spec_check(*self, *pdb_bounds),
    {
        if let Err(e) = check_parameters(self) {
            return Err(e);
        }
        if self.settings.modes.box_mode {
            match pdb_bounds {
                Err(e) => Err(*e),
                Ok(b) => check_boxes(&self.settings, b),
            }
        } else {
            Ok(())
        }
    }
}

/// The validator is total: whatever it rejects, it rejects with one of the
/// fixed messages, and none of them is empty.
pub proof fn lemma_validator_total(input: Input, pdb_bounds: Result<Bounds, ValidationError>)
    ensures
        spec_check(input, pdb_bounds) matches Err(e) ==> spec_message(e).len() > 0,
{
    reveal_strlit("Invalid parameters file! Whole protein and box modes cannot be equal!");
    reveal_strlit(
        "Invalid parameters file! Resolution mode is restricted to Low option on this web service!",
    );
    reveal_strlit("Invalid parameters file! Probe In must be between 0 and 5!");
    reveal_strlit("Invalid parameters file! Probe Out must be between 0 and 50!");
    reveal_strlit("Invalid parameters file! Probe Out must be greater than Probe In!");
    reveal_strlit("Invalid parameters file! Removal distance must be between 0 and 10!");
    reveal_strlit("Invalid parameters file! Volume cutoff must be greater than 0!");
    reveal_strlit(
        "Invalid parameters file! Cavity Representation (kvp_mode) must be false on this webservice!",
    );
    reveal_strlit(
        "Invalid parameters file! A ligand must be provided when Ligand mode is set to true!",
    );
    reveal_strlit(
        "Invalid parameters file! The Ligand mode must be set to true when providing a ligand!",
    );
    reveal_strlit("Invalid parameters file! Ligand cutoff must be greater than 0!");
    reveal_strlit("Invalid parameters file! Inconsistent box coordinates!");
    reveal_strlit("Invalid parameters file! No ATOM or HETATM records in the provided PDB!");
    reveal_strlit("Invalid parameters file! Malformed ATOM or HETATM record in the provided PDB!");
}

} // verus!
