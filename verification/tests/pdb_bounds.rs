use kvfinder::num::{Numeric, Point3};
use kvfinder::pdb::{atom_bounds, atom_coord_texts, contains_substr};
use kvfinder::validate::ValidationError;

fn key(x: f64) -> u64 {
    let x = if x == 0.0 { 0.0 } else { x };
    let b = x.to_bits();
    if b & (1u64 << 63) != 0 {
        !b
    } else {
        b | (1u64 << 63)
    }
}

fn num(x: f64) -> Numeric {
    Numeric { key: key(x) }
}

fn point(x: f64, y: f64, z: f64) -> Point3 {
    Point3 { x: num(x), y: num(y), z: num(z) }
}

const ATOM_LINE: &str =
    "ATOM      1  N   ALA A   1      11.104   6.134  -6.504  1.00  0.00           N";

#[test]
fn substring_search() {
    assert!(contains_substr(ATOM_LINE, "ATOM"));
    assert!(!contains_substr(ATOM_LINE, "HETATM"));
    assert!(contains_substr("xxHETATMyy", "HETATM"));
    assert!(!contains_substr("HETAT", "HETATM"));
    assert!(contains_substr("anything", ""));
}

#[test]
fn coordinates_are_cut_from_fixed_columns() {
    let pdb = vec![
        String::from("REMARK nothing here"),
        String::from(ATOM_LINE),
        String::from("TER"),
        String::from("HETATM 1301  O   HOH A 401     -12.000   0.500  30.250  1.00  0.00       O"),
    ];
    let texts = atom_coord_texts(&pdb).unwrap();
    assert_eq!(texts.len(), 2);
    assert_eq!(texts[0].x, "11.104");
    assert_eq!(texts[0].y, "6.134");
    assert_eq!(texts[0].z, "-6.504");
    assert_eq!(texts[1].x, "-12.000");
    assert_eq!(texts[1].y, "0.500");
    assert_eq!(texts[1].z, "30.250");
}

#[test]
fn short_atom_record_is_refused() {
    let pdb = vec![String::from("ATOM short")];
    assert_eq!(atom_coord_texts(&pdb), Err(ValidationError::MalformedAtomRecord));
}

#[test]
fn lines_without_atom_records_yield_nothing() {
    let pdb = vec![String::from("REMARK"), String::from("TER")];
    let texts = atom_coord_texts(&pdb).unwrap();
    assert!(texts.is_empty());
}

#[test]
fn bounds_of_no_atoms_is_refused() {
    let atoms: Vec<Point3> = vec![];
    assert_eq!(atom_bounds(&atoms), Err(ValidationError::NoAtomRecords));
}

#[test]
fn bounds_cover_every_atom() {
    let atoms = vec![
        point(1.0, -5.0, 2.0),
        point(-3.5, 7.0, 2.0),
        point(0.0, 0.0, -9.25),
    ];
    let b = atom_bounds(&atoms).unwrap();
    assert_eq!(b.x_min, num(-3.5));
    assert_eq!(b.x_max, num(1.0));
    assert_eq!(b.y_min, num(-5.0));
    assert_eq!(b.y_max, num(7.0));
    assert_eq!(b.z_min, num(-9.25));
    assert_eq!(b.z_max, num(2.0));
}

#[test]
fn bounds_of_one_atom_collapse_to_it() {
    let atoms = vec![point(4.5, -1.0, 0.0)];
    let b = atom_bounds(&atoms).unwrap();
    assert_eq!(b.x_min, b.x_max);
    assert_eq!(b.x_min, num(4.5));
    assert_eq!(b.y_min, num(-1.0));
    assert_eq!(b.z_max, num(0.0));
}
