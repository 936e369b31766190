use vstd::prelude::*;
use crate::num::{Bounds, Point3};
use crate::validate::ValidationError;

verus! {

/// `t` occurs contiguously somewhere in `s`.
pub open spec fn spec_has_substr(s: Seq<char>, t: Seq<char>) -> bool {
    exists|i: int| 0 <= i <= s.len() - t.len() && #[trigger] s.subrange(i, i + t.len() as int) == t
}

fn match_at(s: &str, t: &str, i: usize) -> (r: bool)
    requires
        i + t@.len() <= s@.len(),
        s@.len() <= usize::MAX,
    ensures
        r == (s@.subrange(i as int, i + t@.len() as int) == t@),
{
    let m = t.unicode_len();
    let mut j: usize = 0;
    while j < m
        invariant
            j <= m,
            m == t@.len(),
            i + m <= s@.len(),
            s@.len() <= usize::MAX,
            forall|k: int| 0 <= k < j ==> s@[i + k] == t@[k],
        decreases m - j,
    {
        if s.get_char(i + j) != t.get_char(j) {
            assert(s@.subrange(i as int, i + t@.len() as int)[j as int] != t@[j as int]);
            return false;
        }
        j += 1;
    }
    assert(s@.subrange(i as int, i + t@.len() as int) =~= t@);
    true
}

/// Whether `t` occurs as a substring of `s`.
pub fn contains_substr(s: &str, t: &str) -> (r: bool)
    ensures
        r == spec_has_substr(s@, t@),
{
    let n = s.unicode_len();
    let m = t.unicode_len();
    if m > n {
        return false;
    }
    if m == 0 {
        assert(s@.subrange(0, 0 + t@.len() as int) =~= t@);
        return true;
    }
    let mut i: usize = 0;
    while i <= n - m
        invariant
            n == s@.len(),
            m == t@.len(),
            0 < m <= n,
            i <= n - m + 1,
            forall|j: int| 0 <= j < i ==> #[trigger] s@.subrange(j, j + t@.len() as int) != t@,
        decreases n - m + 1 - i,
    {
        if match_at(s, t, i) {
            return true;
        }
        i += 1;
    }
    false
}

/// A blank character the coordinate columns are stripped of.
pub open spec fn spec_is_blank(c: char) -> bool {
    c == ' ' || c == '\t' || c == '\r' || c == '\n' || c == '\u{000B}' || c == '\u{000C}'
}

fn is_blank(c: char) -> (r: bool)
    ensures
        r == spec_is_blank(c),
{
    c == ' ' || c == '\t' || c == '\r' || c == '\n' || c == '\u{000B}' || c == '\u{000C}'
}

/// `s` with every blank character removed.
pub open spec fn spec_strip_blanks(s: Seq<char>) -> Seq<char>
    decreases s.len(),
{
    if s.len() == 0 {
        Seq::empty()
    } else {
        spec_strip_blanks(s.drop_last()) + (if spec_is_blank(s.last()) {
            Seq::empty()
        } else {
            seq![s.last()]
        })
    }
}

/// Relies on `String::push`: appends one character at the end.
#[verifier::external_body]
fn push_char(s: &mut String, c: char)
    ensures
        final(s)@ == old(s)@ + seq![c],
{
    s.push(c);
}

fn strip_blanks(s: &str) -> (r: String)
    ensures
        r@ == spec_strip_blanks(s@),
{
    let n = s.unicode_len();
    let mut out = String::new();
    let mut i: usize = 0;
    while i < n
        invariant
            i <= n,
            n == s@.len(),
            out@ == spec_strip_blanks(s@.subrange(0, i as int)),
        decreases n - i,
    {
        let c = s.get_char(i);
        proof {
            assert(s@.subrange(0, i + 1 as int).drop_last() =~= s@.subrange(0, i as int));
            assert(s@.subrange(0, i + 1 as int).last() == s@[i as int]);
        }
        if !is_blank(c) {
            push_char(&mut out, c);
        }
        i += 1;
    }
    proof {
        assert(s@.subrange(0, n as int) =~= s@);
    }
    out
}

/// A line holding an atom record: it carries the token `ATOM` or `HETATM`.
pub open spec fn spec_line_qualifies(line: Seq<char>) -> bool {
    spec_has_substr(line, "ATOM"@) || spec_has_substr(line, "HETATM"@)
}

/// The three coordinate columns of an atom record, blanks stripped: x from
/// columns 30 to 38, y from 38 to 46, z from 46 to 54.
pub open spec fn spec_coord_triple(line: Seq<char>) -> (Seq<char>, Seq<char>, Seq<char>) {
    (
        spec_strip_blanks(line.subrange(30, 38)),
        spec_strip_blanks(line.subrange(38, 46)),
        spec_strip_blanks(line.subrange(46, 54)),
    )
}

/// The coordinate columns of every atom record, in line order.
pub open spec fn spec_coords(lines: Seq<String>) -> Seq<(Seq<char>, Seq<char>, Seq<char>)>
    decreases lines.len(),
{
    if lines.len() == 0 {
        Seq::empty()
    } else {
        spec_coords(lines.drop_last()) + (if spec_line_qualifies(lines.last()@) {
            seq![spec_coord_triple(lines.last()@)]
        } else {
            Seq::empty()
        })
    }
}

/// Every atom record is long enough to carry its coordinate columns.
pub open spec fn spec_lines_ok(lines: Seq<String>) -> bool {
    forall|i: int| 0 <= i < lines.len() && spec_line_qualifies(#[trigger] lines[i]@) ==> lines[i]@.len() >= 54
}

/// The text of one atom record's coordinates, ready to be decoded.
#[derive(Clone, Debug, PartialEq)]
pub struct CoordText {
    pub x: String,
    pub y: String,
    pub z: String,
}

/// `found` carries exactly the coordinate texts `want`, in order.
pub open spec fn spec_coords_match(
    found: Seq<CoordText>,
    want: Seq<(Seq<char>, Seq<char>, Seq<char>)>,
) -> bool {
    &&& found.len() == want.len()
    &&& forall|k: int| 0 <= k < found.len() ==> (#[trigger] found[k]).x@ == want[k].0
    &&& forall|k: int| 0 <= k < found.len() ==> (#[trigger] found[k]).y@ == want[k].1
    &&& forall|k: int| 0 <= k < found.len() ==> (#[trigger] found[k]).z@ == want[k].2
}

fn coord_text(line: &str) -> (r: CoordText)
    requires
        line@.len() >= 54,
    ensures
        r.x@ == spec_coord_triple(line@).0,
        r.y@ == spec_coord_triple(line@).1,
        r.z@ == spec_coord_triple(line@).2,
{
    CoordText {
        x: strip_blanks(line.substring_char(30, 38)),
        y: strip_blanks(line.substring_char(38, 46)),
        z: strip_blanks(line.substring_char(46, 54)),
    }
}

/// Walks the structure lines and yields the coordinate columns of every atom
/// record, or a refusal if a record is too short to carry them.
pub fn atom_coord_texts(pdb: &Vec<String>) -> (r: Result<Vec<CoordText>, ValidationError>)
    ensures
        r is Ok <==> spec_lines_ok(pdb@),
        r matches Ok(v) ==> spec_coords_match(v@, spec_coords(pdb@)),
        r is Err ==> r == Err::<Vec<CoordText>, ValidationError>(
            ValidationError::MalformedAtomRecord,
        ),
{
    let mut out: Vec<CoordText> = Vec::new();
    let mut i: usize = 0;
    while i < pdb.len()
        invariant
            i <= pdb@.len(),
            spec_lines_ok(pdb@.subrange(0, i as int)),
            spec_coords_match(out@, spec_coords(pdb@.subrange(0, i as int))),
        decreases pdb@.len() - i,
    {
        let line: &String = &pdb[i];
        proof {
            assert(pdb@.subrange(0, i + 1 as int).drop_last() =~= pdb@.subrange(0, i as int));
            assert(pdb@.subrange(0, i + 1 as int).last() == pdb@[i as int]);
        }
        if contains_substr(line.as_str(), "ATOM") || contains_substr(line.as_str(), "HETATM") {
            if line.as_str().unicode_len() < 54 {
                assert(!spec_lines_ok(pdb@)) by {
                    assert(spec_line_qualifies(pdb@[i as int]@) && pdb@[i as int]@.len() < 54);
                }
                return Err(ValidationError::MalformedAtomRecord);
            }
            out.push(coord_text(line.as_str()));
        }
        i += 1;
    }
    proof {
        assert(pdb@.subrange(0, pdb@.len() as int) =~= pdb@);
    }
    Ok(out)
}

/// The axis-aligned extent of the given atom positions: each face of the box
/// is attained by some atom, and no atom lies outside it. An empty structure
/// is refused.
pub fn atom_bounds(atoms: &Vec<Point3>) -> (r: Result<Bounds, ValidationError>)
    ensures
        r is Ok <==> atoms@.len() > 0,
        r is Err ==> r == Err::<Bounds, ValidationError>(ValidationError::NoAtomRecords),
        r matches Ok(b) ==> {
            &&& forall|k: int|
                0 <= k < atoms@.len() ==> {
                    &&& b.x_min.key <= (#[trigger] atoms@[k]).x.key <= b.x_max.key
                    &&& b.y_min.key <= atoms@[k].y.key <= b.y_max.key
                    &&& b.z_min.key <= atoms@[k].z.key <= b.z_max.key
                }
            &&& exists|k: int| 0 <= k < atoms@.len() && b.x_min == (#[trigger] atoms@[k]).x
            &&& exists|k: int| 0 <= k < atoms@.len() && b.x_max == (#[trigger] atoms@[k]).x
            &&& exists|k: int| 0 <= k < atoms@.len() && b.y_min == (#[trigger] atoms@[k]).y
            &&& exists|k: int| 0 <= k < atoms@.len() && b.y_max == (#[trigger] atoms@[k]).y
            &&& exists|k: int| 0 <= k < atoms@.len() && b.z_min == (#[trigger] atoms@[k]).z
            &&& exists|k: int| 0 <= k < atoms@.len() && b.z_max == (#[trigger] atoms@[k]).z
        },
{
    if atoms.len() == 0 {
        return Err(ValidationError::NoAtomRecords);
    }
    let first = atoms[0];
    let mut b = Bounds {
        x_min: first.x,
        x_max: first.x,
        y_min: first.y,
        y_max: first.y,
        z_min: first.z,
        z_max: first.z,
    };
    let mut i: usize = 1;
    while i < atoms.len()
        invariant
            1 <= i <= atoms@.len(),
            forall|k: int|
                0 <= k < i ==> {
                    &&& b.x_min.key <= (#[trigger] atoms@[k]).x.key <= b.x_max.key
                    &&& b.y_min.key <= atoms@[k].y.key <= b.y_max.key
                    &&& b.z_min.key <= atoms@[k].z.key <= b.z_max.key
                },
            exists|k: int| 0 <= k < i && b.x_min == (#[trigger] atoms@[k]).x,
            exists|k: int| 0 <= k < i && b.x_max == (#[trigger] atoms@[k]).x,
            exists|k: int| 0 <= k < i && b.y_min == (#[trigger] atoms@[k]).y,
            exists|k: int| 0 <= k < i && b.y_max == (#[trigger] atoms@[k]).y,
            exists|k: int| 0 <= k < i && b.z_min == (#[trigger] atoms@[k]).z,
            exists|k: int| 0 <= k < i && b.z_max == (#[trigger] atoms@[k]).z,
        decreases atoms@.len() - i,
    {
        let a = atoms[i];
        if a.x.key < b.x_min.key {
            b.x_min = a.x;
        }
        if a.x.key > b.x_max.key {
            b.x_max = a.x;
        }
        if a.y.key < b.y_min.key {
            b.y_min = a.y;
        }
        if a.y.key > b.y_max.key {
            b.y_max = a.y;
        }
        if a.z.key < b.z_min.key {
            b.z_min = a.z;
        }
        if a.z.key > b.z_max.key {
            b.z_max = a.z;
        }
        i += 1;
    }
    Ok(b)
}

} // verus!
