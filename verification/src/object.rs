//! The kinds of thing a tile can show, and parsing them from their names.

use vstd::prelude::*;
use vstd::string::StrSliceExecFns;
use std::str::FromStr;

verus! {

/// A kind of visible object: a ground cover or a discrete object.
#[derive(Clone, Copy, Debug, Eq, Hash, PartialEq, PartialOrd, Structural)]
pub enum VisibleObject {
    Grass,
    Rock,
    Soil,
    TreeTrunk,
    TreeFoilage,
}

/// A name that matches no visible object kind; carries the offending name.
#[derive(Debug)]
pub struct UnrecognizedTileName(pub String);

/// The canonical name of a visible object kind.
pub open spec fn spec_object_name(o: VisibleObject) -> Seq<char> {
    match o {
        VisibleObject::Grass => "Grass"@,
        VisibleObject::Rock => "Rock"@,
        VisibleObject::Soil => "Soil"@,
        VisibleObject::TreeTrunk => "TreeTrunk"@,
        VisibleObject::TreeFoilage => "TreeFoilage"@,
    }
}

/// Whether two string slices hold the same characters.
fn str_eq(a: &str, b: &str) -> (r: bool)
    ensures
        r <==> a@ == b@,
{
    let a_len = a.unicode_len();
    let b_len = b.unicode_len();
    if a_len != b_len {
        return false;
    }
    let mut i: usize = 0;
    while i < a_len
        invariant
            a_len == a@.len(),
            b_len == b@.len(),
            a_len == b_len,
            0 <= i <= a_len,
            forall|j: int| 0 <= j < i ==> a@[j] == b@[j],
        decreases a_len - i,
    {
        if a.get_char(i) != b.get_char(i) {
            return false;
        }
        i = i + 1;
    }
    proof {
        assert(a@ =~= b@);
    }
    true
}

/// The visible object kind of the given canonical name, or an error
/// carrying the name where it matches no kind.
pub fn visible_object_from_name(s: &str) -> (r: Result<VisibleObject, UnrecognizedTileName>)
    ensures
        match r {
            Ok(o) => s@ == spec_object_name(o),
            Err(e) => {
                &&& forall|o: VisibleObject| s@ != spec_object_name(o)
                &&& e.0@ == s@
            },
        },
{
    if str_eq(s, "Grass") {
        Ok(VisibleObject::Grass)
    } else if str_eq(s, "Rock") {
        Ok(VisibleObject::Rock)
    } else if str_eq(s, "Soil") {
        Ok(VisibleObject::Soil)
    } else if str_eq(s, "TreeTrunk") {
        Ok(VisibleObject::TreeTrunk)
    } else if str_eq(s, "TreeFoilage") {
        Ok(VisibleObject::TreeFoilage)
    } else {
        proof {
            assert forall|o: VisibleObject| s@ != spec_object_name(o) by {
                match o {
                    VisibleObject::Grass => {},
                    VisibleObject::Rock => {},
                    VisibleObject::Soil => {},
                    VisibleObject::TreeTrunk => {},
                    VisibleObject::TreeFoilage => {},
                }
            }
        }
        Err(UnrecognizedTileName(s.to_owned()))
    }
}

impl FromStr for VisibleObject {
    type Err = UnrecognizedTileName;

    fn from_str(s: &str) -> Result<VisibleObject, UnrecognizedTileName> {
        visible_object_from_name(s)
    }
}

} // verus!
