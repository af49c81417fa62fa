//! Lookup of catalog sections by name.
use vstd::prelude::*;
use crate::catalog_data::{chs_rows, heb_rows, chs_names, heb_names, chs_table, heb_table, row_names};
use crate::err::DesignError;
use crate::section::{CrossSection, CrsCHS, CrsHEB, Variant};
use crate::text::str_is;

verus! {

/// Whether one of `names` reads `key`.
pub open spec fn has_name(names: Seq<&'static str>, key: Seq<char>) -> bool {
    exists|i: int| 0 <= i < names.len() && (#[trigger] names[i])@ == key
}

/// `s` is the section of the first row of `table` named `key`.
pub open spec fn first_row_named<T>(table: Seq<(&'static str, T)>, key: Seq<char>, s: T) -> bool {
    exists|i: int|
        0 <= i < table.len() && (#[trigger] table[i]).0@ == key && table[i].1 == s && forall|j: int|
            0 <= j < i ==> (#[trigger] table[j]).0@ != key
}

/// The names of a catalog family, in catalog order.
pub open spec fn names_of_variant(v: Variant) -> Seq<&'static str> {
    match v {
        Variant::HEB => heb_names(),
        Variant::CHS => chs_names(),
    }
}

/// The position of the first row named `key`; `None` where no row has that
/// name.
pub fn find_row<T>(rows: &Vec<(&'static str, T)>, key: &str) -> (r: Option<usize>)
    ensures
        r matches Some(i) ==> i < rows@.len() && rows@[i as int].0@ == key@ && forall|j: int|
            0 <= j < i ==> (#[trigger] rows@[j].0)@ != key@,
        r is None ==> forall|j: int| 0 <= j < rows@.len() ==> (#[trigger] rows@[j].0)@ != key@,
{
    let mut i: usize = 0;
    while i < rows.len()
        invariant
            i <= rows@.len(),
            forall|j: int| 0 <= j < i ==> (#[trigger] rows@[j].0)@ != key@,
        decreases rows@.len() - i,
    {
        if str_is(rows[i].0, key) {
            return Some(i);
        }
        i = i + 1;
    }
    None
}

/// The names of the rows, in order.
pub fn names_of<T>(rows: &Vec<(&'static str, T)>) -> (r: Vec<&'static str>)
    ensures
        r@ == row_names(rows@),
{
    let mut names: Vec<&'static str> = Vec::new();
    let mut i: usize = 0;
    while i < rows.len()
        invariant
            i <= rows@.len(),
            names@.len() == i,
            forall|j: int| 0 <= j < i ==> names@[j] == (#[trigger] rows@[j]).0,
        decreases rows@.len() - i,
    {
        names.push(rows[i].0);
        i = i + 1;
    }
    assert(names@ =~= row_names(rows@));
    names
}

/// The family written as `HEB` or `CHS`.
pub open spec fn variant_named(s: Seq<char>) -> Option<Variant> {
    if s == "HEB"@ {
        Some(Variant::HEB)
    } else if s == "CHS"@ {
        Some(Variant::CHS)
    } else {
        None
    }
}

impl Variant {
    /// The family written as `HEB` or `CHS`; `None` for any other text.
    pub fn get(identifier: &str) -> (r: Option<Self>)
        ensures
            r == variant_named(identifier@),
    {
        if str_is(identifier, "HEB") {
            Some(Variant::HEB)
        } else if str_is(identifier, "CHS") {
            Some(Variant::CHS)
        } else {
            None
        }
    }
}

impl CrsHEB {
    /// The catalog section named `key`; `None` where the catalog has none.
    pub fn from_key(key: &str) -> (r: Option<Self>)
        ensures
            r is Some <==> has_name(heb_names(), key@),
            r matches Some(s) ==> first_row_named(heb_table(), key@, s) && CrossSection::Heb(s).wf(),
    {
        let rows = heb_rows();
        match find_row(&rows, key) {
            Some(i) => {
                assert(heb_names()[i as int] == rows@[i as int].0);
                assert(first_row_named(heb_table(), key@, rows@[i as int].1)) by {
                    assert((heb_table()[i as int]).0@ == key@);
                }
                Some(rows[i].1)
            },
            None => {
                assert forall|j: int| 0 <= j < heb_names().len() implies (#[trigger] heb_names()[j])@
                    != key@ by {
                    assert(heb_names()[j] == rows@[j].0);
                }
                None
            },
        }
    }

    /// The catalog row of HEB 100.
    pub open spec fn default_row() -> Self {
        CrsHEB {
            width: 1000,
            height: 1000,
            thickness_web: 60,
            thickness_flange: 100,
            radius: 120,
            area: 2600,
            area_shear_y: 2000,
            w_elastic_y: 89_900,
            w_plastic_y: 104_000,
            inertia_y: 4_500_000,
            area_shear_z: 540,
            w_elastic_z: 33_500,
            w_plastic_z: 51_000,
            inertia_z: 1_670_000,
        }
    }

    /// The section HEB 100, the first row of the catalog.
    pub fn default() -> (r: Self)
        ensures
            CrossSection::Heb(r).wf(),
            r == Self::default_row(),
            heb_table()[0] == ("HEB 100", r),
    {
        CrsHEB {
            width: 1000,
            height: 1000,
            thickness_web: 60,
            thickness_flange: 100,
            radius: 120,
            area: 2600,
            area_shear_y: 2000,
            w_elastic_y: 89_900,
            w_plastic_y: 104_000,
            inertia_y: 4_500_000,
            area_shear_z: 540,
            w_elastic_z: 33_500,
            w_plastic_z: 51_000,
            inertia_z: 1_670_000,
        }
    }
}

impl CrsCHS {
    /// The catalog section named `key`; `None` where the catalog has none.
    pub fn from_key(key: &str) -> (r: Option<Self>)
        ensures
            r is Some <==> has_name(chs_names(), key@),
            r matches Some(s) ==> first_row_named(chs_table(), key@, s) && CrossSection::Chs(s).wf(),
    {
        let rows = chs_rows();
        match find_row(&rows, key) {
            Some(i) => {
                assert(chs_names()[i as int] == rows@[i as int].0);
                assert(first_row_named(chs_table(), key@, rows@[i as int].1)) by {
                    assert((chs_table()[i as int]).0@ == key@);
                }
                Some(rows[i].1)
            },
            None => {
                assert forall|j: int| 0 <= j < chs_names().len() implies (#[trigger] chs_names()[j])@
                    != key@ by {
                    assert(chs_names()[j] == rows@[j].0);
                }
                None
            },
        }
    }

    /// The catalog row of CHS 21.3x2.6.
    pub open spec fn default_row() -> Self {
        CrsCHS {
            diameter: 213,
            thickness_wall: 26,
            area: 153,
            area_shear: 81,
            w_elastic: 640,
            w_plastic: 920,
            inertia: 6800,
            inertia_x: 13_600,
        }
    }

    /// The section CHS 21.3x2.6, the first row of the catalog.
    pub fn default() -> (r: Self)
        ensures
            CrossSection::Chs(r).wf(),
            r == Self::default_row(),
            chs_table()[0] == ("CHS 21.3x2.6", r),
    {
        CrsCHS {
            diameter: 213,
            thickness_wall: 26,
            area: 153,
            area_shear: 81,
            w_elastic: 640,
            w_plastic: 920,
            inertia: 6800,
            inertia_x: 13_600,
        }
    }
}

/// The catalogs of standard sections.
pub struct CrossSectionLib {}

impl CrossSectionLib {
    /// The names of the sections of a family, in catalog order.
    pub fn sections(preset: &Variant) -> (r: Vec<&'static str>)
        ensures
            r@ == names_of_variant(*preset),
    {
        match preset {
            Variant::HEB => names_of(&heb_rows()),
            Variant::CHS => names_of(&chs_rows()),
        }
    }

    /// The section named `key` of a family; `NotFound` where the family has
    /// no section of that name.
    pub fn get(preset: &Variant, key: &str) -> (r: Result<CrossSection, DesignError>)
        ensures
            r is Ok <==> has_name(names_of_variant(*preset), key@),
            r matches Ok(s) ==> s.wf(),
            *preset == Variant::HEB ==> (r matches Ok(s) ==> s matches CrossSection::Heb(h)
                && first_row_named(heb_table(), key@, h)),
            *preset == Variant::CHS ==> (r matches Ok(s) ==> s matches CrossSection::Chs(c)
                && first_row_named(chs_table(), key@, c)),
            r matches Err(e) ==> e == DesignError::NotFound,
    {
        match preset {
            Variant::HEB => match CrsHEB::from_key(key) {
                Some(s) => Ok(CrossSection::Heb(s)),
                None => Err(DesignError::NotFound),
            },
            Variant::CHS => match CrsCHS::from_key(key) {
                Some(s) => Ok(CrossSection::Chs(s)),
                None => Err(DesignError::NotFound),
            },
        }
    }
}

} // verus!
