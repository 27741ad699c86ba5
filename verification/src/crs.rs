//! The coordinate reference system of a tile matrix set and its numeric
//! identifier.

use crate::text::str_eq;
use vstd::prelude::*;
use vstd::string::*;

verus! {

/// `tile_grid::Tms`, a tile matrix set. Nothing is claimed of what a value
/// holds.
#[verifier::external_type_specification]
#[verifier::external_body]
pub struct ExTms(tile_grid::Tms);

/// The body that defines a coordinate reference system.
#[derive(Clone, Copy, Debug, PartialEq, Eq, Structural)]
pub enum CrsAuthority {
    OGC,
    EPSG,
}

/// A coordinate reference system by authority, version and code.
#[derive(Clone, Debug)]
pub struct CrsId {
    pub authority: CrsAuthority,
    pub version: String,
    pub code: String,
}

/// The number that a decimal text stands for as an `i32`, where it stands
/// for one: what `str::parse::<i32>` gives.
pub uninterp spec fn parsed_i32(text: Seq<char>) -> Option<i32>;

/// The numeric identifier of a coordinate reference system: for the two
/// known codes of the OGC their fixed numbers, for an EPSG code the number
/// that it spells. Any other reference system has none.
pub open spec fn srid_of(authority: CrsAuthority, code: Seq<char>) -> Option<i32> {
    match authority {
        CrsAuthority::OGC => if code == "CRS84"@ {
            Some(4326i32)
        } else if code == "CRS84h"@ {
            Some(4979i32)
        } else {
            None
        },
        CrsAuthority::EPSG => parsed_i32(code),
    }
}

/// Calls `str::parse::<i32>` and keeps the number where the text spells
/// one. The contract names the result and says nothing else of it.
#[verifier::external_body]
fn parse_i32(text: &str) -> (number: Option<i32>)
    ensures
        number == parsed_i32(text@),
{
    text.parse::<i32>().ok()
}

/// Calls `tile_grid::Crs::as_srid` on a reference system with these parts.
/// That function gives 4326 for the OGC code `CRS84`, 4979 for `CRS84h`,
/// and for an EPSG code the `i32` that the code parses to; on every other
/// input it panics, so those are left out.
#[verifier::external_body]
fn crs_as_srid(crs: &CrsId) -> (srid: i32)
    requires
        srid_of(crs.authority, crs.code@) is Some,
    ensures
        Some(srid) == srid_of(crs.authority, crs.code@),
{
    let authority = match crs.authority {
        CrsAuthority::OGC => tile_grid::Authority::OGC,
        CrsAuthority::EPSG => tile_grid::Authority::EPSG,
    };
    tile_grid::Crs { authority, version: crs.version.clone(), code: crs.code.clone() }.as_srid()
}

/// Calls `tile_grid::Tms::crs` and hands out the parts of the reference
/// system that it returns. Nothing is known here of what a tile matrix set
/// holds, so nothing is claimed of the result.
#[verifier::external_body]
pub(crate) fn tms_crs(tms: &tile_grid::Tms) -> (crs: CrsId) {
    let crs = tms.crs();
    let authority = match crs.authority {
        tile_grid::Authority::OGC => CrsAuthority::OGC,
        tile_grid::Authority::EPSG => CrsAuthority::EPSG,
    };
    CrsId { authority, version: crs.version.clone(), code: crs.code.clone() }
}

impl CrsId {
    /// The numeric identifier of the reference system, and nothing where it
    /// has none.
    pub fn srid(&self) -> (srid: Option<i32>)
        ensures
            srid == srid_of(self.authority, self.code@),
    {
        let defined = match self.authority {
            CrsAuthority::OGC => str_eq(self.code.as_str(), "CRS84") || str_eq(
                self.code.as_str(),
                "CRS84h",
            ),
            CrsAuthority::EPSG => parse_i32(self.code.as_str()).is_some(),
        };
        if defined {
            Some(crs_as_srid(self))
        } else {
            None
        }
    }
}

} // verus!
