//! The failure kinds of tile sources.

use vstd::prelude::*;
use vstd::std_specs::convert::FromSpecImpl;
use vstd::string::*;

verus! {

/// `tile_grid::RegistryError`, the failure of a tile matrix set lookup.
/// Nothing is claimed of what a value holds.
#[verifier::external_type_specification]
#[verifier::external_body]
pub struct ExRegistryError(tile_grid::RegistryError);

/// `std::io::Error`, the failure of the map server process. Nothing is
/// claimed of what a value holds.
#[verifier::external_type_specification]
#[verifier::external_body]
pub struct ExIoError(std::io::Error);

/// `sqlx::Error`, the failure of a database. Nothing is claimed of what a
/// value holds.
#[verifier::external_type_specification]
#[verifier::external_body]
pub struct ExSqlxError(sqlx::Error);

/// `geozero::error::GeozeroError`, the failure to read or write a geometry.
/// Nothing is claimed of what a value holds.
#[verifier::external_type_specification]
#[verifier::external_body]
pub struct ExGeozeroError(geozero::error::GeozeroError);

/// `reqwest::Error`, the failure of an HTTP request. Nothing is claimed of
/// what a value holds.
#[verifier::external_type_specification]
#[verifier::external_body]
pub struct ExReqwestError(reqwest::Error);

/// `martin_mbtiles::MbtError`, the failure of a tile archive. Nothing is
/// claimed of what a value holds.
#[verifier::external_type_specification]
#[verifier::external_body]
pub struct ExMbtError(martin_mbtiles::MbtError);

/// Why a tile source could not be set up or could not answer a request.
#[derive(Debug)]
pub enum TileSourceError {
    /// No datasource is registered under the name.
    TileSourceNotFound(String),
    /// The datasource is registered, but is not of the expected kind.
    TileSourceTypeError(String),
    /// The tile lies outside the tile matrix set.
    TileXyzError,
    /// The tile matrix set could not be looked up.
    RegistryError(tile_grid::RegistryError),
    /// The map server process failed.
    FcgiError(std::io::Error),
    /// No map server process handles the suffix.
    SuffixNotFound(String),
    /// The database failed.
    DbError(sqlx::Error),
    /// The type of a source field could not be detected.
    TypeDetectionError,
    /// A number does not fit its integer type.
    IntRangeError(std::num::TryFromIntError),
    /// A geometry could not be read or written.
    GeozeroError(geozero::error::GeozeroError),
    /// A vector tile could not be encoded.
    MvtEncodeError,
    /// The request to the remote map service failed.
    WmsHttpError(reqwest::Error),
    /// The tile archive failed.
    MbtilesError(martin_mbtiles::MbtError),
}

/// What a failure says, with texts as sequences of characters.
pub enum TileSourceErrorView {
    TileSourceNotFound(Seq<char>),
    TileSourceTypeError(Seq<char>),
    TileXyzError,
    RegistryError(tile_grid::RegistryError),
    FcgiError(std::io::Error),
    SuffixNotFound(Seq<char>),
    DbError(sqlx::Error),
    TypeDetectionError,
    IntRangeError(std::num::TryFromIntError),
    GeozeroError(geozero::error::GeozeroError),
    MvtEncodeError,
    WmsHttpError(reqwest::Error),
    MbtilesError(martin_mbtiles::MbtError),
}

impl View for TileSourceError {
    type V = TileSourceErrorView;

    open spec fn view(&self) -> TileSourceErrorView {
        match *self {
            TileSourceError::TileSourceNotFound(name) => TileSourceErrorView::TileSourceNotFound(
                name@,
            ),
            TileSourceError::TileSourceTypeError(kind) => TileSourceErrorView::TileSourceTypeError(
                kind@,
            ),
            TileSourceError::TileXyzError => TileSourceErrorView::TileXyzError,
            TileSourceError::RegistryError(e) => TileSourceErrorView::RegistryError(e),
            TileSourceError::FcgiError(e) => TileSourceErrorView::FcgiError(e),
            TileSourceError::SuffixNotFound(suffix) => TileSourceErrorView::SuffixNotFound(suffix@),
            TileSourceError::DbError(e) => TileSourceErrorView::DbError(e),
            TileSourceError::TypeDetectionError => TileSourceErrorView::TypeDetectionError,
            TileSourceError::IntRangeError(e) => TileSourceErrorView::IntRangeError(e),
            TileSourceError::GeozeroError(e) => TileSourceErrorView::GeozeroError(e),
            TileSourceError::MvtEncodeError => TileSourceErrorView::MvtEncodeError,
            TileSourceError::WmsHttpError(e) => TileSourceErrorView::WmsHttpError(e),
            TileSourceError::MbtilesError(e) => TileSourceErrorView::MbtilesError(e),
        }
    }
}

/// Whether a text is the one that describes a failure. The kinds of this
/// library have their own wording; a failure that wraps the error of another
/// library is described by the text that this error displays as.
pub open spec fn is_message_of(error: TileSourceError, text: String) -> bool {
    match error {
        TileSourceError::TileSourceNotFound(name) => text@ == "tileserver.source `"@ + name@
            + "` not found"@,
        TileSourceError::TileSourceTypeError(kind) => text@ == "tileserver.source of type "@
            + kind@ + " expected"@,
        TileSourceError::TileXyzError => text@ == "tile not found / out of bounds"@,
        TileSourceError::RegistryError(cause) => to_string_from_display_ensures(&cause, text),
        TileSourceError::FcgiError(cause) => to_string_from_display_ensures(&cause, text),
        TileSourceError::SuffixNotFound(suffix) => text@ == "FCGI for suffix `"@ + suffix@
            + "` not found"@,
        TileSourceError::DbError(cause) => to_string_from_display_ensures(&cause, text),
        TileSourceError::TypeDetectionError => text@ == "Source field type detection failed"@,
        TileSourceError::IntRangeError(_) => text@ == "Integer out of range"@,
        TileSourceError::GeozeroError(cause) => to_string_from_display_ensures(&cause, text),
        TileSourceError::MvtEncodeError => text@ == "MVT encoding error"@,
        TileSourceError::WmsHttpError(cause) => to_string_from_display_ensures(&cause, text),
        TileSourceError::MbtilesError(cause) => to_string_from_display_ensures(&cause, text),
    }
}

impl TileSourceError {
    /// The text that describes the failure to an operator.
    pub fn message(&self) -> (text: String)
        ensures
            is_message_of(*self, text),
    {
        match self {
            TileSourceError::TileSourceNotFound(name) => {
                "tileserver.source `".to_owned().concat(name.as_str()).concat("` not found")
            },
            TileSourceError::TileSourceTypeError(kind) => {
                "tileserver.source of type ".to_owned().concat(kind.as_str()).concat(" expected")
            },
            TileSourceError::TileXyzError => "tile not found / out of bounds".to_owned(),
            TileSourceError::RegistryError(cause) => cause.to_string(),
            TileSourceError::FcgiError(cause) => cause.to_string(),
            TileSourceError::SuffixNotFound(suffix) => {
                "FCGI for suffix `".to_owned().concat(suffix.as_str()).concat("` not found")
            },
            TileSourceError::DbError(cause) => cause.to_string(),
            TileSourceError::TypeDetectionError => "Source field type detection failed".to_owned(),
            TileSourceError::IntRangeError(_) => "Integer out of range".to_owned(),
            TileSourceError::GeozeroError(cause) => cause.to_string(),
            TileSourceError::MvtEncodeError => "MVT encoding error".to_owned(),
            TileSourceError::WmsHttpError(cause) => cause.to_string(),
            TileSourceError::MbtilesError(cause) => cause.to_string(),
        }
    }
}

impl From<tile_grid::RegistryError> for TileSourceError {
    fn from(error: tile_grid::RegistryError) -> (wrapped: Self) {
        TileSourceError::RegistryError(error)
    }
}

impl FromSpecImpl<tile_grid::RegistryError> for TileSourceError {
    open spec fn obeys_from_spec() -> bool {
        true
    }

    open spec fn from_spec(error: tile_grid::RegistryError) -> Self {
        TileSourceError::RegistryError(error)
    }
}

impl From<std::io::Error> for TileSourceError {
    fn from(error: std::io::Error) -> (wrapped: Self) {
        TileSourceError::FcgiError(error)
    }
}

impl FromSpecImpl<std::io::Error> for TileSourceError {
    open spec fn obeys_from_spec() -> bool {
        true
    }

    open spec fn from_spec(error: std::io::Error) -> Self {
        TileSourceError::FcgiError(error)
    }
}

impl From<sqlx::Error> for TileSourceError {
    fn from(error: sqlx::Error) -> (wrapped: Self) {
        TileSourceError::DbError(error)
    }
}

impl FromSpecImpl<sqlx::Error> for TileSourceError {
    open spec fn obeys_from_spec() -> bool {
        true
    }

    open spec fn from_spec(error: sqlx::Error) -> Self {
        TileSourceError::DbError(error)
    }
}

impl From<std::num::TryFromIntError> for TileSourceError {
    fn from(error: std::num::TryFromIntError) -> (wrapped: Self) {
        TileSourceError::IntRangeError(error)
    }
}

impl FromSpecImpl<std::num::TryFromIntError> for TileSourceError {
    open spec fn obeys_from_spec() -> bool {
        true
    }

    open spec fn from_spec(error: std::num::TryFromIntError) -> Self {
        TileSourceError::IntRangeError(error)
    }
}

impl From<geozero::error::GeozeroError> for TileSourceError {
    fn from(error: geozero::error::GeozeroError) -> (wrapped: Self) {
        TileSourceError::GeozeroError(error)
    }
}

impl FromSpecImpl<geozero::error::GeozeroError> for TileSourceError {
    open spec fn obeys_from_spec() -> bool {
        true
    }

    open spec fn from_spec(error: geozero::error::GeozeroError) -> Self {
        TileSourceError::GeozeroError(error)
    }
}

impl From<reqwest::Error> for TileSourceError {
    fn from(error: reqwest::Error) -> (wrapped: Self) {
        TileSourceError::WmsHttpError(error)
    }
}

impl FromSpecImpl<reqwest::Error> for TileSourceError {
    open spec fn obeys_from_spec() -> bool {
        true
    }

    open spec fn from_spec(error: reqwest::Error) -> Self {
        TileSourceError::WmsHttpError(error)
    }
}

impl From<martin_mbtiles::MbtError> for TileSourceError {
    fn from(error: martin_mbtiles::MbtError) -> (wrapped: Self) {
        TileSourceError::MbtilesError(error)
    }
}

impl FromSpecImpl<martin_mbtiles::MbtError> for TileSourceError {
    open spec fn obeys_from_spec() -> bool {
        true
    }

    open spec fn from_spec(error: martin_mbtiles::MbtError) -> Self {
        TileSourceError::MbtilesError(error)
    }
}

} // verus!
