//! The configuration blocks of datasources and of the tile sources that
//! layers refer to.

use crate::text::str_eq;
use vstd::prelude::*;
use vstd::string::*;

verus! {

/// The connection settings of a spatial database.
#[derive(Debug)]
pub struct DsPostgisCfg {
    pub url: String,
}

/// The location of a GeoPackage file.
#[derive(Debug)]
pub struct DsGpkgCfg {
    pub path: String,
}

/// The endpoint of a remote map service.
#[derive(Debug)]
pub struct WmsHttpSourceProviderCfg {
    pub baseurl: String,
    pub format: String,
}

/// The connection block of one datasource, by kind.
#[derive(Debug)]
pub enum DatasourceCfg {
    Postgis(DsPostgisCfg),
    Gpkg(DsGpkgCfg),
    WmsFcgi,
    WmsHttp(WmsHttpSourceProviderCfg),
}

/// A datasource and the name that tile sources refer to it by.
#[derive(Clone, Debug)]
pub struct NamedDatasourceCfg {
    pub name: String,
    pub datasource: DatasourceCfg,
}

/// A layer served by a remote map service.
#[derive(Clone, Debug)]
pub struct WmsHttpSourceParamsCfg {
    /// The name of the datasource that holds the service's endpoint.
    pub source: String,
    pub layers: String,
}

/// A layer rendered by a local map server process.
#[derive(Clone, Debug)]
pub struct WmsFcgiSourceParamsCfg {
    pub project: String,
    pub suffix: String,
    pub layers: String,
}

/// A layer queried from a spatial database.
#[derive(Clone, Debug)]
pub struct PostgisSourceParamsCfg {
    /// The name of the datasource to query. Without a name the only
    /// database datasource is taken.
    pub datasource: Option<String>,
    pub minzoom: Option<u8>,
    pub maxzoom: Option<u8>,
}

/// A layer read from a tile archive.
#[derive(Clone, Debug)]
pub struct MbtilesStoreCfg {
    /// The path or address of the archive.
    pub path: String,
}

/// The source block of one tile layer, by kind.
#[derive(Clone, Debug)]
pub enum SourceParamCfg {
    WmsHttp(WmsHttpSourceParamsCfg),
    WmsFcgi(WmsFcgiSourceParamsCfg),
    Postgis(PostgisSourceParamsCfg),
    Mbtiles(MbtilesStoreCfg),
}

impl Clone for DsPostgisCfg {
    fn clone(&self) -> (copy: Self)
        ensures
            copy == *self,
    {
        DsPostgisCfg { url: self.url.clone() }
    }
}

impl Clone for DsGpkgCfg {
    fn clone(&self) -> (copy: Self)
        ensures
            copy == *self,
    {
        DsGpkgCfg { path: self.path.clone() }
    }
}

impl Clone for WmsHttpSourceProviderCfg {
    fn clone(&self) -> (copy: Self)
        ensures
            copy == *self,
    {
        WmsHttpSourceProviderCfg { baseurl: self.baseurl.clone(), format: self.format.clone() }
    }
}

impl Clone for DatasourceCfg {
    fn clone(&self) -> (copy: Self)
        ensures
            copy == *self,
    {
        match self {
            DatasourceCfg::Postgis(cfg) => DatasourceCfg::Postgis(cfg.clone()),
            DatasourceCfg::Gpkg(cfg) => DatasourceCfg::Gpkg(cfg.clone()),
            DatasourceCfg::WmsFcgi => DatasourceCfg::WmsFcgi,
            DatasourceCfg::WmsHttp(cfg) => DatasourceCfg::WmsHttp(cfg.clone()),
        }
    }
}

impl DatasourceCfg {
    /// The settings of the connection pool that this datasource needs before
    /// it can serve, and nothing for a datasource that is used without one.
    pub fn pool_settings(&self) -> (settings: Option<&DsPostgisCfg>)
        ensures
            settings is Some <==> *self is Postgis,
            settings matches Some(cfg) ==> *self == DatasourceCfg::Postgis(*cfg),
    {
        match self {
            DatasourceCfg::Postgis(cfg) => Some(cfg),
            _ => None,
        }
    }
}

/// The ending by which a path or address names a tile archive.
pub open spec fn archive_suffix() -> Seq<char> {
    ".mbtiles"@
}

/// Whether a path or address names a tile archive: it ends in `.mbtiles`,
/// and a file name, not a path separator, stands before that ending.
pub open spec fn names_archive(file_or_url: Seq<char>) -> bool {
    let n = file_or_url.len() as int;
    let k = archive_suffix().len() as int;
    &&& n > k
    &&& file_or_url.subrange(n - k, n) == archive_suffix()
    &&& file_or_url[n - k - 1] != '/'
}

impl MbtilesStoreCfg {
    /// The source block for a tile archive given by its path or address, and
    /// nothing where the argument does not name a tile archive.
    pub fn config_from_cli_arg(file_or_url: &str) -> (cfg: Option<MbtilesStoreCfg>)
        ensures
            cfg is Some <==> names_archive(file_or_url@),
            cfg matches Some(store) ==> store.path@ == file_or_url@,
    {
        proof {
            reveal_strlit(".mbtiles");
        }
        let n = file_or_url.unicode_len();
        if n <= 8 {
            return None;
        }
        let ending = file_or_url.substring_char(n - 8, n);
        if !str_eq(ending, ".mbtiles") {
            return None;
        }
        if file_or_url.get_char(n - 9) == '/' {
            return None;
        }
        Some(MbtilesStoreCfg { path: file_or_url.to_owned() })
    }
}

/// The source block of a single tile source given on the command line in
/// place of a configuration file. Only tile archives can be given so.
pub fn source_config_from_cli_arg(file_or_url: &str) -> (cfg: Option<SourceParamCfg>)
    ensures
        cfg is Some <==> names_archive(file_or_url@),
        cfg matches Some(source) ==> source matches SourceParamCfg::Mbtiles(store) && store.path@
            == file_or_url@,
{
    match MbtilesStoreCfg::config_from_cli_arg(file_or_url) {
        Some(store) => Some(SourceParamCfg::Mbtiles(store)),
        None => None,
    }
}

} // verus!
