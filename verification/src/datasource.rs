//! The datasources of a tile server and the resolution of a layer's source
//! block into the backend that serves the layer.

use crate::crs::tms_crs;
use crate::error::{TileSourceError, TileSourceErrorView};
use crate::registry::{
    law_default_is_the_single_entry, lookup, lookup_or_default, NamedObjectStore,
};
use crate::source_cfg::{
    DatasourceCfg, MbtilesStoreCfg, NamedDatasourceCfg, PostgisSourceParamsCfg, SourceParamCfg,
    WmsFcgiSourceParamsCfg, WmsHttpSourceParamsCfg, WmsHttpSourceProviderCfg,
};
use crate::text::text_view;
use vstd::prelude::*;
use vstd::string::*;

verus! {

/// The kind of payload that a tile source produces.
#[derive(Clone, Copy, Debug, PartialEq, Eq, Structural)]
pub enum SourceType {
    Vector,
    Raster,
}

/// One layer of a tile source and, where it is known, the kind of its
/// geometries.
#[derive(Clone, Debug)]
pub struct LayerInfo {
    pub name: String,
    pub geometry_type: Option<String>,
}

/// The backend that a layer's source block resolves to, with everything
/// from the registry that the backend is made of. `P` is the handle of a
/// database connection pool.
#[derive(Debug)]
pub enum TileSource<'a, P> {
    /// A remote map service, asked in the reference system `srid`. `srid` is
    /// `None` where the tile matrix set's reference system has no numeric
    /// identifier.
    WmsHttp {
        provider: &'a WmsHttpSourceProviderCfg,
        params: &'a WmsHttpSourceParamsCfg,
        srid: Option<i32>,
    },
    /// A local map server process.
    WmsFcgi(&'a WmsFcgiSourceParamsCfg),
    /// A spatial database, reached through a registered pool.
    Postgis { pool: &'a P, query: &'a PostgisSourceParamsCfg },
    /// A tile archive, opened on its own.
    Mbtiles(&'a MbtilesStoreCfg),
}

/// A resolved backend by value.
pub enum TileSourceView<P> {
    WmsHttp { provider: WmsHttpSourceProviderCfg, params: WmsHttpSourceParamsCfg, srid: Option<i32> },
    WmsFcgi(WmsFcgiSourceParamsCfg),
    Postgis { pool: P, query: PostgisSourceParamsCfg },
    Mbtiles(MbtilesStoreCfg),
}

impl<'a, P> View for TileSource<'a, P> {
    type V = TileSourceView<P>;

    open spec fn view(&self) -> TileSourceView<P> {
        match *self {
            TileSource::WmsHttp { provider, params, srid } => TileSourceView::WmsHttp {
                provider: *provider,
                params: *params,
                srid,
            },
            TileSource::WmsFcgi(params) => TileSourceView::WmsFcgi(*params),
            TileSource::Postgis { pool, query } => TileSourceView::Postgis {
                pool: *pool,
                query: *query,
            },
            TileSource::Mbtiles(store) => TileSourceView::Mbtiles(*store),
        }
    }
}

/// The payload kind of a backend, as far as the kind of the backend fixes
/// it: a database serves vector tiles, a map service raster tiles. What a
/// tile archive holds is written in the archive.
pub open spec fn source_type_of<P>(source: TileSourceView<P>) -> Option<SourceType> {
    match source {
        TileSourceView::WmsHttp { .. } => Some(SourceType::Raster),
        TileSourceView::WmsFcgi(_) => Some(SourceType::Raster),
        TileSourceView::Postgis { .. } => Some(SourceType::Vector),
        TileSourceView::Mbtiles(_) => None,
    }
}

impl<'a, P> Clone for TileSource<'a, P> {
    /// A second handle on the same backend: it refers to the pool and to the
    /// configuration blocks that the first one refers to, and copies none.
    fn clone(&self) -> (copy: Self)
        ensures
            copy == *self,
    {
        match self {
            TileSource::WmsHttp { provider, params, srid } => TileSource::WmsHttp {
                provider: *provider,
                params: *params,
                srid: *srid,
            },
            TileSource::WmsFcgi(params) => TileSource::WmsFcgi(*params),
            TileSource::Postgis { pool, query } => TileSource::Postgis { pool: *pool, query: *query },
            TileSource::Mbtiles(store) => TileSource::Mbtiles(*store),
        }
    }
}

impl<'a, P> TileSource<'a, P> {
    /// The payload kind of the backend, where its kind fixes it.
    pub fn source_type(&self) -> (kind: Option<SourceType>)
        ensures
            kind == source_type_of(self@),
    {
        match self {
            TileSource::WmsHttp { .. } => Some(SourceType::Raster),
            TileSource::WmsFcgi(_) => Some(SourceType::Raster),
            TileSource::Postgis { .. } => Some(SourceType::Vector),
            TileSource::Mbtiles(_) => None,
        }
    }
}

/// The name that a failed database lookup reports: the name asked for, or
/// `(default)` where none was given.
pub open spec fn reported_name(name: Option<String>) -> Seq<char> {
    match name {
        Some(name) => name@,
        None => "(default)"@,
    }
}

/// What a layer's source block resolves to against the registered pools and
/// configuration blocks.
pub open spec fn resolution<P>(
    pools: Map<Seq<char>, P>,
    configs: Map<Seq<char>, DatasourceCfg>,
    cfg: SourceParamCfg,
    srid: Option<i32>,
) -> Result<TileSourceView<P>, TileSourceErrorView> {
    match cfg {
        SourceParamCfg::WmsHttp(params) => match lookup(configs, params.source@) {
            None => Err(TileSourceErrorView::TileSourceNotFound(params.source@)),
            Some(DatasourceCfg::WmsHttp(provider)) => Ok(
                TileSourceView::WmsHttp { provider, params, srid },
            ),
            Some(_) => Err(TileSourceErrorView::TileSourceTypeError("wms_proxy"@)),
        },
        SourceParamCfg::WmsFcgi(params) => Ok(TileSourceView::WmsFcgi(params)),
        SourceParamCfg::Postgis(query) => match lookup_or_default(
            pools,
            text_view(query.datasource),
        ) {
            Some(pool) => Ok(TileSourceView::Postgis { pool, query }),
            None => Err(TileSourceErrorView::TileSourceNotFound(reported_name(query.datasource))),
        },
        SourceParamCfg::Mbtiles(store) => Ok(TileSourceView::Mbtiles(store)),
    }
}

/// Whether an outcome is the expected one: the same backend, or a failure
/// that says the same.
pub open spec fn agrees<'a, P>(
    outcome: Result<TileSource<'a, P>, TileSourceError>,
    expected: Result<TileSourceView<P>, TileSourceErrorView>,
) -> bool {
    match outcome {
        Ok(source) => expected == Ok::<TileSourceView<P>, TileSourceErrorView>(source@),
        Err(error) => expected == Err::<TileSourceView<P>, TileSourceErrorView>(error@),
    }
}

/// How the connection pool of one configured datasource came about.
#[derive(Debug)]
pub enum PoolSetup<P> {
    /// No pool was asked for.
    NotNeeded,
    /// The pool stands.
    Established(P),
    /// The database refused.
    Failed(sqlx::Error),
}

/// The pool setup handed in for the datasource at a place of the list.
pub open spec fn setup_for<P>(setups: Seq<PoolSetup<P>>, i: int) -> PoolSetup<P> {
    if 0 <= i < setups.len() {
        setups[i]
    } else {
        PoolSetup::NotNeeded
    }
}

/// The datasource at a place of the list is a database whose pool could not
/// be established.
pub open spec fn fails_at<P>(
    datasources: Seq<NamedDatasourceCfg>,
    setups: Seq<PoolSetup<P>>,
    i: int,
) -> bool {
    &&& 0 <= i < datasources.len()
    &&& datasources[i].datasource is Postgis
    &&& setup_for(setups, i) is Failed
}

/// The pools registered once the first `n` datasources of the list are
/// taken in, in the order of the list: each database datasource whose pool
/// was established, under its name. A later datasource replaces an earlier
/// one of the same name.
pub open spec fn pools_after<P>(
    datasources: Seq<NamedDatasourceCfg>,
    setups: Seq<PoolSetup<P>>,
    n: nat,
) -> Map<Seq<char>, P>
    decreases n,
{
    if n == 0 {
        Map::empty()
    } else {
        let before = pools_after(datasources, setups, (n - 1) as nat);
        let entry = datasources[n - 1];
        match (entry.datasource, setup_for(setups, n - 1)) {
            (DatasourceCfg::Postgis(_), PoolSetup::Established(pool)) => before.insert(
                entry.name@,
                pool,
            ),
            _ => before,
        }
    }
}

/// The configuration blocks registered once the first `n` datasources of
/// the list are taken in: each datasource that is used without a pool,
/// under its name. A later datasource replaces an earlier one of the same
/// name.
pub open spec fn configs_after(datasources: Seq<NamedDatasourceCfg>, n: nat) -> Map<
    Seq<char>,
    DatasourceCfg,
>
    decreases n,
{
    if n == 0 {
        Map::empty()
    } else {
        let before = configs_after(datasources, (n - 1) as nat);
        let entry = datasources[n - 1];
        match entry.datasource {
            DatasourceCfg::Postgis(_) => before,
            other => before.insert(entry.name@, other),
        }
    }
}

/// The datasources of a tile server: the connection pools of its databases
/// and the configuration blocks of the datasources that need no pool, each
/// by name.
pub struct Datasources<P> {
    pg_datasources: NamedObjectStore<P>,
    config_sources: NamedObjectStore<DatasourceCfg>,
}

impl<P> Datasources<P> {
    /// Both registries are well formed.
    pub closed spec fn wf(&self) -> bool {
        self.pg_datasources.wf() && self.config_sources.wf()
    }

    /// The registered connection pools by name.
    pub closed spec fn pools(&self) -> Map<Seq<char>, P> {
        self.pg_datasources@
    }

    /// The registered configuration blocks by name.
    pub closed spec fn configs(&self) -> Map<Seq<char>, DatasourceCfg> {
        self.config_sources@
    }

    /// Takes in the configured datasources in the order of the list.
    /// `setups[i]` says how the connection pool of `datasources[i]` came
    /// about. A database datasource is registered with its pool, and is left
    /// out where none was asked for; any other datasource is registered with
    /// a copy of its configuration block. The first database whose pool
    /// could not be established ends the setup with its failure.
    pub fn create(datasources: &Vec<NamedDatasourceCfg>, setups: Vec<PoolSetup<P>>) -> (outcome:
        Result<Self, TileSourceError>)
        ensures
            outcome is Ok <==> forall|i: int| !fails_at(datasources@, setups@, i),
            outcome matches Ok(registry) ==> {
                &&& registry.wf()
                &&& registry.pools() == pools_after(datasources@, setups@, datasources@.len())
                &&& registry.configs() == configs_after(datasources@, datasources@.len())
                &&& registry.pools().dom().finite()
                &&& registry.configs().dom().finite()
            },
            outcome matches Err(error) ==> exists|i: int|
                {
                    &&& #[trigger] fails_at(datasources@, setups@, i)
                    &&& forall|j: int| 0 <= j < i ==> !fails_at(datasources@, setups@, j)
                    &&& error@ == TileSourceErrorView::DbError(setups@[i]->Failed_0)
                },
    {
        let mut remaining = setups;
        let mut registry = Datasources {
            pg_datasources: NamedObjectStore::new(),
            config_sources: NamedObjectStore::new(),
        };
        let mut i: usize = 0;
        while i < datasources.len()
            invariant
                i <= datasources.len(),
                registry.wf(),
                registry.pools().dom().finite(),
                registry.configs().dom().finite(),
                registry.pools() == pools_after(datasources@, setups@, i as nat),
                registry.configs() == configs_after(datasources@, i as nat),
                forall|j: int| 0 <= j < i ==> !fails_at(datasources@, setups@, j),
                remaining.len() == if i <= setups.len() {
                    setups.len() - i
                } else {
                    0
                },
                forall|k: int| 0 <= k < remaining.len() ==> remaining@[k] == setups@[i + k],
            decreases datasources.len() - i,
        {
            let named_ds = &datasources[i];
            let setup = if remaining.len() > 0 {
                remaining.remove(0)
            } else {
                PoolSetup::NotNeeded
            };
            assert(setup == setup_for(setups@, i as int));
            match &named_ds.datasource {
                DatasourceCfg::Postgis(_) => {
                    match setup {
                        PoolSetup::Established(pool) => {
                            registry.pg_datasources.add(named_ds.name.as_str(), pool);
                        },
                        PoolSetup::Failed(cause) => {
                            assert(fails_at(datasources@, setups@, i as int));
                            return Err(TileSourceError::DbError(cause));
                        },
                        PoolSetup::NotNeeded => {},
                    }
                },
                other => {
                    registry.config_sources.add(named_ds.name.as_str(), other.clone());
                },
            }
            i += 1;
        }
        Ok(registry)
    }

    /// Resolves a layer's source block, for a tile matrix set whose
    /// reference system has the numeric identifier `srid`.
    pub fn resolve_tile_source<'a>(&'a self, cfg: &'a SourceParamCfg, srid: Option<i32>) -> (outcome:
        Result<TileSource<'a, P>, TileSourceError>)
        requires
            self.wf(),
        ensures
            agrees(outcome, resolution(self.pools(), self.configs(), *cfg, srid)),
    {
        match cfg {
            SourceParamCfg::WmsHttp(params) => {
                match self.config_sources.get(params.source.as_str()) {
                    None => Err(TileSourceError::TileSourceNotFound(params.source.clone())),
                    Some(DatasourceCfg::WmsHttp(provider)) => Ok(
                        TileSource::WmsHttp { provider, params, srid },
                    ),
                    Some(_) => Err(TileSourceError::TileSourceTypeError("wms_proxy".to_owned())),
                }
            },
            SourceParamCfg::WmsFcgi(params) => Ok(TileSource::WmsFcgi(params)),
            SourceParamCfg::Postgis(query) => {
                let name: Option<&str> = match &query.datasource {
                    Some(name) => Some(name.as_str()),
                    None => None,
                };
                match self.pg_datasources.get_or_default(name) {
                    Some(pool) => Ok(TileSource::Postgis { pool, query }),
                    None => {
                        let reported = match &query.datasource {
                            Some(name) => name.clone(),
                            None => "(default)".to_owned(),
                        };
                        Err(TileSourceError::TileSourceNotFound(reported))
                    },
                }
            },
            SourceParamCfg::Mbtiles(store) => Ok(TileSource::Mbtiles(store)),
        }
    }

    /// Resolves a layer's source block for a tile matrix set. The numeric
    /// identifier of the set's reference system is read from the set; the
    /// outcome is that of `resolve_tile_source` with that identifier.
    pub fn setup_tile_source<'a>(&'a self, cfg: &'a SourceParamCfg, tms: &tile_grid::Tms) -> (outcome:
        Result<TileSource<'a, P>, TileSourceError>)
        requires
            self.wf(),
        ensures
            exists|srid: Option<i32>|
                agrees(outcome, #[trigger] resolution(self.pools(), self.configs(), *cfg, srid)),
    {
        let srid = tms_crs(tms).srid();
        self.resolve_tile_source(cfg, srid)
    }
}

impl<P> Default for Datasources<P> {
    fn default() -> (registry: Self)
        ensures
            registry.wf(),
            registry.pools() == Map::<Seq<char>, P>::empty(),
            registry.configs() == Map::<Seq<char>, DatasourceCfg>::empty(),
    {
        Datasources { pg_datasources: NamedObjectStore::new(), config_sources: NamedObjectStore::new() }
    }
}

/// A database layer whose datasource cannot be found fails with
/// `TileSourceNotFound`: with the name that was asked for where that name is
/// not registered, with `(default)` where no name was given and the registry
/// holds no pool or more than one.
pub proof fn law_missing_database_is_reported<P>(
    pools: Map<Seq<char>, P>,
    configs: Map<Seq<char>, DatasourceCfg>,
    query: PostgisSourceParamsCfg,
    srid: Option<i32>,
)
    requires
        pools.dom().finite(),
        match query.datasource {
            Some(name) => !pools.contains_key(name@),
            None => pools.dom().len() != 1,
        },
    ensures
        resolution(pools, configs, SourceParamCfg::Postgis(query), srid) == Err::<
            TileSourceView<P>,
            TileSourceErrorView,
        >(
            TileSourceErrorView::TileSourceNotFound(
                match query.datasource {
                    Some(name) => name@,
                    None => "(default)"@,
                },
            ),
        ),
{
}

/// A map service layer whose datasource is registered, but not as a remote
/// map service, fails with `TileSourceTypeError` naming `wms_proxy`.
pub proof fn law_wrong_kind_is_reported<P>(
    pools: Map<Seq<char>, P>,
    configs: Map<Seq<char>, DatasourceCfg>,
    params: WmsHttpSourceParamsCfg,
    srid: Option<i32>,
)
    requires
        configs.contains_key(params.source@),
        !(configs[params.source@] is WmsHttp),
    ensures
        resolution(pools, configs, SourceParamCfg::WmsHttp(params), srid) == Err::<
            TileSourceView<P>,
            TileSourceErrorView,
        >(TileSourceErrorView::TileSourceTypeError("wms_proxy"@)),
{
}

/// A registry made of a single remote map service, and of no database,
/// fails a database layer that names no datasource and resolves a map
/// service layer that names the service.
pub proof fn law_single_map_service<P>(
    entry: NamedDatasourceCfg,
    setups: Seq<PoolSetup<P>>,
    query: PostgisSourceParamsCfg,
    params: WmsHttpSourceParamsCfg,
    srid: Option<i32>,
)
    requires
        entry.datasource is WmsHttp,
        query.datasource is None,
        params.source@ == entry.name@,
    ensures
        forall|i: int| !fails_at(seq![entry], setups, i),
        resolution(
            pools_after(seq![entry], setups, 1),
            configs_after(seq![entry], 1),
            SourceParamCfg::Postgis(query),
            srid,
        ) == Err::<TileSourceView<P>, TileSourceErrorView>(
            TileSourceErrorView::TileSourceNotFound("(default)"@),
        ),
        resolution(
            pools_after(seq![entry], setups, 1),
            configs_after(seq![entry], 1),
            SourceParamCfg::WmsHttp(params),
            srid,
        ) == Ok::<TileSourceView<P>, TileSourceErrorView>(
            TileSourceView::WmsHttp { provider: entry.datasource->WmsHttp_0, params, srid },
        ),
{
    let list = seq![entry];
    reveal_with_fuel(pools_after, 2);
    reveal_with_fuel(configs_after, 2);
    assert(pools_after(list, setups, 1) =~= Map::<Seq<char>, P>::empty());
    assert(configs_after(list, 1) =~= Map::<Seq<char>, DatasourceCfg>::empty().insert(
        entry.name@,
        entry.datasource,
    ));
}

/// A registry made of a single database with its pool resolves a database
/// layer that names no datasource to that pool, and the backend serves
/// vector tiles.
pub proof fn law_single_database_is_default<P>(
    entry: NamedDatasourceCfg,
    pool: P,
    query: PostgisSourceParamsCfg,
    srid: Option<i32>,
)
    requires
        entry.datasource is Postgis,
        query.datasource is None,
    ensures
        forall|i: int| !fails_at(seq![entry], seq![PoolSetup::Established(pool)], i),
        resolution(
            pools_after(seq![entry], seq![PoolSetup::Established(pool)], 1),
            configs_after(seq![entry], 1),
            SourceParamCfg::Postgis(query),
            srid,
        ) == Ok::<TileSourceView<P>, TileSourceErrorView>(TileSourceView::Postgis { pool, query }),
        source_type_of(TileSourceView::Postgis { pool, query }) == Some(SourceType::Vector),
{
    let list = seq![entry];
    let registered = pools_after(list, seq![PoolSetup::Established(pool)], 1);
    reveal_with_fuel(pools_after, 2);
    assert(registered =~= Map::<Seq<char>, P>::empty().insert(entry.name@, pool));
    assert(registered.dom() =~= set![entry.name@]);
    law_default_is_the_single_entry(registered);
    assert(registered.contains_key(entry.name@));
}

/// The metrics of a map server that is not part of this build: a handle
/// that collects nothing.
#[derive(Debug)]
pub struct WmsMetrics;

impl Default for WmsMetrics {
    fn default() -> (metrics: Self)
        ensures
            metrics == WmsMetrics,
    {
        WmsMetrics
    }
}

/// The map server of a build without one.
#[derive(Clone, Copy, Debug)]
pub struct MapService;

impl MapService {
    /// The metrics handle that tile requests carry along.
    pub fn metrics(&self) -> (metrics: &'static WmsMetrics)
        ensures
            *metrics == WmsMetrics,
    {
        &WmsMetrics
    }
}

} // verus!
