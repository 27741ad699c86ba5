use bbox_server::crs::{CrsAuthority, CrsId};
use bbox_server::datasource::{
    Datasources, LayerInfo, MapService, PoolSetup, SourceType, TileSource, WmsMetrics,
};
use bbox_server::error::TileSourceError;
use bbox_server::source_cfg::{
    source_config_from_cli_arg, DatasourceCfg, DsGpkgCfg, DsPostgisCfg, MbtilesStoreCfg,
    NamedDatasourceCfg, PostgisSourceParamsCfg, SourceParamCfg, WmsFcgiSourceParamsCfg,
    WmsHttpSourceParamsCfg, WmsHttpSourceProviderCfg,
};

fn postgis_ds(name: &str) -> NamedDatasourceCfg {
    NamedDatasourceCfg {
        name: name.to_string(),
        datasource: DatasourceCfg::Postgis(DsPostgisCfg {
            url: format!("postgresql://localhost/{name}"),
        }),
    }
}

fn wms_ds(name: &str, baseurl: &str) -> NamedDatasourceCfg {
    NamedDatasourceCfg {
        name: name.to_string(),
        datasource: DatasourceCfg::WmsHttp(WmsHttpSourceProviderCfg {
            baseurl: baseurl.to_string(),
            format: "image/png".to_string(),
        }),
    }
}

fn gpkg_ds(name: &str) -> NamedDatasourceCfg {
    NamedDatasourceCfg {
        name: name.to_string(),
        datasource: DatasourceCfg::Gpkg(DsGpkgCfg { path: "data.gpkg".to_string() }),
    }
}

fn postgis_layer(datasource: Option<&str>) -> SourceParamCfg {
    SourceParamCfg::Postgis(PostgisSourceParamsCfg {
        datasource: datasource.map(|name| name.to_string()),
        minzoom: Some(0),
        maxzoom: Some(14),
    })
}

fn wms_layer(source: &str) -> SourceParamCfg {
    SourceParamCfg::WmsHttp(WmsHttpSourceParamsCfg {
        source: source.to_string(),
        layers: "roads".to_string(),
    })
}

fn not_found_name<P>(outcome: Result<TileSource<'_, P>, TileSourceError>) -> String {
    match outcome {
        Err(TileSourceError::TileSourceNotFound(name)) => name,
        Err(other) => panic!("another failure: {}", other.message()),
        Ok(_) => panic!("the source was resolved"),
    }
}

#[test]
fn postgis_layer_with_unknown_datasource_is_not_found() {
    let datasources = vec![postgis_ds("main")];
    let registry = Datasources::create(&datasources, vec![PoolSetup::Established(1u32)]).unwrap();
    let layer = postgis_layer(Some("other"));
    assert_eq!(not_found_name(registry.resolve_tile_source(&layer, Some(3857))), "other");
    let tms = tile_grid::tms().lookup("WebMercatorQuad").unwrap();
    assert_eq!(not_found_name(registry.setup_tile_source(&layer, &tms)), "other");
}

#[test]
fn postgis_layer_without_name_and_without_datasource_reports_default() {
    let datasources: Vec<NamedDatasourceCfg> = Vec::new();
    let registry: Datasources<u32> = Datasources::create(&datasources, Vec::new()).unwrap();
    let layer = postgis_layer(None);
    assert_eq!(not_found_name(registry.resolve_tile_source(&layer, None)), "(default)");
}

#[test]
fn postgis_layer_without_name_and_with_two_datasources_reports_default() {
    let datasources = vec![postgis_ds("a"), postgis_ds("b")];
    let registry = Datasources::create(&datasources, vec![PoolSetup::Established(1u32), PoolSetup::Established(2u32)]).unwrap();
    let layer = postgis_layer(None);
    assert_eq!(not_found_name(registry.resolve_tile_source(&layer, None)), "(default)");
    // by name both are found
    match registry.resolve_tile_source(&postgis_layer(Some("b")), None) {
        Ok(TileSource::Postgis { pool, .. }) => assert_eq!(*pool, 2),
        _ => panic!("expected the pool of b"),
    }
}

#[test]
fn wms_layer_with_unknown_datasource_is_not_found() {
    let datasources = vec![wms_ds("wms", "http://localhost/wms")];
    let registry: Datasources<u32> = Datasources::create(&datasources, vec![PoolSetup::NotNeeded]).unwrap();
    let layer = wms_layer("other");
    assert_eq!(not_found_name(registry.resolve_tile_source(&layer, Some(3857))), "other");
}

#[test]
fn wms_layer_on_datasource_of_another_kind_is_a_type_error() {
    let datasources = vec![gpkg_ds("files"), wms_ds("wms", "http://localhost/wms")];
    let registry: Datasources<u32> = Datasources::create(&datasources, vec![PoolSetup::NotNeeded, PoolSetup::NotNeeded]).unwrap();
    let layer = wms_layer("files");
    match registry.resolve_tile_source(&layer, Some(3857)) {
        Err(TileSourceError::TileSourceTypeError(kind)) => assert_eq!(kind, "wms_proxy"),
        _ => panic!("expected a type error"),
    }
    let fcgi = vec![NamedDatasourceCfg { name: "local".to_string(), datasource: DatasourceCfg::WmsFcgi }];
    let registry: Datasources<u32> = Datasources::create(&fcgi, vec![PoolSetup::NotNeeded]).unwrap();
    match registry.resolve_tile_source(&wms_layer("local"), Some(3857)) {
        Err(TileSourceError::TileSourceTypeError(kind)) => assert_eq!(kind, "wms_proxy"),
        _ => panic!("expected a type error"),
    }
}

#[test]
fn postgis_datasource_is_not_a_configuration_block() {
    // database datasources live in the pool registry only
    let datasources = vec![postgis_ds("main")];
    let registry = Datasources::create(&datasources, vec![PoolSetup::Established(1u32)]).unwrap();
    assert_eq!(not_found_name(registry.resolve_tile_source(&wms_layer("main"), Some(3857))), "main");
}

#[test]
fn registry_of_one_map_service() {
    let datasources = vec![wms_ds("wms", "http://localhost/wms")];
    let registry: Datasources<u32> = Datasources::create(&datasources, vec![PoolSetup::NotNeeded]).unwrap();
    assert_eq!(not_found_name(registry.resolve_tile_source(&postgis_layer(None), None)), "(default)");
    let layer = wms_layer("wms");
    match registry.resolve_tile_source(&layer, Some(3857)) {
        Ok(source) => {
            assert_eq!(source.source_type(), Some(SourceType::Raster));
            match source {
                TileSource::WmsHttp { provider, params, srid } => {
                    assert_eq!(provider.baseurl, "http://localhost/wms");
                    assert_eq!(provider.format, "image/png");
                    assert_eq!(params.source, "wms");
                    assert_eq!(params.layers, "roads");
                    assert_eq!(srid, Some(3857));
                },
                _ => panic!("expected a map service"),
            }
        },
        Err(e) => panic!("{}", e.message()),
    }
}

#[test]
fn single_postgis_datasource_is_the_default() {
    let datasources = vec![postgis_ds("main")];
    let registry = Datasources::create(&datasources, vec![PoolSetup::Established("pool of main".to_string())]).unwrap();
    let layer = postgis_layer(None);
    match registry.resolve_tile_source(&layer, Some(3857)) {
        Ok(source) => {
            assert_eq!(source.source_type(), Some(SourceType::Vector));
            match source {
                TileSource::Postgis { pool, query } => {
                    assert_eq!(pool, "pool of main");
                    assert_eq!(query.datasource, None);
                    assert_eq!(query.maxzoom, Some(14));
                },
                _ => panic!("expected a database"),
            }
        },
        Err(e) => panic!("{}", e.message()),
    }
    let tms = tile_grid::tms().lookup("WebMercatorQuad").unwrap();
    let source = registry.setup_tile_source(&layer, &tms).unwrap();
    assert_eq!(source.source_type(), Some(SourceType::Vector));
}

#[test]
fn create_keeps_pools_and_blocks_apart() {
    let datasources = vec![
        wms_ds("wms", "http://a/wms"),
        postgis_ds("db1"),
        gpkg_ds("files"),
        postgis_ds("db2"),
    ];
    let registry = Datasources::create(&datasources, vec![PoolSetup::NotNeeded, PoolSetup::Established(10u32), PoolSetup::NotNeeded, PoolSetup::Established(20u32)]).unwrap();
    match registry.resolve_tile_source(&postgis_layer(Some("db1")), None) {
        Ok(TileSource::Postgis { pool, .. }) => assert_eq!(*pool, 10),
        _ => panic!("expected the pool of db1"),
    }
    match registry.resolve_tile_source(&postgis_layer(Some("db2")), None) {
        Ok(TileSource::Postgis { pool, .. }) => assert_eq!(*pool, 20),
        _ => panic!("expected the pool of db2"),
    }
    assert_eq!(not_found_name(registry.resolve_tile_source(&postgis_layer(Some("wms")), None)), "wms");
    assert_eq!(not_found_name(registry.resolve_tile_source(&wms_layer("db1"), None)), "db1");
    assert!(registry.resolve_tile_source(&wms_layer("wms"), None).is_ok());
}

#[test]
fn create_lets_the_later_datasource_win() {
    let datasources = vec![
        wms_ds("wms", "http://first/wms"),
        postgis_ds("db"),
        wms_ds("wms", "http://second/wms"),
        postgis_ds("db"),
    ];
    let registry = Datasources::create(&datasources, vec![PoolSetup::NotNeeded, PoolSetup::Established(1u32), PoolSetup::NotNeeded, PoolSetup::Established(2u32)]).unwrap();
    match registry.resolve_tile_source(&wms_layer("wms"), None) {
        Ok(TileSource::WmsHttp { provider, srid, .. }) => {
            assert_eq!(provider.baseurl, "http://second/wms");
            assert_eq!(srid, None);
        },
        _ => panic!("expected a map service"),
    }
    // one name, one pool: it is the default
    match registry.resolve_tile_source(&postgis_layer(None), None) {
        Ok(TileSource::Postgis { pool, .. }) => assert_eq!(*pool, 2),
        _ => panic!("expected the later pool"),
    }
}

#[test]
fn create_leaves_out_a_database_without_pool() {
    let datasources = vec![postgis_ds("a"), postgis_ds("b"), postgis_ds("c")];
    // no pool for a, none handed in at all for c
    let registry = Datasources::create(&datasources, vec![PoolSetup::NotNeeded, PoolSetup::Established(5u32)]).unwrap();
    assert_eq!(not_found_name(registry.resolve_tile_source(&postgis_layer(Some("a")), None)), "a");
    assert_eq!(not_found_name(registry.resolve_tile_source(&postgis_layer(Some("c")), None)), "c");
    match registry.resolve_tile_source(&postgis_layer(None), None) {
        Ok(TileSource::Postgis { pool, .. }) => assert_eq!(*pool, 5),
        _ => panic!("expected the pool of b"),
    }
}

#[test]
fn create_drops_a_pool_handed_in_for_another_kind() {
    let datasources = vec![wms_ds("wms", "http://a/wms")];
    let registry = Datasources::create(&datasources, vec![PoolSetup::Established(1u32), PoolSetup::Established(2u32)]).unwrap();
    assert_eq!(not_found_name(registry.resolve_tile_source(&postgis_layer(None), None)), "(default)");
    assert_eq!(not_found_name(registry.resolve_tile_source(&postgis_layer(Some("wms")), None)), "wms");
}

#[test]
fn create_ends_with_the_first_failed_database() {
    let datasources = vec![
        postgis_ds("a"),
        wms_ds("wms", "http://a/wms"),
        postgis_ds("b"),
        postgis_ds("c"),
    ];
    let setups = vec![
        PoolSetup::Established(1u32),
        PoolSetup::NotNeeded,
        PoolSetup::Failed(sqlx::Error::PoolTimedOut),
        PoolSetup::Failed(sqlx::Error::PoolClosed),
    ];
    match Datasources::create(&datasources, setups) {
        Err(TileSourceError::DbError(cause)) => {
            assert!(matches!(cause, sqlx::Error::PoolTimedOut));
        },
        Err(other) => panic!("another failure: {}", other.message()),
        Ok(_) => panic!("the registry was made"),
    }
    let first = vec![PoolSetup::<u32>::Failed(sqlx::Error::RowNotFound)];
    match Datasources::create(&datasources, first) {
        Err(error) => assert_eq!(error.message(), sqlx::Error::RowNotFound.to_string()),
        Ok(_) => panic!("the registry was made"),
    }
}

#[test]
fn create_passes_over_a_failure_of_another_kind() {
    let datasources = vec![wms_ds("wms", "http://a/wms"), postgis_ds("db")];
    let setups = vec![PoolSetup::Failed(sqlx::Error::PoolClosed), PoolSetup::Established(3u32)];
    let registry = Datasources::create(&datasources, setups).unwrap();
    assert!(registry.resolve_tile_source(&wms_layer("wms"), None).is_ok());
    match registry.resolve_tile_source(&postgis_layer(None), None) {
        Ok(TileSource::Postgis { pool, .. }) => assert_eq!(*pool, 3),
        _ => panic!("expected the pool of db"),
    }
    // a failure that stands behind the end of the list is not looked at
    let behind = vec![PoolSetup::<u32>::NotNeeded, PoolSetup::NotNeeded, PoolSetup::Failed(sqlx::Error::PoolClosed)];
    assert!(Datasources::create(&datasources, behind).is_ok());
}

#[test]
fn default_registry_holds_nothing() {
    let registry: Datasources<u32> = Datasources::default();
    assert_eq!(not_found_name(registry.resolve_tile_source(&postgis_layer(None), None)), "(default)");
    assert_eq!(not_found_name(registry.resolve_tile_source(&wms_layer("wms"), None)), "wms");
}

#[test]
fn map_server_and_archive_need_no_datasource() {
    let registry: Datasources<u32> = Datasources::default();
    let fcgi = SourceParamCfg::WmsFcgi(WmsFcgiSourceParamsCfg {
        project: "ne".to_string(),
        suffix: "qgz".to_string(),
        layers: "country".to_string(),
    });
    match registry.resolve_tile_source(&fcgi, None) {
        Ok(source) => {
            assert_eq!(source.source_type(), Some(SourceType::Raster));
            match source {
                TileSource::WmsFcgi(params) => {
                    assert_eq!(params.project, "ne");
                    assert_eq!(params.suffix, "qgz");
                    assert_eq!(params.layers, "country");
                },
                _ => panic!("expected a map server"),
            }
        },
        Err(e) => panic!("{}", e.message()),
    }
    let archive = SourceParamCfg::Mbtiles(MbtilesStoreCfg { path: "missing.mbtiles".to_string() });
    match registry.resolve_tile_source(&archive, None) {
        Ok(source) => {
            assert_eq!(source.source_type(), None);
            match source {
                TileSource::Mbtiles(store) => assert_eq!(store.path, "missing.mbtiles"),
                _ => panic!("expected an archive"),
            }
        },
        Err(e) => panic!("{}", e.message()),
    }
}

#[test]
fn setup_reads_the_srid_of_the_tile_matrix_set() {
    let datasources = vec![wms_ds("wms", "http://localhost/wms")];
    let registry: Datasources<u32> = Datasources::create(&datasources, vec![PoolSetup::NotNeeded]).unwrap();
    let layer = wms_layer("wms");
    let mercator = tile_grid::tms().lookup("WebMercatorQuad").unwrap();
    match registry.setup_tile_source(&layer, &mercator) {
        Ok(TileSource::WmsHttp { srid, provider, .. }) => {
            assert_eq!(srid, Some(3857));
            assert_eq!(provider.baseurl, "http://localhost/wms");
        },
        _ => panic!("expected a map service"),
    }
    let wgs84 = tile_grid::tms().lookup("WorldCRS84Quad").unwrap();
    match registry.setup_tile_source(&layer, &wgs84) {
        Ok(TileSource::WmsHttp { srid, .. }) => assert_eq!(srid, Some(4326)),
        _ => panic!("expected a map service"),
    }
    let world_mercator = tile_grid::tms().lookup("WorldMercatorWGS84Quad").unwrap();
    match registry.setup_tile_source(&layer, &world_mercator) {
        Ok(TileSource::WmsHttp { srid, .. }) => {
            assert_eq!(srid, Some(3395));
            assert_eq!(srid, Some(world_mercator.crs().as_srid()));
        },
        _ => panic!("expected a map service"),
    }
}

#[test]
fn cloned_handle_refers_to_the_same_pool() {
    let datasources = vec![postgis_ds("main")];
    let registry = Datasources::create(&datasources, vec![PoolSetup::Established(vec![1u8, 2, 3])]).unwrap();
    let layer = postgis_layer(None);
    let source = registry.resolve_tile_source(&layer, None).unwrap();
    let copy = source.clone();
    match (source, copy) {
        (TileSource::Postgis { pool: first, .. }, TileSource::Postgis { pool: second, .. }) => {
            assert!(std::ptr::eq(first, second));
        },
        _ => panic!("expected two database handles"),
    }
}

#[test]
fn srid_of_reference_systems() {
    let crs = |authority, code: &str| CrsId { authority, version: "0".to_string(), code: code.to_string() };
    assert_eq!(crs(CrsAuthority::OGC, "CRS84").srid(), Some(4326));
    assert_eq!(crs(CrsAuthority::OGC, "CRS84h").srid(), Some(4979));
    assert_eq!(crs(CrsAuthority::OGC, "CRS27").srid(), None);
    assert_eq!(crs(CrsAuthority::OGC, "3857").srid(), None);
    assert_eq!(crs(CrsAuthority::OGC, "").srid(), None);
    assert_eq!(crs(CrsAuthority::EPSG, "3857").srid(), Some(3857));
    assert_eq!(crs(CrsAuthority::EPSG, "4326").srid(), Some(4326));
    assert_eq!(crs(CrsAuthority::EPSG, "2056").srid(), Some(2056));
    assert_eq!(crs(CrsAuthority::EPSG, "-1").srid(), Some(-1));
    assert_eq!(crs(CrsAuthority::EPSG, "CRS84").srid(), None);
    assert_eq!(crs(CrsAuthority::EPSG, "").srid(), None);
    assert_eq!(crs(CrsAuthority::EPSG, "99999999999").srid(), None);
    assert_eq!(crs(CrsAuthority::EPSG, " 3857").srid(), None);
}

#[test]
fn pool_settings_are_those_of_a_database() {
    let db = postgis_ds("main");
    assert_eq!(db.datasource.pool_settings().map(|cfg| cfg.url.as_str()), Some("postgresql://localhost/main"));
    assert!(wms_ds("wms", "http://a").datasource.pool_settings().is_none());
    assert!(gpkg_ds("files").datasource.pool_settings().is_none());
    assert!(DatasourceCfg::WmsFcgi.pool_settings().is_none());
}

#[test]
fn datasource_blocks_are_copied_as_they_are() {
    match wms_ds("wms", "http://a/wms").datasource.clone() {
        DatasourceCfg::WmsHttp(cfg) => {
            assert_eq!(cfg.baseurl, "http://a/wms");
            assert_eq!(cfg.format, "image/png");
        },
        _ => panic!("expected a map service"),
    }
    match gpkg_ds("files").datasource.clone() {
        DatasourceCfg::Gpkg(cfg) => assert_eq!(cfg.path, "data.gpkg"),
        _ => panic!("expected a file"),
    }
    match postgis_ds("main").datasource.clone() {
        DatasourceCfg::Postgis(cfg) => assert_eq!(cfg.url, "postgresql://localhost/main"),
        _ => panic!("expected a database"),
    }
    assert!(matches!(DatasourceCfg::WmsFcgi.clone(), DatasourceCfg::WmsFcgi));
}

#[test]
fn cli_argument_names_an_archive() {
    match source_config_from_cli_arg("tiles.mbtiles") {
        Some(SourceParamCfg::Mbtiles(store)) => assert_eq!(store.path, "tiles.mbtiles"),
        _ => panic!("expected an archive"),
    }
    match source_config_from_cli_arg("/data/maps/world.mbtiles") {
        Some(SourceParamCfg::Mbtiles(store)) => assert_eq!(store.path, "/data/maps/world.mbtiles"),
        _ => panic!("expected an archive"),
    }
    match source_config_from_cli_arg("https://example.org/tiles/zürich.mbtiles") {
        Some(SourceParamCfg::Mbtiles(store)) => {
            assert_eq!(store.path, "https://example.org/tiles/zürich.mbtiles")
        },
        _ => panic!("expected an archive"),
    }
    assert_eq!(
        MbtilesStoreCfg::config_from_cli_arg("a.mbtiles").map(|store| store.path),
        Some("a.mbtiles".to_string())
    );
}

#[test]
fn cli_argument_of_another_form_gives_nothing() {
    assert!(source_config_from_cli_arg("").is_none());
    assert!(source_config_from_cli_arg("tiles").is_none());
    assert!(source_config_from_cli_arg("mbtiles").is_none());
    assert!(source_config_from_cli_arg(".mbtiles").is_none());
    assert!(source_config_from_cli_arg("/data/.mbtiles").is_none());
    assert!(source_config_from_cli_arg("tiles.pmtiles").is_none());
    assert!(source_config_from_cli_arg("tiles.mbtiles.bak").is_none());
    assert!(source_config_from_cli_arg("tiles.MBTILES").is_none());
    assert!(source_config_from_cli_arg("tilesmbtiles").is_none());
    assert!(source_config_from_cli_arg("tiles.mbtiles/").is_none());
    assert!(source_config_from_cli_arg("bbox.toml").is_none());
}

#[test]
fn failure_texts() {
    assert_eq!(
        TileSourceError::TileSourceNotFound("main".to_string()).message(),
        "tileserver.source `main` not found"
    );
    assert_eq!(
        TileSourceError::TileSourceNotFound("(default)".to_string()).message(),
        "tileserver.source `(default)` not found"
    );
    assert_eq!(
        TileSourceError::TileSourceTypeError("wms_proxy".to_string()).message(),
        "tileserver.source of type wms_proxy expected"
    );
    assert_eq!(TileSourceError::TileXyzError.message(), "tile not found / out of bounds");
    assert_eq!(
        TileSourceError::SuffixNotFound("qgz".to_string()).message(),
        "FCGI for suffix `qgz` not found"
    );
    assert_eq!(TileSourceError::TypeDetectionError.message(), "Source field type detection failed");
    assert_eq!(TileSourceError::MvtEncodeError.message(), "MVT encoding error");
    let out_of_range = u8::try_from(300u32).unwrap_err();
    assert_eq!(TileSourceError::IntRangeError(out_of_range).message(), "Integer out of range");
}

#[test]
fn wrapped_failures_speak_with_the_text_of_the_cause() {
    let registry = tile_grid::RegistryError::TmsNotFound("Moon".to_string());
    let expected = registry.to_string();
    assert_eq!(TileSourceError::from(registry).message(), expected);
    let db = sqlx::Error::RowNotFound;
    let expected = db.to_string();
    assert_eq!(TileSourceError::from(db).message(), expected);
    let archive = martin_mbtiles::MbtError::InvalidDataFormat("missing.mbtiles".to_string());
    let expected = archive.to_string();
    assert_eq!(TileSourceError::from(archive).message(), expected);
    let geometry = geozero::error::GeozeroError::Srid(7);
    let expected = geometry.to_string();
    assert_eq!(TileSourceError::from(geometry).message(), expected);
    let io = std::io::Error::new(std::io::ErrorKind::BrokenPipe, "process gone");
    let expected = io.to_string();
    assert_eq!(TileSourceError::from(io).message(), expected);
}

#[test]
fn outside_failures_map_to_their_kind() {
    let registry = tile_grid::tms().lookup("NoSuchGrid").unwrap_err();
    assert!(matches!(TileSourceError::from(registry), TileSourceError::RegistryError(_)));
    let io = std::io::Error::new(std::io::ErrorKind::Other, "fcgi");
    assert!(matches!(TileSourceError::from(io), TileSourceError::FcgiError(_)));
    assert!(matches!(TileSourceError::from(sqlx::Error::PoolTimedOut), TileSourceError::DbError(_)));
    let out_of_range = i8::try_from(1000i32).unwrap_err();
    assert!(matches!(TileSourceError::from(out_of_range), TileSourceError::IntRangeError(_)));
    assert!(matches!(
        TileSourceError::from(geozero::error::GeozeroError::GeometryFormat),
        TileSourceError::GeozeroError(_)
    ));
    let http = reqwest::Client::new().get("not an address").build().unwrap_err();
    assert!(matches!(TileSourceError::from(http), TileSourceError::WmsHttpError(_)));
    assert!(matches!(
        TileSourceError::from(martin_mbtiles::MbtError::NoTilesFound),
        TileSourceError::MbtilesError(_)
    ));
}

#[test]
fn missing_archive_is_an_archive_failure() {
    // what opening an archive that is not there hands back
    let refused = martin_mbtiles::MbtError::from(sqlx::Error::Io(std::io::Error::new(
        std::io::ErrorKind::NotFound,
        "missing.mbtiles",
    )));
    let outcome: Result<u32, martin_mbtiles::MbtError> = Err(refused);
    match outcome.map_err(TileSourceError::from) {
        Err(TileSourceError::MbtilesError(_)) => {},
        _ => panic!("expected an archive failure"),
    }
}

#[test]
fn layer_info_and_metrics() {
    let layer = LayerInfo { name: "roads".to_string(), geometry_type: Some("LINESTRING".to_string()) };
    assert_eq!(layer.name, "roads");
    assert_eq!(layer.geometry_type.as_deref(), Some("LINESTRING"));
    let service = MapService;
    let _metrics: &WmsMetrics = service.metrics();
    let _fresh = WmsMetrics::default();
    assert_eq!(SourceType::Vector, SourceType::Vector);
    assert_ne!(SourceType::Vector, SourceType::Raster);
}
