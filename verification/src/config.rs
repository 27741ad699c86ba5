//! The settings of the web server and of its metrics, as they come out of
//! the application's configuration.

use crate::text::text_view;
use vstd::prelude::*;
use vstd::string::*;

verus! {

/// The address that the server listens on where none is configured.
pub open spec fn default_server_addr_text() -> Seq<char> {
    "127.0.0.1:8080"@
}

/// The configuration file that is read where the environment names none.
pub open spec fn default_config_file() -> Seq<char> {
    "bbox.toml"@
}

/// The address that the server listens on where none is configured.
pub fn default_server_addr() -> (addr: String)
    ensures
        addr@ == default_server_addr_text(),
{
    "127.0.0.1:8080".to_owned()
}

/// The configuration file to read: the one that the environment names, and
/// `bbox.toml` where it names none.
pub fn config_file(from_env: Option<String>) -> (file: String)
    ensures
        file@ == match from_env {
            Some(name) => name@,
            None => default_config_file(),
        },
{
    match from_env {
        Some(name) => name,
        None => "bbox.toml".to_owned(),
    }
}

/// The line that reports a failure during startup.
pub fn initialization_error(cause: &str) -> (line: String)
    ensures
        line@ == "Error during initialization: "@ + cause@,
{
    "Error during initialization: ".to_owned().concat(cause)
}

/// Calls `num_cpus::get`: the number of processors that this process may
/// use, which is at least one. The number depends on the machine.
#[verifier::external_body]
fn available_cpus() -> (cpus: usize)
    ensures
        cpus >= 1,
{
    num_cpus::get()
}

/// The settings of the web server.
#[derive(Clone, Debug)]
pub struct WebserverCfg {
    pub server_addr: String,
    worker_threads: Option<usize>,
    public_server_url: Option<String>,
}

/// The settings of the web server, with texts as sequences of characters.
pub struct WebserverCfgView {
    pub server_addr: Seq<char>,
    pub worker_threads: Option<usize>,
    pub public_server_url: Option<Seq<char>>,
}

impl View for WebserverCfg {
    type V = WebserverCfgView;

    closed spec fn view(&self) -> WebserverCfgView {
        WebserverCfgView {
            server_addr: self.server_addr@,
            worker_threads: self.worker_threads,
            public_server_url: text_view(self.public_server_url),
        }
    }
}

/// The number of worker threads of a server on a machine with `cpus`
/// processors: the configured number, or one thread for each processor.
pub open spec fn worker_threads_of(cfg: WebserverCfgView, cpus: usize) -> usize {
    match cfg.worker_threads {
        Some(threads) => threads,
        None => cpus,
    }
}

/// The address under which clients reach the server: the configured public
/// address, or the scheme and host of the request that asks.
pub open spec fn public_server_url_of(cfg: WebserverCfgView, scheme: Seq<char>, host: Seq<char>) -> Seq<
    char,
> {
    match cfg.public_server_url {
        Some(url) => url,
        None => scheme + "://"@ + host,
    }
}

impl Default for WebserverCfg {
    fn default() -> (cfg: Self)
        ensures
            cfg@ == (WebserverCfgView {
                server_addr: default_server_addr_text(),
                worker_threads: None,
                public_server_url: None,
            }),
    {
        WebserverCfg {
            server_addr: default_server_addr(),
            worker_threads: None,
            public_server_url: None,
        }
    }
}

impl WebserverCfg {
    /// The settings made of the values found under `webserver` in the
    /// configuration. An address that was not configured is the default one.
    pub fn from_config(
        server_addr: Option<String>,
        worker_threads: Option<usize>,
        public_server_url: Option<String>,
    ) -> (cfg: Self)
        ensures
            cfg@ == (WebserverCfgView {
                server_addr: match server_addr {
                    Some(addr) => addr@,
                    None => default_server_addr_text(),
                },
                worker_threads,
                public_server_url: text_view(public_server_url),
            }),
    {
        let server_addr = match server_addr {
            Some(addr) => addr,
            None => default_server_addr(),
        };
        WebserverCfg { server_addr, worker_threads, public_server_url }
    }

    /// The number of worker threads on a machine with `cpus` processors.
    pub fn worker_threads_on(&self, cpus: usize) -> (threads: usize)
        ensures
            threads == worker_threads_of(self@, cpus),
    {
        match self.worker_threads {
            Some(threads) => threads,
            None => cpus,
        }
    }

    /// The number of worker threads on this machine: the configured number,
    /// or one thread for each processor that the process may use.
    pub fn worker_threads(&self) -> (threads: usize)
        ensures
            exists|cpus: usize| cpus >= 1 && threads == #[trigger] worker_threads_of(self@, cpus),
            self@.worker_threads matches Some(configured) ==> threads == configured,
            self@.worker_threads is None ==> threads >= 1,
    {
        let cpus = available_cpus();
        let threads = self.worker_threads_on(cpus);
        assert(threads == worker_threads_of(self@, cpus));
        threads
    }

    /// The address under which clients reach the server, for a request that
    /// came in with this scheme and for this host.
    pub fn public_server_url(&self, scheme: &str, host: &str) -> (url: String)
        ensures
            url@ == public_server_url_of(self@, scheme@, host@),
    {
        match &self.public_server_url {
            Some(url) => url.clone(),
            None => scheme.to_owned().concat("://").concat(host),
        }
    }
}

/// Where the metrics are published for Prometheus.
#[derive(Clone, Debug)]
pub struct PrometheusCfg {
    pub path: String,
}

/// Where traces are sent for Jaeger.
#[derive(Clone, Debug)]
pub struct JaegerCfg {
    pub agent_endpoint: String,
}

/// The settings of the server's metrics.
#[derive(Clone, Debug)]
pub struct MetricsCfg {
    pub prometheus: Option<PrometheusCfg>,
    pub jaeger: Option<JaegerCfg>,
}

impl Default for MetricsCfg {
    fn default() -> (cfg: Self)
        ensures
            cfg.prometheus is None,
            cfg.jaeger is None,
    {
        MetricsCfg { prometheus: None, jaeger: None }
    }
}

impl MetricsCfg {
    /// The settings made of the values found under `metrics` in the
    /// configuration.
    pub fn from_config(prometheus: Option<PrometheusCfg>, jaeger: Option<JaegerCfg>) -> (cfg: Self)
        ensures
            cfg.prometheus == prometheus,
            cfg.jaeger == jaeger,
    {
        MetricsCfg { prometheus, jaeger }
    }
}

} // verus!
