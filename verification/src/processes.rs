//! The processes service: what it announces on the landing page, the
//! conformance classes it declares, and the answers of its endpoints.

use crate::text::{text_view, texts};
use vstd::prelude::*;
use vstd::string::*;

verus! {

/// A link to a resource.
#[derive(Clone, Debug)]
pub struct ApiLink {
    pub href: String,
    pub rel: Option<String>,
    pub type_: Option<String>,
    pub title: Option<String>,
    pub hreflang: Option<String>,
    pub length: Option<u64>,
}

/// A link with texts as sequences of characters.
pub struct ApiLinkView {
    pub href: Seq<char>,
    pub rel: Option<Seq<char>>,
    pub type_: Option<Seq<char>>,
    pub title: Option<Seq<char>>,
    pub hreflang: Option<Seq<char>>,
    pub length: Option<u64>,
}

impl View for ApiLink {
    type V = ApiLinkView;

    open spec fn view(&self) -> ApiLinkView {
        ApiLinkView {
            href: self.href@,
            rel: text_view(self.rel),
            type_: text_view(self.type_),
            title: text_view(self.title),
            hreflang: text_view(self.hreflang),
            length: self.length,
        }
    }
}

/// What the services of a server announce together.
#[derive(Clone, Debug)]
pub struct OgcApiInventory {
    pub landing_page_links: Vec<ApiLink>,
    pub conformance_classes: Vec<String>,
}

/// The description of the service's interface.
#[derive(Clone, Copy, Debug)]
pub struct ApiDoc;

/// The backend that runs the processes.
#[derive(Clone, Copy, Debug)]
pub struct DagsterBackend;

impl DagsterBackend {
    pub fn new() -> (backend: Self) {
        DagsterBackend
    }
}

/// The settings of the backend that runs the processes.
#[derive(Clone, Debug)]
pub struct DagsterBackendCfg {
    pub graphql_url: String,
}

/// The settings of the processes service.
#[derive(Clone, Debug)]
pub struct ProcessesServerCfg {
    pub dagster_backend: Option<DagsterBackendCfg>,
}

/// The processes service, with its backend where one is configured.
#[derive(Clone, Debug)]
pub struct ProcessesService {
    pub backend: Option<DagsterBackend>,
}

/// A job of the backend.
#[derive(Clone, Debug)]
pub struct Job {
    pub name: String,
    pub description: Option<String>,
}

/// The summary of one process.
#[derive(Clone, Debug)]
pub struct ProcessSummary {
    pub id: String,
    pub version: String,
    pub description: Option<String>,
}

/// A process summary with texts as sequences of characters.
pub struct ProcessSummaryView {
    pub id: Seq<char>,
    pub version: Seq<char>,
    pub description: Option<Seq<char>>,
}

impl View for ProcessSummary {
    type V = ProcessSummaryView;

    open spec fn view(&self) -> ProcessSummaryView {
        ProcessSummaryView {
            id: self.id@,
            version: self.version@,
            description: text_view(self.description),
        }
    }
}

/// The list of processes that the service offers.
#[derive(Clone, Debug)]
pub struct ProcessList {
    pub processes: Vec<ProcessSummary>,
    pub links: Vec<ApiLink>,
}

/// The answer to a request to run a process.
#[derive(Debug)]
pub enum ExecuteReply<J> {
    /// The job was created; the reply carries what identifies it.
    Created(J),
    /// The backend failed; the reply carries its words.
    ServerError(String),
}

/// The link to the list of processes.
pub open spec fn processes_link() -> ApiLinkView {
    ApiLinkView {
        href: "/processes"@,
        rel: Some("processes"@),
        type_: Some("application/json"@),
        title: Some("OGC API processes list"@),
        hreflang: None,
        length: None,
    }
}

/// The conformance classes that the service declares of itself.
pub open spec fn service_conformance_classes() -> Seq<Seq<char>> {
    seq![
        "http://www.opengis.net/spec/ogcapi-processes-1/1.0/conf/core"@,
        "http://www.opengis.net/spec/ogcapi-processes-1/1.0/conf/json"@,
        "http://www.opengis.net/spec/ogcapi-processes-1/1.0/conf/oas30"@,
    ]
}

/// The conformance classes that the service adds to a server's inventory.
pub open spec fn inventory_conformance_classes() -> Seq<Seq<char>> {
    seq![
        "http://www.opengis.net/spec/ogcapi-processes-1/1.0/conf/core"@,
        "http://www.opengis.net/spec/ogcapi-processes-1/1.0/conf/ogc-process-description"@,
        "http://www.opengis.net/spec/ogcapi-processes-1/1.0/conf/json"@,
        "http://www.opengis.net/spec/ogcapi-processes-1/1.0/conf/oas30"@,
    ]
}

/// The summary under which a job of the backend is offered as a process.
pub open spec fn summary_of(job: Job) -> ProcessSummaryView {
    ProcessSummaryView {
        id: job.name@,
        version: "1.0.0"@,
        description: text_view(job.description),
    }
}

/// The summaries of a list of jobs, in the order of the jobs.
pub open spec fn summaries_of(jobs: Seq<Job>) -> Seq<ProcessSummaryView> {
    jobs.map_values(|job: Job| summary_of(job))
}

/// What each summary of a list says.
pub open spec fn summary_views(list: Seq<ProcessSummary>) -> Seq<ProcessSummaryView> {
    list.map_values(|summary: ProcessSummary| summary@)
}

fn make_processes_link() -> (link: ApiLink)
    ensures
        link@ == processes_link(),
{
    ApiLink {
        href: "/processes".to_owned(),
        rel: Some("processes".to_owned()),
        type_: Some("application/json".to_owned()),
        title: Some("OGC API processes list".to_owned()),
        hreflang: None,
        length: None,
    }
}

impl ProcessSummary {
    /// The summary of the process `id` in this version, without a
    /// description.
    pub fn new(id: String, version: String) -> (summary: Self)
        ensures
            summary.id == id,
            summary.version == version,
            summary.description is None,
    {
        ProcessSummary { id, version, description: None }
    }
}

impl<J> ExecuteReply<J> {
    /// The status code of the reply: 201 where the job was created, 500
    /// where the backend failed.
    pub fn status(&self) -> (code: u16)
        ensures
            code == match *self {
                ExecuteReply::Created(_) => 201u16,
                ExecuteReply::ServerError(_) => 500u16,
            },
    {
        match self {
            ExecuteReply::Created(_) => 201,
            ExecuteReply::ServerError(_) => 500,
        }
    }
}

impl ProcessesService {
    /// The service for these settings: with a backend where the settings
    /// hold one.
    pub fn from_config(config: &ProcessesServerCfg) -> (service: Self)
        ensures
            service.backend is Some <==> config.dagster_backend is Some,
    {
        let backend = match &config.dagster_backend {
            Some(_) => Some(DagsterBackend::new()),
            None => None,
        };
        ProcessesService { backend }
    }

    /// The conformance classes that the service declares.
    pub fn conformance_classes(&self) -> (classes: Vec<String>)
        ensures
            texts(classes@) == service_conformance_classes(),
    {
        let mut classes: Vec<String> = Vec::new();
        classes.push("http://www.opengis.net/spec/ogcapi-processes-1/1.0/conf/core".to_owned());
        classes.push("http://www.opengis.net/spec/ogcapi-processes-1/1.0/conf/json".to_owned());
        classes.push("http://www.opengis.net/spec/ogcapi-processes-1/1.0/conf/oas30".to_owned());
        assert(texts(classes@) =~= service_conformance_classes());
        classes
    }

    /// The links that the service puts on the landing page: the one to the
    /// list of processes.
    pub fn landing_page_links(&self, _api_base: &str) -> (links: Vec<ApiLink>)
        ensures
            links@.len() == 1,
            links@[0]@ == processes_link(),
    {
        let mut links: Vec<ApiLink> = Vec::new();
        links.push(make_processes_link());
        links
    }
}

/// Enters the service into a server's inventory: the link to the list of
/// processes goes behind the links that are there, the service's four
/// conformance classes behind the classes that are there.
pub fn init_service(api: &mut OgcApiInventory)
    ensures
        final(api).landing_page_links@.len() == old(api).landing_page_links@.len() + 1,
        final(api).landing_page_links@.drop_last() == old(api).landing_page_links@,
        final(api).landing_page_links@.last()@ == processes_link(),
        final(api).conformance_classes@.len() == old(api).conformance_classes@.len() + 4,
        final(api).conformance_classes@.subrange(0, old(api).conformance_classes@.len() as int)
            == old(api).conformance_classes@,
        texts(
            final(api).conformance_classes@.subrange(
                old(api).conformance_classes@.len() as int,
                final(api).conformance_classes@.len() as int,
            ),
        ) == inventory_conformance_classes(),
{
    api.landing_page_links.push(make_processes_link());
    api.conformance_classes.push(
        "http://www.opengis.net/spec/ogcapi-processes-1/1.0/conf/core".to_owned(),
    );
    api.conformance_classes.push(
        "http://www.opengis.net/spec/ogcapi-processes-1/1.0/conf/ogc-process-description".to_owned(),
    );
    api.conformance_classes.push(
        "http://www.opengis.net/spec/ogcapi-processes-1/1.0/conf/json".to_owned(),
    );
    api.conformance_classes.push(
        "http://www.opengis.net/spec/ogcapi-processes-1/1.0/conf/oas30".to_owned(),
    );
    proof {
        let before = old(api).conformance_classes@;
        let after = api.conformance_classes@;
        assert(api.landing_page_links@.drop_last() =~= old(api).landing_page_links@);
        assert(after.subrange(0, before.len() as int) =~= before);
        assert(texts(after.subrange(before.len() as int, after.len() as int))
            =~= inventory_conformance_classes());
    }
}

/// The list of processes for what the backend answered when asked for its
/// jobs: one summary for each job, in version 1.0.0 and with the job's
/// description; no process where the backend failed. The list carries no
/// links.
pub fn process_list<E>(jobs: &Result<Vec<Job>, E>) -> (list: ProcessList)
    ensures
        list.links@.len() == 0,
        summary_views(list.processes@) == match *jobs {
            Ok(jobs) => summaries_of(jobs@),
            Err(_) => Seq::<ProcessSummaryView>::empty(),
        },
{
    let mut processes: Vec<ProcessSummary> = Vec::new();
    match jobs {
        Ok(jobs) => {
            let mut i: usize = 0;
            while i < jobs.len()
                invariant
                    i <= jobs.len(),
                    processes@.len() == i,
                    forall|k: int| 0 <= k < i ==> (#[trigger] processes@[k])@ == summary_of(jobs@[k]),
                decreases jobs.len() - i,
            {
                let job = &jobs[i];
                let mut process = ProcessSummary::new(job.name.clone(), "1.0.0".to_owned());
                process.description = match &job.description {
                    Some(text) => Some(text.clone()),
                    None => None,
                };
                processes.push(process);
                i += 1;
            }
            assert(summary_views(processes@) =~= summaries_of(jobs@));
        },
        Err(_) => {
            assert(summary_views(processes@) =~= Seq::<ProcessSummaryView>::empty());
        },
    }
    ProcessList { processes, links: Vec::new() }
}

/// The answer to a request to run a process, for what the backend answered.
pub fn execute_reply<J>(outcome: Result<J, String>) -> (reply: ExecuteReply<J>)
    ensures
        reply == match outcome {
            Ok(job) => ExecuteReply::Created(job),
            Err(cause) => ExecuteReply::<J>::ServerError(cause),
        },
{
    match outcome {
        Ok(job) => ExecuteReply::Created(job),
        Err(cause) => ExecuteReply::ServerError(cause),
    }
}

} // verus!
