//! The BigQuery client and the per-resource API handles it owns.

use vstd::prelude::*;

use reqwest::Client as HttpClient;

verus! {

/// Base URL of the BigQuery v2 REST API.
pub const BIG_QUERY_V2_URL: &'static str = "https://bigquery.googleapis.com/bigquery/v2";

/// The user agent that the HTTP client sends with every request.
pub const USER_AGENT: &'static str = "alvin-connect-service/1.0 (GPN:Alvin.ai;)";

/// Whether a `GCP_MAX_TLS_VERSION` setting caps the HTTP client at TLS 1.2:
/// it does when the setting is present and is exactly `1.2`.
pub fn caps_tls_at_1_2(setting: Option<&str>) -> (r: bool)
    ensures
        r == (setting matches Some(s) && s@ == "1.2"@),
{
    match setting {
        Some(s) => s.to_owned() == "1.2".to_owned(),
        None => false,
    }
}

/// What a REST resource handle is: the endpoint it sends to and the HTTP
/// client it sends with.
pub struct RestApiView {
    pub base_url: Seq<char>,
    pub http: HttpClient,
}

/// Handle on the dataset endpoints of the REST API.
#[derive(Clone)]
pub struct DatasetApi {
    client: HttpClient,
    base_url: String,
}

impl View for DatasetApi {
    type V = RestApiView;

    closed spec fn view(&self) -> RestApiView {
        RestApiView { base_url: self.base_url@, http: self.client }
    }
}

impl DatasetApi {
    /// Builds a handle that sends to `base_url` through `client`.
    pub fn new(client: HttpClient, base_url: String) -> (api: Self)
        ensures
            api@ == (RestApiView { base_url: base_url@, http: client }),
    {
        DatasetApi { client, base_url }
    }

    /// The base URL this handle sends to.
    pub fn base_url(&self) -> (url: &str)
        ensures
            url@ == self@.base_url,
    {
        self.base_url.as_str()
    }

    /// Points this handle at another base URL; the HTTP client is kept.
    pub fn with_base_url(&mut self, base_url: String) -> (ret: &mut Self)
        ensures
            ret@ == (RestApiView { base_url: base_url@, ..old(self)@ }),
            *final(self) == *final(ret),
    {
        self.base_url = base_url;
        self
    }
}

/// Handle on the table endpoints of the REST API.
#[derive(Clone)]
pub struct TableApi {
    client: HttpClient,
    base_url: String,
}

impl View for TableApi {
    type V = RestApiView;

    closed spec fn view(&self) -> RestApiView {
        RestApiView { base_url: self.base_url@, http: self.client }
    }
}

impl TableApi {
    /// Builds a handle that sends to `base_url` through `client`.
    pub fn new(client: HttpClient, base_url: String) -> (api: Self)
        ensures
            api@ == (RestApiView { base_url: base_url@, http: client }),
    {
        TableApi { client, base_url }
    }

    /// The base URL this handle sends to.
    pub fn base_url(&self) -> (url: &str)
        ensures
            url@ == self@.base_url,
    {
        self.base_url.as_str()
    }

    /// Points this handle at another base URL; the HTTP client is kept.
    pub fn with_base_url(&mut self, base_url: String) -> (ret: &mut Self)
        ensures
            ret@ == (RestApiView { base_url: base_url@, ..old(self)@ }),
            *final(self) == *final(ret),
    {
        self.base_url = base_url;
        self
    }
}

/// Handle on the job endpoints of the REST API.
#[derive(Clone)]
pub struct JobApi {
    client: HttpClient,
    base_url: String,
}

impl View for JobApi {
    type V = RestApiView;

    closed spec fn view(&self) -> RestApiView {
        RestApiView { base_url: self.base_url@, http: self.client }
    }
}

impl JobApi {
    /// Builds a handle that sends to `base_url` through `client`.
    pub fn new(client: HttpClient, base_url: String) -> (api: Self)
        ensures
            api@ == (RestApiView { base_url: base_url@, http: client }),
    {
        JobApi { client, base_url }
    }

    /// The base URL this handle sends to.
    pub fn base_url(&self) -> (url: &str)
        ensures
            url@ == self@.base_url,
    {
        self.base_url.as_str()
    }

    /// Points this handle at another base URL; the HTTP client is kept.
    pub fn with_base_url(&mut self, base_url: String) -> (ret: &mut Self)
        ensures
            ret@ == (RestApiView { base_url: base_url@, ..old(self)@ }),
            *final(self) == *final(ret),
    {
        self.base_url = base_url;
        self
    }
}

/// Handle on the table data endpoints of the REST API.
#[derive(Clone)]
pub struct TableDataApi {
    client: HttpClient,
    base_url: String,
}

impl View for TableDataApi {
    type V = RestApiView;

    closed spec fn view(&self) -> RestApiView {
        RestApiView { base_url: self.base_url@, http: self.client }
    }
}

impl TableDataApi {
    /// Builds a handle that sends to `base_url` through `client`.
    pub fn new(client: HttpClient, base_url: String) -> (api: Self)
        ensures
            api@ == (RestApiView { base_url: base_url@, http: client }),
    {
        TableDataApi { client, base_url }
    }

    /// The base URL this handle sends to.
    pub fn base_url(&self) -> (url: &str)
        ensures
            url@ == self@.base_url,
    {
        self.base_url.as_str()
    }

    /// Points this handle at another base URL; the HTTP client is kept.
    pub fn with_base_url(&mut self, base_url: String) -> (ret: &mut Self)
        ensures
            ret@ == (RestApiView { base_url: base_url@, ..old(self)@ }),
            *final(self) == *final(ret),
    {
        self.base_url = base_url;
        self
    }
}

/// Handle on the routine endpoints of the REST API.
#[derive(Clone)]
pub struct RoutineApi {
    client: HttpClient,
    base_url: String,
}

impl View for RoutineApi {
    type V = RestApiView;

    closed spec fn view(&self) -> RestApiView {
        RestApiView { base_url: self.base_url@, http: self.client }
    }
}

impl RoutineApi {
    /// Builds a handle that sends to `base_url` through `client`.
    pub fn new(client: HttpClient, base_url: String) -> (api: Self)
        ensures
            api@ == (RestApiView { base_url: base_url@, http: client }),
    {
        RoutineApi { client, base_url }
    }

    /// The base URL this handle sends to.
    pub fn base_url(&self) -> (url: &str)
        ensures
            url@ == self@.base_url,
    {
        self.base_url.as_str()
    }

    /// Points this handle at another base URL; the HTTP client is kept.
    pub fn with_base_url(&mut self, base_url: String) -> (ret: &mut Self)
        ensures
            ret@ == (RestApiView { base_url: base_url@, ..old(self)@ }),
            *final(self) == *final(ret),
    {
        self.base_url = base_url;
        self
    }
}

/// Handle on the model endpoints of the REST API.
#[derive(Clone)]
pub struct ModelApi {
    client: HttpClient,
    base_url: String,
}

impl View for ModelApi {
    type V = RestApiView;

    closed spec fn view(&self) -> RestApiView {
        RestApiView { base_url: self.base_url@, http: self.client }
    }
}

impl ModelApi {
    /// Builds a handle that sends to `base_url` through `client`.
    pub fn new(client: HttpClient, base_url: String) -> (api: Self)
        ensures
            api@ == (RestApiView { base_url: base_url@, http: client }),
    {
        ModelApi { client, base_url }
    }

    /// The base URL this handle sends to.
    pub fn base_url(&self) -> (url: &str)
        ensures
            url@ == self@.base_url,
    {
        self.base_url.as_str()
    }

    /// Points this handle at another base URL; the HTTP client is kept.
    pub fn with_base_url(&mut self, base_url: String) -> (ret: &mut Self)
        ensures
            ret@ == (RestApiView { base_url: base_url@, ..old(self)@ }),
            *final(self) == *final(ret),
    {
        self.base_url = base_url;
        self
    }
}

/// Handle on the project endpoints of the REST API.
#[derive(Clone)]
pub struct ProjectApi {
    client: HttpClient,
    base_url: String,
}

impl View for ProjectApi {
    type V = RestApiView;

    closed spec fn view(&self) -> RestApiView {
        RestApiView { base_url: self.base_url@, http: self.client }
    }
}

impl ProjectApi {
    /// Builds a handle that sends to `base_url` through `client`.
    pub fn new(client: HttpClient, base_url: String) -> (api: Self)
        ensures
            api@ == (RestApiView { base_url: base_url@, http: client }),
    {
        ProjectApi { client, base_url }
    }

    /// The base URL this handle sends to.
    pub fn base_url(&self) -> (url: &str)
        ensures
            url@ == self@.base_url,
    {
        self.base_url.as_str()
    }

    /// Points this handle at another base URL; the HTTP client is kept.
    pub fn with_base_url(&mut self, base_url: String) -> (ret: &mut Self)
        ensures
            ret@ == (RestApiView { base_url: base_url@, ..old(self)@ }),
            *final(self) == *final(ret),
    {
        self.base_url = base_url;
        self
    }
}

/// Handle on the BigQuery Storage API. Its gRPC channels are opened by the
/// caller; the handle records the endpoint they are addressed to.
#[derive(Clone)]
pub struct StorageApi {
    base_url: String,
}

impl View for StorageApi {
    type V = Seq<char>;

    closed spec fn view(&self) -> Seq<char> {
        self.base_url@
    }
}

impl StorageApi {
    /// Builds a handle addressed to `base_url`.
    pub fn new(base_url: String) -> (api: Self)
        ensures
            api@ == base_url@,
    {
        StorageApi { base_url }
    }

    /// The base URL this handle is addressed to.
    pub fn base_url(&self) -> (url: &str)
        ensures
            url@ == self@,
    {
        self.base_url.as_str()
    }

    /// Points this handle at another base URL.
    pub fn with_base_url(&mut self, base_url: String) -> (ret: &mut Self)
        ensures
            ret@ == base_url@,
            *final(self) == *final(ret),
    {
        self.base_url = base_url;
        self
    }
}

/// What a client is: the view of each of its handles.
pub struct ClientView {
    pub dataset: RestApiView,
    pub table: RestApiView,
    pub job: RestApiView,
    pub tabledata: RestApiView,
    pub routine: RestApiView,
    pub model: RestApiView,
    pub project: RestApiView,
    pub storage: Seq<char>,
}

impl ClientView {
    /// The client after every handle has been pointed at `base_url`; the
    /// HTTP clients are kept.
    pub open spec fn rebased(self, base_url: Seq<char>) -> ClientView {
        ClientView {
            dataset: RestApiView { base_url: base_url, ..self.dataset },
            table: RestApiView { base_url: base_url, ..self.table },
            job: RestApiView { base_url: base_url, ..self.job },
            tabledata: RestApiView { base_url: base_url, ..self.tabledata },
            routine: RestApiView { base_url: base_url, ..self.routine },
            model: RestApiView { base_url: base_url, ..self.model },
            project: RestApiView { base_url: base_url, ..self.project },
            storage: base_url,
        }
    }

    /// Every REST handle of the client is `api`.
    pub open spec fn rest_handles_are(self, api: RestApiView) -> bool {
        &&& self.dataset == api
        &&& self.table == api
        &&& self.job == api
        &&& self.tabledata == api
        &&& self.routine == api
        &&& self.model == api
        &&& self.project == api
    }

    /// Every handle of the client is addressed to `base_url`.
    pub open spec fn all_addressed_to(self, base_url: Seq<char>) -> bool {
        &&& self.dataset.base_url == base_url
        &&& self.table.base_url == base_url
        &&& self.job.base_url == base_url
        &&& self.tabledata.base_url == base_url
        &&& self.routine.base_url == base_url
        &&& self.model.base_url == base_url
        &&& self.project.base_url == base_url
        &&& self.storage == base_url
    }
}

/// Pointing a client at a base URL addresses every handle to it and keeps
/// every HTTP client; pointing it at a second URL undoes the first.
pub proof fn lemma_rebase_addresses_every_handle(c: ClientView, a: Seq<char>, b: Seq<char>)
    ensures
        c.rebased(a).all_addressed_to(a),
        c.rebased(a).dataset.http == c.dataset.http,
        c.rebased(a).table.http == c.table.http,
        c.rebased(a).job.http == c.job.http,
        c.rebased(a).tabledata.http == c.tabledata.http,
        c.rebased(a).routine.http == c.routine.http,
        c.rebased(a).model.http == c.model.http,
        c.rebased(a).project.http == c.project.http,
        c.rebased(a).rebased(b) == c.rebased(b),
        c.all_addressed_to(a) ==> c.rebased(a) == c,
{
}

/// A BigQuery client: one handle per API resource.
#[derive(Clone)]
pub struct Client {
    dataset_api: DatasetApi,
    table_api: TableApi,
    job_api: JobApi,
    tabledata_api: TableDataApi,
    routine_api: RoutineApi,
    model_api: ModelApi,
    project_api: ProjectApi,
    storage_api: StorageApi,
}

impl View for Client {
    type V = ClientView;

    closed spec fn view(&self) -> ClientView {
        ClientView {
            dataset: self.dataset_api@,
            table: self.table_api@,
            job: self.job_api@,
            tabledata: self.tabledata_api@,
            routine: self.routine_api@,
            model: self.model_api@,
            project: self.project_api@,
            storage: self.storage_api@,
        }
    }
}

impl Client {
    /// A client whose REST handles all send through `http` to the BigQuery
    /// v2 API, and whose storage handle is addressed to `storage_url`.
    pub fn new(http: HttpClient, storage_url: String) -> (client: Self)
        ensures
            client@.rest_handles_are(RestApiView { base_url: BIG_QUERY_V2_URL@, http }),
            client@.storage == storage_url@,
    {
        Client {
            dataset_api: DatasetApi::new(http.clone(), BIG_QUERY_V2_URL.to_owned()),
            table_api: TableApi::new(http.clone(), BIG_QUERY_V2_URL.to_owned()),
            job_api: JobApi::new(http.clone(), BIG_QUERY_V2_URL.to_owned()),
            tabledata_api: TableDataApi::new(http.clone(), BIG_QUERY_V2_URL.to_owned()),
            routine_api: RoutineApi::new(http.clone(), BIG_QUERY_V2_URL.to_owned()),
            model_api: ModelApi::new(http.clone(), BIG_QUERY_V2_URL.to_owned()),
            project_api: ProjectApi::new(http, BIG_QUERY_V2_URL.to_owned()),
            storage_api: StorageApi::new(storage_url),
        }
    }

    /// Assembles a client from its handles.
    pub fn from_parts(
        dataset_api: DatasetApi,
        table_api: TableApi,
        job_api: JobApi,
        tabledata_api: TableDataApi,
        routine_api: RoutineApi,
        model_api: ModelApi,
        project_api: ProjectApi,
        storage_api: StorageApi,
    ) -> (client: Self)
        ensures
            client@.dataset == dataset_api@,
            client@.table == table_api@,
            client@.job == job_api@,
            client@.tabledata == tabledata_api@,
            client@.routine == routine_api@,
            client@.model == model_api@,
            client@.project == project_api@,
            client@.storage == storage_api@,
    {
        Client {
            dataset_api,
            table_api,
            job_api,
            tabledata_api,
            routine_api,
            model_api,
            project_api,
            storage_api,
        }
    }

    /// Points every handle at `base_url` (used to address a test server or
    /// another deployment of the API).
    pub fn v2_base_url(&mut self, base_url: String) -> (ret: &mut Self)
        ensures
            ret@ == old(self)@.rebased(base_url@),
            *final(self) == *final(ret),
    {
        self.dataset_api.with_base_url(base_url.clone());
        self.table_api.with_base_url(base_url.clone());
        self.job_api.with_base_url(base_url.clone());
        self.tabledata_api.with_base_url(base_url.clone());
        self.routine_api.with_base_url(base_url.clone());
        self.model_api.with_base_url(base_url.clone());
        self.project_api.with_base_url(base_url.clone());
        self.storage_api.with_base_url(base_url);
        self
    }

    /// Returns a dataset API handler.
    pub fn dataset(&self) -> (api: &DatasetApi)
        ensures
            api@ == self@.dataset,
    {
        &self.dataset_api
    }

    /// Returns a table API handler.
    pub fn table(&self) -> (api: &TableApi)
        ensures
            api@ == self@.table,
    {
        &self.table_api
    }

    /// Returns a job API handler.
    pub fn job(&self) -> (api: &JobApi)
        ensures
            api@ == self@.job,
    {
        &self.job_api
    }

    /// Returns a table data API handler.
    pub fn tabledata(&self) -> (api: &TableDataApi)
        ensures
            api@ == self@.tabledata,
    {
        &self.tabledata_api
    }

    /// Returns a routine API handler.
    pub fn routine(&self) -> (api: &RoutineApi)
        ensures
            api@ == self@.routine,
    {
        &self.routine_api
    }

    /// Returns a model API handler.
    pub fn model(&self) -> (api: &ModelApi)
        ensures
            api@ == self@.model,
    {
        &self.model_api
    }

    /// Returns a project API handler.
    pub fn project(&self) -> (api: &ProjectApi)
        ensures
            api@ == self@.project,
    {
        &self.project_api
    }

    /// Returns a storage API handler.
    pub fn storage(&self) -> (api: &StorageApi)
        ensures
            api@ == self@.storage,
    {
        &self.storage_api
    }

    /// Returns a mutable storage API handler; whatever is done through it is
    /// what changes in the client.
    pub fn storage_mut(&mut self) -> (api: &mut StorageApi)
        ensures
            api@ == old(self)@.storage,
            final(self)@ == (ClientView { storage: final(api)@, ..old(self)@ }),
    {
        &mut self.storage_api
    }
}

} // verus!
