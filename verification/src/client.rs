//! The remote client, as far as it decides: what each request holds, how a listing is
//! walked page by page, and what a response means.

use crate::evals::{
    strings_object_json, with_optional, OpenAiEval, OpenAiEvalUpsert, OpenAiListAllEvalsRequest,
    OpenAiListEvalsPageRequest, OpenAiResponseList,
};
use crate::json::{Json, JsonView, ObjectBuilder};
use crate::text::{concat2, decimal, decimal_string};
use crate::textmap::TextMap;
use vstd::prelude::*;

verus! {

/// Where the evaluations of the service are listed and created.
pub const EVALS_URL: &'static str = "https://api.openai.com/v1/evals";

/// Where the projects of an organisation are listed.
pub const PROJECTS_URL: &'static str = "https://api.openai.com/v1/organization/projects";

/// Where a token is tried out.
pub const MODELS_URL: &'static str = "https://api.openai.com/v1/models";

/// The number of items asked for in each page of a whole listing.
pub const PAGE_SIZE: u32 = 100;

/// A token of the service.
#[derive(Debug)]
pub struct OpenAiToken(pub String);

impl OpenAiToken {
    pub fn new(token: String) -> (r: Self)
        ensures
            r.0 == token,
    {
        OpenAiToken(token)
    }

    pub fn as_str(&self) -> (r: &str)
        ensures
            r@ == self.0@,
    {
        self.0.as_str()
    }

    /// The token that a string slice holds.
    pub fn from_str(token: &str) -> (r: Self)
        ensures
            r.0@ == token@,
    {
        OpenAiToken(token.to_owned())
    }
}

impl From<String> for OpenAiToken {
    fn from(token: String) -> (r: Self) {
        OpenAiToken::new(token)
    }
}

impl vstd::std_specs::convert::FromSpecImpl<String> for OpenAiToken {
    open spec fn obeys_from_spec() -> bool {
        true
    }

    open spec fn from_spec(token: String) -> Self {
        OpenAiToken(token)
    }
}

/// The credential that every request carries.
#[derive(Debug)]
pub struct OpenAiAuth {
    pub token: OpenAiToken,
}

impl OpenAiAuth {
    pub fn new(token: OpenAiToken) -> (r: Self)
        ensures
            r.token == token,
    {
        OpenAiAuth { token }
    }

    pub fn token(&self) -> (r: &str)
        ensures
            r@ == self.token.0@,
    {
        self.token.as_str()
    }
}

/// The client of the service: it holds the credential and nothing else.
#[derive(Debug)]
pub struct OpenAi {
    pub auth: OpenAiAuth,
}

/// What trying out a token has shown.
#[derive(Debug, Clone, Copy, PartialEq, Eq, Structural)]
pub enum OpenAiTokenVerification {
    Valid,
    /// The service answered with this status.
    Invalid { status: u16 },
}

/// Whether a status says that the request succeeded: it lies from 200 up to 299.
pub open spec fn is_success(status: u16) -> bool {
    200 <= status < 300
}

/// Whether a status says that the request succeeded.
pub fn status_is_success(status: u16) -> (r: bool)
    ensures
        r == is_success(status),
{
    200 <= status && status < 300
}

/// What went wrong with a request for evaluations. Each of the three ways in which a
/// request can fail is a kind of its own: the request did not get through, the service
/// refused it, or its answer could not be read.
#[derive(Debug)]
pub enum OpenAiEvalsError {
    Request(String),
    Body(String),
    Deserialize(String),
    Serialize(String),
    /// The status of the answer and its body, as they came.
    Http(String, String),
}

impl OpenAiEvalsError {
    pub open spec fn text(self) -> Seq<char> {
        match self {
            OpenAiEvalsError::Request(e) => "Failed to perform evals request: "@ + e@,
            OpenAiEvalsError::Body(e) => "Failed to obtain body text: "@ + e@,
            OpenAiEvalsError::Deserialize(e) => "Failed to parse evals response: "@ + e@,
            OpenAiEvalsError::Serialize(e) => "Failed to serialize evals request: "@ + e@,
            OpenAiEvalsError::Http(status, body) => "HTTP "@ + status@ + ": "@ + body@,
        }
    }

    /// What went wrong, in words.
    pub fn message(&self) -> (r: String)
        ensures
            r@ == self.text(),
    {
        match self {
            OpenAiEvalsError::Request(e) => concat2("Failed to perform evals request: ", e.as_str()),
            OpenAiEvalsError::Body(e) => concat2("Failed to obtain body text: ", e.as_str()),
            OpenAiEvalsError::Deserialize(e) => concat2(
                "Failed to parse evals response: ",
                e.as_str(),
            ),
            OpenAiEvalsError::Serialize(e) => concat2(
                "Failed to serialize evals request: ",
                e.as_str(),
            ),
            OpenAiEvalsError::Http(status, body) => {
                let mut s = concat2("HTTP ", status.as_str());
                s.append(": ");
                s.append(body.as_str());
                s
            },
        }
    }
}

/// What went wrong with the trial of a token or with a request of the client.
#[derive(Debug)]
pub enum OpenAiError {
    VerificationRequest(String),
    /// The status that the service answered with, and what it stands for.
    InvalidToken(String, String),
    ProjectsRequest(String),
    ProjectsDeserialize(String),
}

impl OpenAiError {
    pub open spec fn text(self) -> Seq<char> {
        match self {
            OpenAiError::VerificationRequest(e) => "Failed to perform verification request: "@ + e@,
            OpenAiError::InvalidToken(status, reason) => "Failed to verify token (server responded with "@
                + status@ + " "@ + reason@ + ")"@,
            OpenAiError::ProjectsRequest(e) => "Failed to perform projects request: "@ + e@,
            OpenAiError::ProjectsDeserialize(e) => "Failed to parse projects response: "@ + e@,
        }
    }

    /// What went wrong, in words.
    pub fn message(&self) -> (r: String)
        ensures
            r@ == self.text(),
    {
        match self {
            OpenAiError::VerificationRequest(e) => concat2(
                "Failed to perform verification request: ",
                e.as_str(),
            ),
            OpenAiError::InvalidToken(status, reason) => {
                let mut s = concat2("Failed to verify token (server responded with ", status.as_str());
                s.append(" ");
                s.append(reason.as_str());
                s.append(")");
                s
            },
            OpenAiError::ProjectsRequest(e) => concat2("Failed to perform projects request: ", e.as_str()),
            OpenAiError::ProjectsDeserialize(e) => concat2(
                "Failed to parse projects response: ",
                e.as_str(),
            ),
        }
    }
}

/// What went wrong with a request for projects.
#[derive(Debug)]
pub enum OpenAiProjectsError {
    Request(String),
    Deserialize(String),
}

impl OpenAiProjectsError {
    pub open spec fn text(self) -> Seq<char> {
        match self {
            OpenAiProjectsError::Request(e) => "Failed to perform projects request: "@ + e@,
            OpenAiProjectsError::Deserialize(e) => "Failed to parse projects response: "@ + e@,
        }
    }

    /// What went wrong, in words.
    pub fn message(&self) -> (r: String)
        ensures
            r@ == self.text(),
    {
        match self {
            OpenAiProjectsError::Request(e) => concat2("Failed to perform projects request: ", e.as_str()),
            OpenAiProjectsError::Deserialize(e) => concat2(
                "Failed to parse projects response: ",
                e.as_str(),
            ),
        }
    }
}

/// What the answer to a request that creates or patches an evaluation means: its body is
/// to be read where the status says success; every other status is an error that holds
/// the status and the body as they came.
pub fn check_response(status: u16, body: String) -> (r: Result<String, OpenAiEvalsError>)
    ensures
        match r {
            Ok(b) => is_success(status) && b == body,
            Err(e) => {
                &&& !is_success(status)
                &&& e matches OpenAiEvalsError::Http(s, b)
                &&& s@ == decimal(status as nat)
                &&& b == body
            },
        },
{
    if status_is_success(status) {
        Ok(body)
    } else {
        Err(OpenAiEvalsError::Http(decimal_string(status as u64), body))
    }
}

/// What the status of the answer to the trial of a token means.
pub fn verification_of(status: u16) -> (r: OpenAiTokenVerification)
    ensures
        r == if is_success(status) {
            OpenAiTokenVerification::Valid
        } else {
            OpenAiTokenVerification::Invalid { status }
        },
{
    if status_is_success(status) {
        OpenAiTokenVerification::Valid
    } else {
        OpenAiTokenVerification::Invalid { status }
    }
}

/// How a request is made.
#[derive(Debug, Clone, Copy, PartialEq, Eq, Structural)]
pub enum HttpMethod {
    Get,
    Post,
}

/// A request, ready to be sent: where it goes, the headers and the query that it
/// carries, each in order, and its body.
#[derive(Debug)]
pub struct HttpRequest {
    pub method: HttpMethod,
    pub url: String,
    pub headers: Vec<(String, String)>,
    pub query: Vec<(String, String)>,
    pub body: Option<Json>,
}

/// The views of a list of pairs of strings.
pub open spec fn pairs_view(pairs: Seq<(String, String)>) -> Seq<(Seq<char>, Seq<char>)> {
    Seq::new(pairs.len(), |i: int| (pairs[i].0@, pairs[i].1@))
}

/// The project that a request is scoped to: the one given, unless it is empty.
pub open spec fn scope(project: Option<Seq<char>>) -> Option<Seq<char>> {
    match project {
        Some(p) => if p.len() > 0 {
            Some(p)
        } else {
            None
        },
        None => None,
    }
}

/// The headers of a request: the bearer token, and the project where one is given.
pub open spec fn headers_of(token: Seq<char>, project: Option<Seq<char>>) -> Seq<
    (Seq<char>, Seq<char>),
> {
    match scope(project) {
        Some(p) => seq![("Authorization"@, "Bearer "@ + token), ("OpenAI-Project"@, p)],
        None => seq![("Authorization"@, "Bearer "@ + token)],
    }
}

/// The view of a string that may be missing.
pub open spec fn text_view(s: Option<String>) -> Option<Seq<char>> {
    match s {
        Some(x) => Some(x@),
        None => None,
    }
}

/// The view of a string slice that may be missing.
pub open spec fn str_view(s: Option<&str>) -> Option<Seq<char>> {
    match s {
        Some(x) => Some(x@),
        None => None,
    }
}

/// The headers of a request.
pub fn request_headers(token: &str, project: Option<&str>) -> (r: Vec<(String, String)>)
    ensures
        pairs_view(r@) == headers_of(token@, str_view(project)),
{
    let mut headers: Vec<(String, String)> = Vec::new();
    headers.push(("Authorization".to_owned(), concat2("Bearer ", token)));
    match project {
        Some(p) => {
            if !p.is_empty() {
                headers.push(("OpenAI-Project".to_owned(), p.to_owned()));
            }
        },
        None => {},
    }
    assert(pairs_view(headers@) =~= headers_of(token@, str_view(project)));
    headers
}

/// `q` with one more pair where `value` is there.
pub open spec fn with_param(
    q: Seq<(Seq<char>, Seq<char>)>,
    key: Seq<char>,
    value: Option<Seq<char>>,
) -> Seq<(Seq<char>, Seq<char>)> {
    match value {
        Some(v) => q.push((key, v)),
        None => q,
    }
}

/// The digits of a limit that may be missing.
pub open spec fn limit_view(limit: Option<u32>) -> Option<Seq<char>> {
    match limit {
        Some(n) => Some(decimal(n as nat)),
        None => None,
    }
}

/// The query of a request for a page of evaluations: what is given of `after`, `limit`,
/// `order` and `order_by`, in this order.
pub open spec fn page_query(p: OpenAiListEvalsPageRequest) -> Seq<(Seq<char>, Seq<char>)> {
    with_param(
        with_param(
            with_param(
                with_param(Seq::empty(), "after"@, text_view(p.after)),
                "limit"@,
                limit_view(p.limit),
            ),
            "order"@,
            str_view(p.order),
        ),
        "order_by"@,
        str_view(p.order_by),
    )
}

/// The project of a request, as a string slice.
pub fn project_of(project: &Option<String>) -> (r: Option<&str>)
    ensures
        str_view(r) == text_view(*project),
{
    match project {
        Some(p) => Some(p.as_str()),
        None => None,
    }
}

impl OpenAi {
    /// The request for one page of evaluations.
    pub fn list_evals_page(&self, params: &OpenAiListEvalsPageRequest) -> (r: HttpRequest)
        ensures
            r.method == HttpMethod::Get,
            r.url@ == EVALS_URL@,
            pairs_view(r.headers@) == headers_of(self.auth.token.0@, text_view(params.project)),
            pairs_view(r.query@) == page_query(*params),
            r.body is None,
    {
        let mut query: Vec<(String, String)> = Vec::new();
        if let Some(after) = &params.after {
            query.push(("after".to_owned(), after.clone()));
        }
        assert(pairs_view(query@) =~= with_param(Seq::empty(), "after"@, text_view(params.after)));
        let ghost q1 = pairs_view(query@);
        if let Some(limit) = params.limit {
            query.push(("limit".to_owned(), decimal_string(limit as u64)));
        }
        assert(pairs_view(query@) =~= with_param(q1, "limit"@, limit_view(params.limit)));
        let ghost q2 = pairs_view(query@);
        if let Some(order) = params.order {
            query.push(("order".to_owned(), order.to_owned()));
        }
        assert(pairs_view(query@) =~= with_param(q2, "order"@, str_view(params.order)));
        let ghost q3 = pairs_view(query@);
        if let Some(order_by) = params.order_by {
            query.push(("order_by".to_owned(), order_by.to_owned()));
        }
        assert(pairs_view(query@) =~= with_param(q3, "order_by"@, str_view(params.order_by)));
        HttpRequest {
            method: HttpMethod::Get,
            url: EVALS_URL.to_owned(),
            headers: request_headers(self.auth.token(), project_of(&params.project)),
            query,
            body: None,
        }
    }

    /// The request that creates an evaluation.
    pub fn create_eval(&self, project: Option<&str>, upsert: &OpenAiEvalUpsert) -> (r: HttpRequest)
        ensures
            r.method == HttpMethod::Post,
            r.url@ == EVALS_URL@,
            pairs_view(r.headers@) == headers_of(self.auth.token.0@, str_view(project)),
            r.query@.len() == 0,
            r.body matches Some(b) && b@ == upsert.wire(),
    {
        HttpRequest {
            method: HttpMethod::Post,
            url: EVALS_URL.to_owned(),
            headers: request_headers(self.auth.token(), project),
            query: Vec::new(),
            body: Some(upsert.to_json()),
        }
    }

    /// The request that sets the name and the metadata of an evaluation. Its body holds
    /// what is given of the two and nothing else: the content of an evaluation cannot be
    /// sent this way.
    pub fn update_eval_metadata(
        &self,
        project: Option<&str>,
        eval_id: &str,
        name: Option<&str>,
        metadata: Option<&TextMap<String>>,
    ) -> (r: HttpRequest)
        ensures
            r.method == HttpMethod::Post,
            r.url@ == EVALS_URL@ + "/"@ + eval_id@,
            pairs_view(r.headers@) == headers_of(self.auth.token.0@, str_view(project)),
            r.query@.len() == 0,
            r.body matches Some(b) && b@ == patch_body(
                str_view(name),
                match metadata {
                    Some(m) => Some(m@),
                    None => None,
                },
            ),
    {
        let head = match metadata {
            Some(m) => ObjectBuilder::new().with("metadata", strings_object_json(m)),
            None => ObjectBuilder::new(),
        };
        let all = match name {
            Some(n) => head.with("name", Json::text(n)),
            None => head,
        };
        let mut url = concat2(EVALS_URL, "/");
        url.append(eval_id);
        HttpRequest {
            method: HttpMethod::Post,
            url,
            headers: request_headers(self.auth.token(), project),
            query: Vec::new(),
            body: Some(all.build()),
        }
    }

    /// The client that comes of a credential once its token was tried out: one for a
    /// token that the service accepted, none for any other.
    pub fn new(auth: OpenAiAuth, verification: OpenAiTokenVerification) -> (r: Option<Self>)
        ensures
            match verification {
                OpenAiTokenVerification::Valid => r matches Some(c) && c.auth == auth,
                OpenAiTokenVerification::Invalid { .. } => r is None,
            },
    {
        match verification {
            OpenAiTokenVerification::Valid => Some(OpenAi { auth }),
            OpenAiTokenVerification::Invalid { .. } => None,
        }
    }

    /// The client that comes of a token once it was tried out.
    pub fn from_token(token: OpenAiToken, verification: OpenAiTokenVerification) -> (r: Option<Self>)
        ensures
            match verification {
                OpenAiTokenVerification::Valid => r matches Some(c) && c.auth.token == token,
                OpenAiTokenVerification::Invalid { .. } => r is None,
            },
    {
        OpenAi::new(OpenAiAuth::new(token), verification)
    }

    /// The request that tries out the token.
    pub fn verify(&self) -> (r: HttpRequest)
        ensures
            r.method == HttpMethod::Get,
            r.url@ == MODELS_URL@,
            pairs_view(r.headers@) == headers_of(self.auth.token.0@, None),
            r.query@.len() == 0,
            r.body is None,
    {
        HttpRequest {
            method: HttpMethod::Get,
            url: MODELS_URL.to_owned(),
            headers: request_headers(self.auth.token(), None),
            query: Vec::new(),
            body: None,
        }
    }
}

/// The body of a request that patches an evaluation: its metadata and its name, as far
/// as they are given.
pub open spec fn patch_body(
    name: Option<Seq<char>>,
    metadata: Option<Seq<(Seq<char>, Seq<char>)>>,
) -> JsonView {
    JsonView::Object(
        with_optional(
            with_optional(
                Seq::empty(),
                "metadata"@,
                match metadata {
                    Some(m) => Some(crate::evals::strings_object(m)),
                    None => None,
                },
            ),
            "name"@,
            match name {
                Some(n) => Some(JsonView::Str(n)),
                None => None,
            },
        ),
    )
}

/// Every member of the body of a patch is the name or the metadata.
pub proof fn law_patch_holds_no_content(
    name: Option<Seq<char>>,
    metadata: Option<Seq<(Seq<char>, Seq<char>)>>,
    i: int,
)
    requires
        0 <= i < patch_body(name, metadata)->Object_0.len(),
    ensures
        patch_body(name, metadata)->Object_0[i].0 == "name"@ || patch_body(
            name,
            metadata,
        )->Object_0[i].0 == "metadata"@,
{
}

/// What has something to be told apart by: its identifier.
pub trait Identified {
    spec fn id_view(&self) -> Seq<char>;

    /// The identifier.
    fn id(&self) -> (r: String)
        ensures
            r@ == self.id_view(),
    ;
}

impl Identified for OpenAiEval {
    open spec fn id_view(&self) -> Seq<char> {
        self.id@
    }

    fn id(&self) -> (r: String) {
        self.id.clone()
    }
}

/// A project of an organisation.
#[derive(Debug)]
pub struct OpenAiProject {
    pub id: String,
    pub object: String,
    pub name: String,
    pub status: String,
    pub created_at: i64,
    pub archived_at: Option<i64>,
}

impl Identified for OpenAiProject {
    open spec fn id_view(&self) -> Seq<char> {
        self.id@
    }

    fn id(&self) -> (r: String) {
        self.id.clone()
    }
}

/// What is asked for one page of projects.
#[derive(Debug)]
pub struct OpenAiListProjectsPageRequest {
    pub after: Option<String>,
    pub include_archived: bool,
    pub limit: Option<u32>,
}

/// What is asked for the whole listing of projects.
#[derive(Debug)]
pub struct OpenAiListAllProjectsRequest {
    pub include_archived: bool,
}

/// How far a whole listing has come: the items of the pages read, and the identifier of
/// the last of them, behind which the next page starts.
#[derive(Debug)]
pub struct ListProgress<T> {
    pub all: Vec<T>,
    pub after: Option<String>,
}

/// How a whole listing goes on once a page is read.
#[derive(Debug)]
pub enum ListStep<T> {
    /// Another page is to be read.
    More(ListProgress<T>),
    /// The listing is complete.
    Done(Vec<T>),
}

impl<T: Identified> ListProgress<T> {
    /// The start of a listing: nothing read.
    pub fn start() -> (r: Self)
        ensures
            r.all@.len() == 0,
            r.after is None,
    {
        ListProgress { all: Vec::new(), after: None }
    }

    /// Takes in a page. An empty page ends the listing, whatever the page says of more
    /// to come; so does a page that says that no more is to come. Else the listing goes
    /// on behind the last item of the page.
    pub fn absorb(self, page: OpenAiResponseList<T>) -> (r: ListStep<T>)
        ensures
            match r {
                ListStep::Done(all) => {
                    &&& page.data@.len() == 0 || !page.has_more
                    &&& all@ == self.all@ + page.data@
                },
                ListStep::More(next) => {
                    &&& page.data@.len() > 0
                    &&& page.has_more
                    &&& next.all@ == self.all@ + page.data@
                    &&& text_view(next.after) == Some(page.data@[page.data@.len() - 1].id_view())
                },
            },
    {
        let mut all = self.all;
        let mut data = page.data;
        if data.len() == 0 {
            assert(all@ + data@ =~= all@);
            return ListStep::Done(all);
        }
        let after = Some(data[data.len() - 1].id());
        all.append(&mut data);
        if !page.has_more {
            ListStep::Done(all)
        } else {
            ListStep::More(ListProgress { all, after })
        }
    }
}

impl OpenAi {
    /// What is asked for the next page of a whole listing of evaluations: a page of a
    /// hundred, behind what was read so far.
    pub fn list_all_evals(
        &self,
        params: &OpenAiListAllEvalsRequest,
        progress: &ListProgress<OpenAiEval>,
    ) -> (r: OpenAiListEvalsPageRequest)
        ensures
            text_view(r.project) == text_view(params.project),
            text_view(r.after) == text_view(progress.after),
            r.limit == Some(PAGE_SIZE),
            r.order == params.order,
            r.order_by == params.order_by,
    {
        OpenAiListEvalsPageRequest {
            project: params.project.clone(),
            after: progress.after.clone(),
            limit: Some(PAGE_SIZE),
            order: params.order,
            order_by: params.order_by,
        }
    }

    /// What is asked for the next page of a whole listing of projects.
    pub fn list_all_projects(
        &self,
        params: &OpenAiListAllProjectsRequest,
        progress: &ListProgress<OpenAiProject>,
    ) -> (r: OpenAiListProjectsPageRequest)
        ensures
            text_view(r.after) == text_view(progress.after),
            r.include_archived == params.include_archived,
            r.limit == Some(PAGE_SIZE),
    {
        OpenAiListProjectsPageRequest {
            after: progress.after.clone(),
            include_archived: params.include_archived,
            limit: Some(PAGE_SIZE),
        }
    }

    /// The request for one page of projects.
    pub fn list_projects_page(&self, params: &OpenAiListProjectsPageRequest) -> (r: HttpRequest)
        ensures
            r.method == HttpMethod::Get,
            r.url@ == PROJECTS_URL@,
            pairs_view(r.headers@) == headers_of(self.auth.token.0@, None),
            pairs_view(r.query@) == projects_query(*params),
            r.body is None,
    {
        let mut query: Vec<(String, String)> = Vec::new();
        if let Some(after) = &params.after {
            query.push(("after".to_owned(), after.clone()));
        }
        assert(pairs_view(query@) =~= with_param(Seq::empty(), "after"@, text_view(params.after)));
        let ghost q1 = pairs_view(query@);
        let flag = if params.include_archived {
            "true"
        } else {
            "false"
        };
        query.push(("include_archived".to_owned(), flag.to_owned()));
        assert(pairs_view(query@) =~= q1.push(("include_archived"@, flag@)));
        let ghost q2 = pairs_view(query@);
        if let Some(limit) = params.limit {
            query.push(("limit".to_owned(), decimal_string(limit as u64)));
        }
        assert(pairs_view(query@) =~= with_param(q2, "limit"@, limit_view(params.limit)));
        HttpRequest {
            method: HttpMethod::Get,
            url: PROJECTS_URL.to_owned(),
            headers: request_headers(self.auth.token(), None),
            query,
            body: None,
        }
    }
}

/// The query of a request for a page of projects.
pub open spec fn projects_query(p: OpenAiListProjectsPageRequest) -> Seq<(Seq<char>, Seq<char>)> {
    with_param(
        with_param(Seq::empty(), "after"@, text_view(p.after)).push(
            (
                "include_archived"@,
                if p.include_archived {
                    "true"@
                } else {
                    "false"@
                },
            ),
        ),
        "limit"@,
        limit_view(p.limit),
    )
}

} // verus!
