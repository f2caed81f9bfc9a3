//! The API client's decisions: which endpoints are configured, whether a request may be
//! made and with which method, how a reply becomes a result and a log record, and the
//! addresses of the GitHub and OpenAI calls.  Sending requests is left to the caller.
use vstd::prelude::*;

use crate::config::{ApiConfig, ApiEndpoint};
use crate::monitor::{
    current_user, is_uuid_v4_text, ActivityRecord, ActivityStatus, ActivityType, RecordView,
    StatusView,
};
use crate::security::{refusal_message, Refusal, SecurityError, SecurityManager};
use crate::text::{
    ascii_uppered, concat, concat3, owned, plain_case_text, str_eq, unicode_uppercase, views,
};

verus! {

/// The HTTP methods the client sends.
#[derive(Clone, Copy, Debug, PartialEq, Eq, Structural)]
pub enum HttpMethod {
    Get,
    Post,
    Put,
    Delete,
    Patch,
}

/// The method named by `upper`, an uppercase name.
pub open spec fn method_named(upper: Seq<char>) -> Option<HttpMethod> {
    if upper == "GET"@ {
        Some(HttpMethod::Get)
    } else if upper == "POST"@ {
        Some(HttpMethod::Post)
    } else if upper == "PUT"@ {
        Some(HttpMethod::Put)
    } else if upper == "DELETE"@ {
        Some(HttpMethod::Delete)
    } else if upper == "PATCH"@ {
        Some(HttpMethod::Patch)
    } else {
        None
    }
}

/// The uppercase name of a method, as sent on the wire.
pub open spec fn method_text(m: HttpMethod) -> Seq<char> {
    match m {
        HttpMethod::Get => "GET"@,
        HttpMethod::Post => "POST"@,
        HttpMethod::Put => "PUT"@,
        HttpMethod::Delete => "DELETE"@,
        HttpMethod::Patch => "PATCH"@,
    }
}

/// Every method is read back from its own uppercase name, and different methods have
/// different names.
pub proof fn law_method_names_read_back(m: HttpMethod, n: HttpMethod)
    ensures
        method_named(method_text(m)) == Some(m),
        m != n ==> method_text(m) != method_text(n),
{
    reveal_strlit("GET");
    reveal_strlit("POST");
    reveal_strlit("PUT");
    reveal_strlit("DELETE");
    reveal_strlit("PATCH");
    assert("GET"@[0] != "POST"@[0]);
    assert("GET"@.len() != "PUT"@.len() || "GET"@[0] != "PUT"@[0]);
    assert("GET"@[0] != "DELETE"@[0]);
    assert("GET"@[0] != "PATCH"@[0]);
    assert("POST"@[1] != "PUT"@[1]);
    assert("POST"@[0] != "DELETE"@[0]);
    assert("POST"@.len() != "PATCH"@.len());
    assert("PUT"@[0] != "DELETE"@[0]);
    assert("PUT"@.len() != "PATCH"@.len());
    assert("DELETE"@[0] != "PATCH"@[0]);
}

/// Why an API request failed, as plain values.
pub enum ApiFault {
    Security(Refusal),
    UnsupportedMethod { method: Seq<char> },
    Http { status: Seq<char>, body: Seq<char> },
    Transport { detail: Seq<char> },
    UnknownEndpoint { name: Seq<char> },
    RecordUnavailable,
}

/// Why an API request failed.
pub enum ApiError {
    /// The rules refused the URL.
    Security(SecurityError),
    /// The method is not one the client sends.
    UnsupportedMethod { method: String },
    /// The server answered with a status outside 200..=299; `status` is the status as
    /// shown (code and reason).
    Http { status: String, body: String },
    /// The request could not be sent or answered; `detail` is the HTTP library's text.
    Transport { detail: String },
    /// No endpoint of that name is configured.
    UnknownEndpoint { name: String },
    /// No activity record could be made (the system clock or random source failed), so
    /// the request is not sent.
    RecordUnavailable,
}

impl View for ApiError {
    type V = ApiFault;

    open spec fn view(&self) -> ApiFault {
        match self {
            ApiError::Security(e) => ApiFault::Security(e@),
            ApiError::UnsupportedMethod { method } => ApiFault::UnsupportedMethod {
                method: method@,
            },
            ApiError::Http { status, body } => ApiFault::Http { status: status@, body: body@ },
            ApiError::Transport { detail } => ApiFault::Transport { detail: detail@ },
            ApiError::UnknownEndpoint { name } => ApiFault::UnknownEndpoint { name: name@ },
            ApiError::RecordUnavailable => ApiFault::RecordUnavailable,
        }
    }
}

/// The text of a failure as shown to the user.
pub open spec fn api_message(e: ApiFault) -> Seq<char> {
    match e {
        ApiFault::Security(r) => refusal_message(r),
        ApiFault::UnsupportedMethod { method } => "不支持的 HTTP 方法: "@ + method,
        ApiFault::Http { status, body } => "HTTP "@ + status + ": "@ + body,
        ApiFault::Transport { detail } => "请求失败: "@ + detail,
        ApiFault::UnknownEndpoint { name } => "未知的 API 端点: "@ + name,
        ApiFault::RecordUnavailable => "无法创建活动记录: 系统时钟或随机源不可用"@,
    }
}

impl ApiError {
    /// The failure's text as shown to the user.
    pub fn message(&self) -> (m: String)
        ensures
            m@ == api_message(self@),
    {
        match self {
            ApiError::Security(e) => e.message(),
            ApiError::UnsupportedMethod { method } => concat(
                "不支持的 HTTP 方法: ",
                method.as_str(),
            ),
            ApiError::Http { status, body } => {
                let mut m = concat3("HTTP ", status.as_str(), ": ");
                m.append(body.as_str());
                m
            },
            ApiError::Transport { detail } => concat("请求失败: ", detail.as_str()),
            ApiError::UnknownEndpoint { name } => concat("未知的 API 端点: ", name.as_str()),
            ApiError::RecordUnavailable => owned("无法创建活动记录: 系统时钟或随机源不可用"),
        }
    }
}

/// A request the rules let through: its method, and the pending record of the call.
pub struct PreparedRequest {
    pub method: HttpMethod,
    pub record: ActivityRecord,
}

/// How a request ended, as seen by the caller that sent it.
pub enum HttpOutcome {
    /// The server answered: the status code, the status as shown (code and reason), and
    /// the body as text (empty when it could not be read).
    Response { code: u16, status: String, body: String },
    /// The request could not be sent or answered.
    TransportError { detail: String },
}

#[verifier::external_type_specification]
#[verifier::external_body]
pub struct ExJsonValue(serde_json::Value);

/// Whether `serde_json` reads `text` as a JSON value (a function of the text alone).
pub uninterp spec fn json_accepts(text: Seq<char>) -> bool;

/// `serde_json::from_str::<serde_json::Value>(text)`: the value when `text` is JSON
/// (`json_accepts`), else `None`.  Nothing is stated of the value itself.
#[verifier::external_body]
fn parse_json(text: &str) -> (r: Option<serde_json::Value>)
    ensures
        r is Some <==> json_accepts(text@),
{
    serde_json::from_str(text).ok()
}

/// A reply's body, as the client hands it back.
pub enum ReplyBody {
    /// The body read as JSON.
    Json(serde_json::Value),
    /// The body as text, when it is not JSON (shown to the user as `{"text": body}`).
    Text(String),
}

/// A successful reply's body: read as JSON when it is JSON, otherwise kept as text.
pub fn reply_body(body: String) -> (r: ReplyBody)
    ensures
        r is Json <==> json_accepts(body@),
        r matches ReplyBody::Text(t) ==> t@ == body@,
{
    match parse_json(body.as_str()) {
        Some(v) => ReplyBody::Json(v),
        None => ReplyBody::Text(body),
    }
}

/// The end of a request: its record, whether that record is to be logged, and the
/// result (the reply's body on success).
pub struct RequestFinish {
    pub record: ActivityRecord,
    pub log: bool,
    pub result: Result<String, ApiError>,
}

/// The names of the endpoints, in order.
pub open spec fn endpoint_names(v: Seq<ApiEndpoint>) -> Seq<Seq<char>> {
    v.map_values(|e: ApiEndpoint| e.name@)
}

/// `endpoints` after adding `e`: an endpoint of the same name is replaced, otherwise `e`
/// is added at the end.
pub open spec fn with_endpoint(endpoints: Seq<ApiEndpoint>, e: ApiEndpoint) -> Seq<ApiEndpoint> {
    if exists|i: int| 0 <= i < endpoints.len() && #[trigger] endpoints[i].name@ == e.name@ {
        endpoints.update(
            choose|i: int| 0 <= i < endpoints.len() && #[trigger] endpoints[i].name@ == e.name@,
            e,
        )
    } else {
        endpoints.push(e)
    }
}

/// An endpoint just added is found under its name.
pub proof fn law_added_endpoint_is_found(endpoints: Seq<ApiEndpoint>, e: ApiEndpoint)
    ensures
        exists|i: int|
            0 <= i < with_endpoint(endpoints, e).len() && #[trigger] with_endpoint(endpoints, e)[i]
                == e,
{
    if exists|i: int| 0 <= i < endpoints.len() && #[trigger] endpoints[i].name@ == e.name@ {
        let p = choose|i: int| 0 <= i < endpoints.len() && #[trigger] endpoints[i].name@ == e.name@;
        assert(with_endpoint(endpoints, e)[p] == e);
    } else {
        assert(with_endpoint(endpoints, e)[endpoints.len() as int] == e);
    }
}

/// The endpoints of a client made from `config`: each added in turn.
pub open spec fn configured(config: Seq<ApiEndpoint>) -> Seq<ApiEndpoint>
    decreases config.len(),
{
    if config.len() == 0 {
        Seq::empty()
    } else {
        with_endpoint(configured(config.drop_last()), config.last())
    }
}

/// The position of the endpoint named `name` in `endpoints`, if there.
fn find_endpoint(endpoints: &Vec<ApiEndpoint>, name: &str) -> (r: Option<usize>)
    ensures
        match r {
            Some(i) => i < endpoints@.len() && endpoints@[i as int].name@ == name@,
            None => !endpoint_names(endpoints@).contains(name@),
        },
{
    let mut i: usize = 0;
    while i < endpoints.len()
        invariant
            i <= endpoints@.len(),
            forall|k: int| 0 <= k < i ==> #[trigger] endpoints@[k].name@ != name@,
        decreases endpoints@.len() - i,
    {
        if str_eq(endpoints[i].name.as_str(), name) {
            return Some(i);
        }
        i = i + 1;
    }
    assert(!endpoint_names(endpoints@).contains(name@)) by {
        if endpoint_names(endpoints@).contains(name@) {
            let k = choose|k: int|
                0 <= k < endpoint_names(endpoints@).len() && endpoint_names(endpoints@)[k] == name@;
            assert(endpoints@[k].name@ == name@);
        }
    }
    None
}

/// The configured endpoints, by name (the last configured under a name wins).
pub struct ApiClient {
    endpoints: Vec<ApiEndpoint>,
}

impl ApiClient {
    /// The endpoints, in the order their names were first configured.
    pub closed spec fn endpoints(&self) -> Seq<ApiEndpoint> {
        self.endpoints@
    }

    #[verifier::type_invariant]
    spec fn names_distinct(&self) -> bool {
        endpoint_names(self.endpoints@).no_duplicates()
    }

    /// The position of the endpoint named `name`, if configured.
    fn find(&self, name: &str) -> (r: Option<usize>)
        ensures
            match r {
                Some(i) => i < self.endpoints().len() && self.endpoints()[i as int].name@ == name@,
                None => !endpoint_names(self.endpoints()).contains(name@),
            },
    {
        find_endpoint(&self.endpoints, name)
    }

    /// Adds `endpoint` under its name, replacing an endpoint of that name.
    pub fn add_endpoint(&mut self, endpoint: ApiEndpoint)
        ensures
            final(self).endpoints() == with_endpoint(old(self).endpoints(), endpoint),
    {
        proof {
            use_type_invariant(&*self);
        }
        let ghost before = self.endpoints@;
        let mut endpoints: Vec<ApiEndpoint> = Vec::new();
        std::mem::swap(&mut endpoints, &mut self.endpoints);
        match find_endpoint(&endpoints, endpoint.name.as_str()) {
            Some(i) => {
                let ghost e = endpoint;
                assert(endpoint_names(before)[i as int] == e.name@);
                proof {
                    let p = choose|j: int| 0 <= j < before.len() && #[trigger] before[j].name@ == e.name@;
                    if p != i {
                        assert(endpoint_names(before)[p] == endpoint_names(before)[i as int]);
                    }
                }
                endpoints.set(i, endpoint);
                assert(endpoint_names(endpoints@) =~= endpoint_names(before));
                assert(endpoints@ == before.update(i as int, e));
            },
            None => {
                let ghost e = endpoint;
                assert(!exists|j: int| 0 <= j < before.len() && #[trigger] before[j].name@ == e.name@) by {
                    if exists|j: int| 0 <= j < before.len() && #[trigger] before[j].name@ == e.name@ {
                        let j = choose|j: int| 0 <= j < before.len() && #[trigger] before[j].name@ == e.name@;
                        assert(endpoint_names(before)[j] == e.name@);
                    }
                }
                endpoints.push(endpoint);
                assert(endpoints@ == before.push(e));
                assert(endpoint_names(endpoints@) =~= endpoint_names(before).push(e.name@));
            },
        }
        self.endpoints = endpoints;
    }

    /// A client for `config`'s endpoints, added in order (a later endpoint replaces an
    /// earlier one of the same name).
    pub fn new(config: ApiConfig) -> (c: ApiClient)
        ensures
            c.endpoints() == configured(config.endpoints@),
    {
        let mut c = ApiClient { endpoints: Vec::new() };
        let mut config = config;
        let ghost all = config.endpoints@;
        let mut rest: Vec<ApiEndpoint> = Vec::new();
        std::mem::swap(&mut rest, &mut config.endpoints);
        let n = rest.len();
        let mut k: usize = 0;
        assert(all.take(0) =~= Seq::<ApiEndpoint>::empty());
        while k < n
            invariant
                k <= n,
                n == all.len(),
                rest@ == all.skip(k as int),
                c.endpoints() == configured(all.take(k as int)),
            decreases n - k,
        {
            let e = rest.remove(0);
            assert(e == all[k as int]);
            assert(rest@ == all.skip(k + 1));
            c.add_endpoint(e);
            assert(all.take(k + 1).drop_last() =~= all.take(k as int));
            k = k + 1;
        }
        assert(all.take(n as int) =~= all);
        c
    }

    /// The endpoint named `name`; refused when none is configured.
    pub fn request_endpoint(&self, endpoint_name: &str) -> (r: Result<&ApiEndpoint, ApiError>)
        ensures
            match r {
                Ok(e) => self.endpoints().contains(*e) && e.name@ == endpoint_name@,
                Err(e) => !endpoint_names(self.endpoints()).contains(endpoint_name@) && e@ == (
                ApiFault::UnknownEndpoint { name: endpoint_name@ }),
            },
    {
        match self.find(endpoint_name) {
            Some(i) => Ok(&self.endpoints[i]),
            None => Err(ApiError::UnknownEndpoint { name: owned(endpoint_name) }),
        }
    }

    /// The configured endpoints.
    pub fn list_endpoints(&self) -> (r: Vec<&ApiEndpoint>)
        ensures
            r@.len() == self.endpoints().len(),
            forall|i: int| 0 <= i < r@.len() ==> *r@[i] == self.endpoints()[i],
    {
        let mut r: Vec<&ApiEndpoint> = Vec::new();
        let mut i: usize = 0;
        while i < self.endpoints.len()
            invariant
                i <= self.endpoints@.len(),
                r@.len() == i,
                forall|j: int| 0 <= j < i ==> *r@[j] == self.endpoints@[j],
            decreases self.endpoints@.len() - i,
        {
            r.push(&self.endpoints[i]);
            i = i + 1;
        }
        r
    }

    /// The method named `method`, given its uppercase form `upper`.
    pub fn method_for(upper: &str, method: &str) -> (r: Result<HttpMethod, ApiError>)
        ensures
            match method_named(upper@) {
                Some(m) => r matches Ok(x) && x == m,
                None => r matches Err(e) && e@ == (ApiFault::UnsupportedMethod { method: method@ }),
            },
    {
        if str_eq(upper, "GET") {
            Ok(HttpMethod::Get)
        } else if str_eq(upper, "POST") {
            Ok(HttpMethod::Post)
        } else if str_eq(upper, "PUT") {
            Ok(HttpMethod::Put)
        } else if str_eq(upper, "DELETE") {
            Ok(HttpMethod::Delete)
        } else if str_eq(upper, "PATCH") {
            Ok(HttpMethod::Patch)
        } else {
            Err(ApiError::UnsupportedMethod { method: owned(method) })
        }
    }

    /// Prepares a request to `url` with `method`: the rules must let the URL through; the
    /// method must be GET, POST, PUT, DELETE or PATCH, whatever its case; the record names
    /// the current user and `METHOD url` (the method in uppercase).  When no record can be
    /// made the request is refused, so that none goes unlogged.
    pub fn plan_request(security: &SecurityManager, url: &str, method: &str, working_dir: &str) -> (r:
        Result<PreparedRequest, ApiError>)
        ensures
            plain_case_text(method@) ==> unicode_uppercase(method@) == ascii_uppered(method@),
            !security.permits_api(security.current_mode(), url@) ==> (r matches Err(e)
                && e@ matches ApiFault::Security(f) && security.api_refusal(url@, f)),
            security.permits_api(security.current_mode(), url@) ==> match method_named(
                unicode_uppercase(method@),
            ) {
                None => r matches Err(e) && e@ == (ApiFault::UnsupportedMethod { method: method@ }),
                Some(m) => (r matches Err(e) && e@ == ApiFault::RecordUnavailable) || (r matches Ok(
                    p,
                ) && p.method == m && p.record@.activity_type == ActivityType::ApiCall
                    && p.record@.command == unicode_uppercase(method@) + " "@ + url@
                    && p.record@.args.len() == 0 && p.record@.working_dir == working_dir@
                    && p.record@.status == StatusView::Pending && is_uuid_v4_text(p.record@.id)),
            },
    {
        let upper = method.to_uppercase();
        match security.check_api(url) {
            Err(e) => {
                return Err(ApiError::Security(e));
            },
            Ok(()) => {},
        }
        let m = match Self::method_for(upper.as_str(), method) {
            Err(e) => {
                return Err(e);
            },
            Ok(m) => m,
        };
        let command = concat3(upper.as_str(), " ", url);
        let no_args: Vec<String> = Vec::new();
        assert(views(no_args@) =~= Seq::<Seq<char>>::empty());
        match ActivityRecord::new(
            ActivityType::ApiCall,
            current_user(),
            command,
            no_args,
            owned(working_dir),
        ) {
            Some(record) => Ok(PreparedRequest { method: m, record }),
            None => Err(ApiError::RecordUnavailable),
        }
    }

    /// The end of a request: the record gets `duration_ms` and is always to be logged; a
    /// reply with a status in 200..=299 succeeds with its body; any other reply fails with
    /// the status and body; a failed send fails with the HTTP library's text.
    pub fn finish_request(record: ActivityRecord, outcome: HttpOutcome, duration_ms: u64) -> (r:
        RequestFinish)
        ensures
            r.record@.duration_ms == Some(duration_ms),
            r.log,
            r.record@ == (RecordView {
                duration_ms: Some(duration_ms),
                status: r.record@.status,
                ..record@
            }),
            match outcome {
                HttpOutcome::Response { code, status, body } => if 200 <= code <= 299 {
                    (r.result matches Ok(b) && b@ == body@) && r.record@.status
                        == StatusView::Success
                } else {
                    (r.result matches Err(e) && e@ == (ApiFault::Http {
                        status: status@,
                        body: body@,
                    })) && r.record@.status == StatusView::Failed(
                        "HTTP "@ + status@ + ": "@ + body@,
                    )
                },
                HttpOutcome::TransportError { detail } => (r.result matches Err(e) && e@
                    == (ApiFault::Transport { detail: detail@ })) && r.record@.status
                    == StatusView::Failed("请求失败: "@ + detail@),
            },
    {
        let record = record.with_duration(duration_ms);
        match outcome {
            HttpOutcome::Response { code, status, body } => {
                if 200 <= code && code <= 299 {
                    let record = record.with_status(ActivityStatus::Success);
                    RequestFinish { record, log: true, result: Ok(body) }
                } else {
                    let e = ApiError::Http { status, body };
                    let record = record.with_status(ActivityStatus::Failed(e.message()));
                    RequestFinish { record, log: true, result: Err(e) }
                }
            },
            HttpOutcome::TransportError { detail } => {
                let e = ApiError::Transport { detail };
                let record = record.with_status(ActivityStatus::Failed(e.message()));
                RequestFinish { record, log: true, result: Err(e) }
            },
        }
    }
}

/// Addresses of the GitHub API.
pub struct GitHubApi {
    pub base_url: String,
}

impl GitHubApi {
    /// The public GitHub API.
    pub fn new() -> (g: GitHubApi)
        ensures
            g.base_url@ == "https://api.github.com"@,
    {
        GitHubApi { base_url: owned("https://api.github.com") }
    }

    /// The address of a user.
    pub fn user_url(&self, username: &str) -> (u: String)
        ensures
            u@ == self.base_url@ + "/users/"@ + username@,
    {
        concat3(self.base_url.as_str(), "/users/", username)
    }

    /// The address of a repository.
    pub fn repo_url(&self, owner: &str, repo: &str) -> (u: String)
        ensures
            u@ == self.base_url@ + "/repos/"@ + owner@ + "/"@ + repo@,
    {
        let mut u = concat3(self.base_url.as_str(), "/repos/", owner);
        u.append("/");
        u.append(repo);
        u
    }

    /// The address of a path's contents in a repository.
    pub fn contents_url(&self, owner: &str, repo: &str, path: &str) -> (u: String)
        ensures
            u@ == self.base_url@ + "/repos/"@ + owner@ + "/"@ + repo@ + "/contents/"@ + path@,
    {
        let mut u = self.repo_url(owner, repo);
        u.append("/contents/");
        u.append(path);
        u
    }
}

/// Addresses and credentials of the OpenAI API.
pub struct OpenAiApi {
    pub api_key: String,
    pub base_url: String,
}

impl OpenAiApi {
    /// The public OpenAI API, called with `api_key`.
    pub fn new(api_key: String) -> (a: OpenAiApi)
        ensures
            a.api_key@ == api_key@,
            a.base_url@ == "https://api.openai.com/v1"@,
    {
        OpenAiApi { api_key, base_url: owned("https://api.openai.com/v1") }
    }

    /// The address of chat completions.
    pub fn chat_url(&self) -> (u: String)
        ensures
            u@ == self.base_url@ + "/chat/completions"@,
    {
        concat(self.base_url.as_str(), "/chat/completions")
    }

    /// The headers of a chat request: the key as a bearer token, and a JSON body.
    pub fn chat_headers(&self) -> (h: Vec<(String, String)>)
        ensures
            crate::monitor::pair_views(h@) == seq![
                ("Authorization"@, "Bearer "@ + self.api_key@),
                ("Content-Type"@, "application/json"@),
            ],
    {
        let mut h: Vec<(String, String)> = Vec::new();
        h.push((owned("Authorization"), concat("Bearer ", self.api_key.as_str())));
        h.push((owned("Content-Type"), owned("application/json")));
        assert(crate::monitor::pair_views(h@) =~= seq![
            ("Authorization"@, "Bearer "@ + self.api_key@),
            ("Content-Type"@, "application/json"@),
        ]);
        h
    }
}

} // verus!
