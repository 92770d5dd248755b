//! Requests to the coordinator and what its replies mean.

use crate::json::Json;
use crate::outside::{
    descending_path, directory_url, dot_segment_at, join_url, joined_url, parse_url, parsed_url,
    path_syntax, status_line, status_text, unreserved,
};
use crate::protocol::{
    BatchClaimRequest, ClaimRequest, Dataset, Registration, ResultReceipt, WorkUnit,
};
use crate::text::{contains_char, joined, same_text, starts_with};
use vstd::prelude::*;
use vstd::slice::slice_to_vec;
use vstd::string::*;

verus! {

#[derive(Clone, Copy, Debug, PartialEq, Eq, Structural)]
pub enum Method {
    Get,
    Post,
}

pub enum Body {
    Empty,
    Json(Json),
    Bytes(Vec<u8>),
}

/// A request, ready to be sent. A body is always JSON text.
pub struct Request {
    pub method: Method,
    pub url: String,
    pub body: Body,
}

/// What to do with a reply, judged by its status.
#[derive(Clone, Copy, Debug, PartialEq, Eq, Structural)]
pub enum Reply {
    /// There is nothing to read.
    Nothing,
    /// The body is to be decoded.
    Read,
    /// The status is itself a transport error.
    StatusError,
    /// The request was refused for good.
    Refused(u16),
}

/// A failure to exchange a request and a reply.
pub struct TransportError {
    pub timeout: bool,
    pub connect: bool,
    pub request: bool,
    pub status: Option<u16>,
    pub message: String,
}

pub enum RequestError {
    Transport(TransportError),
    Permanent(u16),
    InvalidResponse(String),
    Url(String),
}

pub open spec fn success(status: u16) -> bool {
    200 <= status < 300
}

pub open spec fn client_error(status: u16) -> bool {
    400 <= status < 500
}

pub open spec fn server_error(status: u16) -> bool {
    500 <= status < 600
}

pub fn is_success(status: u16) -> (r: bool)
    ensures
        r == success(status),
{
    200 <= status && status < 300
}

pub fn is_client_error(status: u16) -> (r: bool)
    ensures
        r == client_error(status),
{
    400 <= status && status < 500
}

pub fn is_server_error(status: u16) -> (r: bool)
    ensures
        r == server_error(status),
{
    500 <= status && status < 600
}

impl RequestError {
    /// A refusal names a status code.
    pub open spec fn valid(self) -> bool {
        self matches RequestError::Permanent(status) ==> 100 <= status <= 999
    }

    /// Whether the same request may succeed later: it timed out, did not
    /// connect, was not sent, or the coordinator itself failed.
    pub open spec fn transient_spec(self) -> bool {
        self matches RequestError::Transport(error) && (error.timeout || error.connect
            || error.request || (error.status matches Some(status) && server_error(status)))
    }

    pub fn transient(&self) -> (r: bool)
        ensures
            r == self.transient_spec(),
    {
        match self {
            RequestError::Transport(error) => error.timeout || error.connect || error.request
                || match error.status {
                Some(status) => is_server_error(status),
                None => false,
            },
            _ => false,
        }
    }

    pub open spec fn message_spec(self) -> Seq<char> {
        match self {
            RequestError::Transport(error) => "coordinator transport error: "@ + error.message@,
            RequestError::Permanent(status) => "coordinator rejected request with HTTP "@
                + status_line(status),
            RequestError::InvalidResponse(reason) => "invalid coordinator response: "@ + reason@,
            RequestError::Url(reason) => "invalid coordinator URL: "@ + reason@,
        }
    }

    pub fn message(&self) -> (r: String)
        requires
            self.valid(),
        ensures
            r@ == self.message_spec(),
    {
        match self {
            RequestError::Transport(error) => joined(
                "coordinator transport error: ",
                error.message.as_str(),
            ),
            RequestError::Permanent(status) => joined(
                "coordinator rejected request with HTTP ",
                status_text(*status).as_str(),
            ),
            RequestError::InvalidResponse(reason) => joined(
                "invalid coordinator response: ",
                reason.as_str(),
            ),
            RequestError::Url(reason) => joined("invalid coordinator URL: ", reason.as_str()),
        }
    }
}

/// The coordinator's address and the patience with it.
pub struct Coordinator {
    pub base: String,
    /// Seconds that a request may take.
    pub timeout: u64,
}

/// The address of a resource below the coordinator's base.
pub open spec fn resource_outcome(base: Seq<char>, path: Seq<char>, r: Result<String, RequestError>)
    -> bool {
    match joined_url(base, path) {
        Ok(url) => r matches Ok(text) && text@ == url,
        Err(reason) => r matches Err(RequestError::Url(text)) && text@ == reason,
    }
}

/// The request for a resource below the coordinator's base, or the reason why
/// that resource has no address.
pub open spec fn request_outcome(
    base: Seq<char>,
    path: Seq<char>,
    method: Method,
    r: Result<Request, RequestError>,
) -> bool {
    match joined_url(base, path) {
        Ok(url) => r matches Ok(request) && request.url@ == url && request.method == method,
        Err(reason) => r matches Err(RequestError::Url(text)) && text@ == reason,
    }
}

/// The path of a unit's dataset.
pub open spec fn dataset_path(project_id: Seq<char>, dataset_id: Seq<char>) -> Seq<char> {
    "v1/projects/"@ + project_id + "/datasets/"@ + dataset_id
}

/// The path that takes a unit's result.
pub open spec fn result_path(work_id: Seq<char>) -> Seq<char> {
    "v1/work/"@ + work_id + "/result"@
}

/// An identifier that can stand in a path: it neither climbs out of its
/// directory nor holds path syntax.
pub open spec fn path_safe(id: Seq<char>) -> bool {
    &&& forall|i: int| 0 <= i < id.len() ==> !path_syntax(#[trigger] id[i])
    &&& forall|i: int| !#[trigger] dot_segment_at(id, i)
    &&& id.len() > 0 ==> id.last() > ' '
}

/// An identifier that a path keeps letter for letter.
pub open spec fn path_literal(id: Seq<char>) -> bool {
    &&& forall|i: int| 0 <= i < id.len() ==> unreserved(#[trigger] id[i])
    &&& forall|i: int| !#[trigger] dot_segment_at(id, i)
}

/// Free of path syntax and of dot segments.
spec fn clean(path: Seq<char>) -> bool {
    &&& forall|i: int| 0 <= i < path.len() ==> !path_syntax(#[trigger] path[i])
    &&& forall|i: int| !#[trigger] dot_segment_at(path, i)
}

/// Clean parts that meet at a slash make a clean whole.
proof fn clean_parts_join(a: Seq<char>, b: Seq<char>)
    requires
        clean(a),
        clean(b),
        a.len() > 0 && a.last() == '/' || b.len() > 0 && b[0] == '/',
    ensures
        clean(a + b),
{
    let whole = a + b;
    assert forall|i: int| 0 <= i < whole.len() implies !path_syntax(#[trigger] whole[i]) by {
        if i < a.len() {
            assert(whole[i] == a[i]);
        } else {
            assert(whole[i] == b[i - a.len()]);
        }
    }
    assert forall|i: int| !#[trigger] dot_segment_at(whole, i) by {
        assert(!dot_segment_at(a, i));
        assert(!dot_segment_at(b, i - a.len()));
    }
}

/// The fixed parts of all paths are clean and literal.
proof fn fixed_parts()
    ensures
        descending_path("v1/nodes/register"@),
        descending_path("v1/work/claim"@),
        clean("v1/projects/"@),
        clean("/datasets/"@),
        clean("v1/work/"@),
        clean("/result"@),
        kept("v1/nodes/register"@),
        kept("v1/work/claim"@),
        kept("v1/projects/"@),
        kept("/datasets/"@),
        kept("v1/work/"@),
        kept("/result"@),
        "v1/projects/"@.last() == '/',
        "/datasets/"@[0] == '/',
        "/datasets/"@.last() == '/',
        "v1/work/"@.last() == '/',
        "/result"@[0] == '/',
        "/result"@.last() == 't',
        "v1/projects/"@.len() > 2,
        "/datasets/"@.len() > 0,
        "v1/work/"@.len() > 2,
        "/result"@.len() > 0,
        versioned("v1/projects/"@),
        versioned("v1/work/"@),
{
    reveal_strlit("v1/nodes/register");
    reveal_strlit("v1/work/claim");
    reveal_strlit("v1/projects/");
    reveal_strlit("/datasets/");
    reveal_strlit("v1/work/");
    reveal_strlit("/result");
    assert("v1/nodes/register"@[2] == '/');
    assert("v1/work/claim"@[2] == '/');
}

/// Starts with the version segment.
spec fn versioned(path: Seq<char>) -> bool {
    path.len() > 2 && path[0] == 'v' && path[1] == '1' && path[2] == '/'
}

/// Made of characters that a path keeps.
spec fn kept(path: Seq<char>) -> bool {
    forall|i: int| 0 <= i < path.len() ==> unreserved(#[trigger] path[i]) || path[i] == '/'
}

proof fn kept_parts_join(a: Seq<char>, b: Seq<char>)
    requires
        kept(a),
        kept(b),
    ensures
        kept(a + b),
{
    let whole = a + b;
    assert forall|i: int| 0 <= i < whole.len() implies unreserved(#[trigger] whole[i]) || whole[i]
        == '/' by {
        if i < a.len() {
            assert(whole[i] == a[i]);
        } else {
            assert(whole[i] == b[i - a.len()]);
        }
    }
}

/// The path of a dataset descends where both identifiers are safe, and is
/// kept where they are literal.
proof fn dataset_path_descends(project_id: Seq<char>, dataset_id: Seq<char>)
    ensures
        path_safe(project_id) && path_safe(dataset_id) ==> descending_path(
            dataset_path(project_id, dataset_id),
        ),
        path_literal(project_id) && path_literal(dataset_id) ==> descending_path(
            dataset_path(project_id, dataset_id),
        ) && kept(dataset_path(project_id, dataset_id)),
{
    fixed_parts();
    let first = "v1/projects/"@ + project_id;
    let second = first + "/datasets/"@;
    let path = second + dataset_id;
    assert(path == dataset_path(project_id, dataset_id));
    if clean(project_id) && clean(dataset_id) {
        clean_parts_join("v1/projects/"@, project_id);
        clean_parts_join(first, "/datasets/"@);
        assert(second.last() == '/');
        clean_parts_join(second, dataset_id);
        assert(versioned(path));
        assert(path[2] == '/');
        if dataset_id.len() == 0 {
            assert(path.last() == '/');
        } else {
            assert(path.last() == dataset_id.last());
        }
    }
    if path_literal(project_id) && path_literal(dataset_id) {
        assert(clean(project_id));
        assert(clean(dataset_id));
        kept_parts_join("v1/projects/"@, project_id);
        kept_parts_join(first, "/datasets/"@);
        kept_parts_join(second, dataset_id);
        if dataset_id.len() > 0 {
            assert(unreserved(dataset_id[dataset_id.len() - 1]));
        }
    }
}

/// The path of a result descends where the identifier is safe, and is kept
/// where it is literal.
proof fn result_path_descends(work_id: Seq<char>)
    ensures
        path_safe(work_id) ==> descending_path(result_path(work_id)),
        path_literal(work_id) ==> descending_path(result_path(work_id)) && kept(
            result_path(work_id),
        ),
{
    fixed_parts();
    let first = "v1/work/"@ + work_id;
    let path = first + "/result"@;
    assert(path == result_path(work_id));
    if clean(work_id) {
        clean_parts_join("v1/work/"@, work_id);
        clean_parts_join(first, "/result"@);
        assert(versioned(path));
        assert(path[2] == '/');
        assert(path.last() == 't');
    }
    if path_literal(work_id) {
        assert(clean(work_id));
        kept_parts_join("v1/work/"@, work_id);
        kept_parts_join(first, "/result"@);
    }
}

impl Coordinator {
    pub fn new(base: &str, timeout: u64) -> (r: Result<Coordinator, RequestError>)
        ensures
            match parsed_url(base@) {
                Ok(url) => r matches Ok(client) && client.base@ == url && client.timeout == timeout,
                Err(reason) => r matches Err(RequestError::Url(text)) && text@ == reason,
            },
    {
        match parse_url(base) {
            Ok(base) => Ok(Coordinator { base, timeout }),
            Err(reason) => Err(RequestError::Url(reason)),
        }
    }

    /// Whether the base is a web address that names a directory, as it must for
    /// every resource to lie beneath it.
    pub fn is_directory(&self) -> (r: bool)
        ensures
            r == directory_url(self.base@),
    {
        let base = self.base.as_str();
        match parse_url(base) {
            Ok(parsed) => {
                if !same_text(parsed.as_str(), base) {
                    return false;
                }
            },
            Err(_) => {
                return false;
            },
        }
        if !starts_with(base, "http://") && !starts_with(base, "https://") {
            return false;
        }
        proof {
            reveal_strlit("http://");
            reveal_strlit("https://");
        }
        let length: usize = base.unicode_len();
        base.get_char(length - 1) == '/' && !contains_char(base, '?') && !contains_char(base, '#')
    }

    /// The address of a resource.
    pub fn url(&self, path: &str) -> (r: Result<String, RequestError>)
        ensures
            resource_outcome(self.base@, path@, r),
            directory_url(self.base@) && descending_path(path@) ==> r is Ok
                && self.base@.is_prefix_of(r->Ok_0@),
            directory_url(self.base@) && descending_path(path@) && (forall|i: int|
                0 <= i < path@.len() ==> unreserved(#[trigger] path@[i]) || path@[i] == '/')
                ==> r is Ok && r->Ok_0@ == self.base@ + path@,
    {
        match join_url(self.base.as_str(), path) {
            Ok(url) => Ok(url),
            Err(reason) => Err(RequestError::Url(reason)),
        }
    }

    /// Announces a node.
    pub fn register(&self, body: &Registration) -> (r: Result<Request, RequestError>)
        ensures
            request_outcome(self.base@, "v1/nodes/register"@, Method::Post, r),
            directory_url(self.base@) ==> r is Ok && r->Ok_0.url@ == self.base@ + "v1/nodes/register"@,
            r matches Ok(request) ==> (request.body matches Body::Json(json) && body.is_json(json)),
    {
        proof {
            fixed_parts();
        }
        match self.url("v1/nodes/register") {
            Ok(url) => Ok(Request { method: Method::Post, url, body: Body::Json(body.to_json()) }),
            Err(error) => Err(error),
        }
    }

    /// Asks for one unit.
    pub fn claim(&self, node_id: &str) -> (r: Result<Request, RequestError>)
        ensures
            request_outcome(self.base@, "v1/work/claim"@, Method::Post, r),
            directory_url(self.base@) ==> r is Ok && r->Ok_0.url@ == self.base@ + "v1/work/claim"@,
            r matches Ok(request) ==> (request.body matches Body::Json(json) && (ClaimRequest {
                node_id,
            }).is_json(json)),
    {
        proof {
            fixed_parts();
        }
        match self.url("v1/work/claim") {
            Ok(url) => {
                let body = (ClaimRequest { node_id }).to_json();
                Ok(Request { method: Method::Post, url, body: Body::Json(body) })
            },
            Err(error) => Err(error),
        }
    }

    /// Asks for several units at once.
    pub fn claim_batch(&self, node_id: &str, max_work_units: usize) -> (r: Result<
        Request,
        RequestError,
    >)
        ensures
            request_outcome(self.base@, "v1/work/claim"@, Method::Post, r),
            directory_url(self.base@) ==> r is Ok && r->Ok_0.url@ == self.base@ + "v1/work/claim"@,
            r matches Ok(request) ==> (request.body matches Body::Json(json) && (BatchClaimRequest {
                node_id,
                max_work_units,
            }).is_json(json)),
    {
        proof {
            fixed_parts();
        }
        match self.url("v1/work/claim") {
            Ok(url) => {
                let body = (BatchClaimRequest { node_id, max_work_units }).to_json();
                Ok(Request { method: Method::Post, url, body: Body::Json(body) })
            },
            Err(error) => Err(error),
        }
    }

    /// Asks for the dataset of a unit.
    pub fn dataset(&self, work: &WorkUnit) -> (r: Result<Request, RequestError>)
        ensures
            request_outcome(
                self.base@,
                dataset_path(work.project_id@, work.dataset_id@),
                Method::Get,
                r,
            ),
            r matches Ok(request) ==> request.body is Empty,
            directory_url(self.base@) && path_safe(work.project_id@) && path_safe(work.dataset_id@)
                ==> r is Ok && self.base@.is_prefix_of(r->Ok_0.url@),
            directory_url(self.base@) && path_literal(work.project_id@) && path_literal(
                work.dataset_id@,
            ) ==> r is Ok && r->Ok_0.url@ == self.base@ + dataset_path(
                work.project_id@,
                work.dataset_id@,
            ),
    {
        proof {
            dataset_path_descends(work.project_id@, work.dataset_id@);
        }
        let project = joined("v1/projects/", work.project_id.as_str());
        let datasets = joined(project.as_str(), "/datasets/");
        let path = joined(datasets.as_str(), work.dataset_id.as_str());
        match self.url(path.as_str()) {
            Ok(url) => Ok(Request { method: Method::Get, url, body: Body::Empty }),
            Err(error) => Err(error),
        }
    }

    /// Hands in a result that was written down before, so that every attempt
    /// sends the same bytes.
    pub fn submit_bytes(&self, work_id: &str, body: &[u8]) -> (r: Result<Request, RequestError>)
        ensures
            request_outcome(self.base@, result_path(work_id@), Method::Post, r),
            r matches Ok(request) ==> (request.body matches Body::Bytes(bytes) && bytes@ == body@),
            directory_url(self.base@) && path_safe(work_id@) ==> r is Ok && self.base@.is_prefix_of(
                r->Ok_0.url@,
            ),
            directory_url(self.base@) && path_literal(work_id@) ==> r is Ok && r->Ok_0.url@
                == self.base@ + result_path(work_id@),
    {
        proof {
            result_path_descends(work_id@);
        }
        let work = joined("v1/work/", work_id);
        let path = joined(work.as_str(), "/result");
        match self.url(path.as_str()) {
            Ok(url) => Ok(
                Request { method: Method::Post, url, body: Body::Bytes(slice_to_vec(body)) },
            ),
            Err(error) => Err(error),
        }
    }
}

/// A reply to a registration is read unless its status is an error.
pub open spec fn register_reply_spec(status: u16) -> Reply {
    if client_error(status) || server_error(status) {
        Reply::StatusError
    } else {
        Reply::Read
    }
}

pub fn register_reply(status: u16) -> (r: Reply)
    ensures
        r == register_reply_spec(status),
{
    if is_client_error(status) || is_server_error(status) {
        Reply::StatusError
    } else {
        Reply::Read
    }
}

/// A reply to a claim may say that there is no work.
pub open spec fn claim_reply_spec(status: u16) -> Reply {
    if status == 204 {
        Reply::Nothing
    } else if client_error(status) || server_error(status) {
        Reply::StatusError
    } else {
        Reply::Read
    }
}

pub fn claim_reply(status: u16) -> (r: Reply)
    ensures
        r == claim_reply_spec(status),
{
    if status == 204 {
        Reply::Nothing
    } else if is_client_error(status) || is_server_error(status) {
        Reply::StatusError
    } else {
        Reply::Read
    }
}

/// A dataset is read from a success only. A failing coordinator may recover;
/// any other status is final.
pub open spec fn dataset_reply_spec(status: u16) -> Reply {
    if server_error(status) {
        Reply::StatusError
    } else if !success(status) {
        Reply::Refused(status)
    } else {
        Reply::Read
    }
}

pub fn dataset_reply(status: u16) -> (r: Reply)
    ensures
        r == dataset_reply_spec(status),
{
    if is_server_error(status) {
        Reply::StatusError
    } else if !is_success(status) {
        Reply::Refused(status)
    } else {
        Reply::Read
    }
}

/// A receipt is read from a success only. The coordinator's refusal is final;
/// its failure is not.
pub open spec fn submit_reply_spec(status: u16) -> Reply {
    if success(status) {
        Reply::Read
    } else if client_error(status) {
        Reply::Refused(status)
    } else {
        Reply::StatusError
    }
}

pub fn submit_reply(status: u16) -> (r: Reply)
    requires
        success(status) || client_error(status) || server_error(status),
    ensures
        r == submit_reply_spec(status),
{
    if is_success(status) {
        Reply::Read
    } else if is_client_error(status) {
        Reply::Refused(status)
    } else {
        Reply::StatusError
    }
}

/// What a dataset or submission reply that cannot be read amounts to.
pub open spec fn refusal_spec(reply: Reply, error: TransportError) -> RequestError {
    match reply {
        Reply::Refused(status) => RequestError::Permanent(status),
        _ => RequestError::Transport(error),
    }
}

pub fn refusal(reply: Reply, error: TransportError) -> (r: RequestError)
    ensures
        r == refusal_spec(reply, error),
{
    match reply {
        Reply::Refused(status) => RequestError::Permanent(status),
        _ => RequestError::Transport(error),
    }
}

/// How the exchange of a request and a reply went.
pub enum Exchange<T> {
    /// No reply came.
    Undelivered(TransportError),
    /// The status said that the reply is not to be read; the error is that of
    /// the status.
    Unread { status: u16, error: TransportError },
    /// The reply was to be read and could not be decoded.
    Undecoded(TransportError),
    Decoded(T),
}

/// A dataset that cannot be decoded is an invalid response.
pub fn dataset_undecoded(reason: String) -> (r: RequestError)
    ensures
        r == RequestError::InvalidResponse(reason),
{
    RequestError::InvalidResponse(reason)
}

/// A receipt that cannot be decoded is a failure of the transport.
pub fn receipt_undecoded(error: TransportError) -> (r: RequestError)
    ensures
        r == RequestError::Transport(error),
{
    RequestError::Transport(error)
}

/// What a request for a dataset comes to.
pub open spec fn dataset_outcome_spec(exchange: Exchange<Dataset>) -> Result<
    Dataset,
    RequestError,
> {
    match exchange {
        Exchange::Undelivered(error) => Err(RequestError::Transport(error)),
        Exchange::Unread { status, error } => Err(
            refusal_spec(dataset_reply_spec(status), error),
        ),
        Exchange::Undecoded(error) => Err(RequestError::InvalidResponse(error.message)),
        Exchange::Decoded(dataset) => Ok(dataset),
    }
}

pub fn dataset_outcome(exchange: Exchange<Dataset>) -> (r: Result<Dataset, RequestError>)
    ensures
        r == dataset_outcome_spec(exchange),
{
    match exchange {
        Exchange::Undelivered(error) => Err(RequestError::Transport(error)),
        Exchange::Unread { status, error } => Err(refusal(dataset_reply(status), error)),
        Exchange::Undecoded(error) => Err(dataset_undecoded(error.message)),
        Exchange::Decoded(dataset) => Ok(dataset),
    }
}

/// What a submission comes to.
pub open spec fn submit_outcome_spec(exchange: Exchange<ResultReceipt>) -> Result<
    ResultReceipt,
    RequestError,
> {
    match exchange {
        Exchange::Undelivered(error) => Err(RequestError::Transport(error)),
        Exchange::Unread { status, error } => Err(refusal_spec(submit_reply_spec(status), error)),
        Exchange::Undecoded(error) => Err(RequestError::Transport(error)),
        Exchange::Decoded(receipt) => Ok(receipt),
    }
}

pub fn submit_outcome(exchange: Exchange<ResultReceipt>) -> (r: Result<
    ResultReceipt,
    RequestError,
>)
    requires
        exchange matches Exchange::Unread { status, .. } ==> success(status) || client_error(status)
            || server_error(status),
    ensures
        r == submit_outcome_spec(exchange),
{
    match exchange {
        Exchange::Undelivered(error) => Err(RequestError::Transport(error)),
        Exchange::Unread { status, error } => Err(refusal(submit_reply(status), error)),
        Exchange::Undecoded(error) => Err(receipt_undecoded(error)),
        Exchange::Decoded(receipt) => Ok(receipt),
    }
}

/// A dataset that was sent and makes no sense is not asked for again. Any
/// receipt that makes sense ends its submission, whether or not it accepts the
/// result.
pub proof fn what_was_answered_is_not_asked_again(error: TransportError, receipt: ResultReceipt)
    ensures
        dataset_outcome_spec(Exchange::Undecoded(error)) matches Err(failure)
            && !failure.transient_spec(),
        submit_outcome_spec(Exchange::Decoded(receipt)) is Ok,
{
}

/// A client error is final and a server error is worth another attempt, for
/// datasets and for submissions alike.
pub proof fn only_server_errors_are_retried(status: u16, error: TransportError)
    requires
        error.status == Some(status),
    ensures
        client_error(status) ==> {
            &&& !refusal_spec(dataset_reply_spec(status), error).transient_spec()
            &&& !refusal_spec(submit_reply_spec(status), error).transient_spec()
        },
        server_error(status) ==> {
            &&& refusal_spec(dataset_reply_spec(status), error).transient_spec()
            &&& refusal_spec(submit_reply_spec(status), error).transient_spec()
        },
{
}

/// Replies are read in the two hundreds and never in the four and five hundreds;
/// only a claim takes 204 for no work. A dataset is read in the two hundreds
/// alone, and a refusal keeps its status.
pub proof fn replies_are_judged_by_the_hundreds(status: u16, error: TransportError)
    requires
        error.status == Some(status),
    ensures
        200 <= status <= 299 ==> {
            &&& register_reply_spec(status) is Read
            &&& claim_reply_spec(status) is Nothing <==> status == 204
            &&& claim_reply_spec(status) is Read <==> status != 204
            &&& dataset_reply_spec(status) is Read
            &&& submit_reply_spec(status) is Read
        },
        400 <= status <= 499 ==> {
            &&& register_reply_spec(status) is StatusError
            &&& claim_reply_spec(status) is StatusError
            &&& refusal_spec(dataset_reply_spec(status), error) == RequestError::Permanent(status)
            &&& refusal_spec(submit_reply_spec(status), error) == RequestError::Permanent(status)
        },
        500 <= status <= 599 ==> {
            &&& register_reply_spec(status) is StatusError
            &&& claim_reply_spec(status) is StatusError
            &&& refusal_spec(dataset_reply_spec(status), error) == RequestError::Transport(error)
            &&& refusal_spec(submit_reply_spec(status), error) == RequestError::Transport(error)
            &&& RequestError::Transport(error).transient_spec()
        },
        status < 200 || 300 <= status <= 399 || 600 <= status ==> {
            &&& register_reply_spec(status) is Read
            &&& claim_reply_spec(status) is Read
            &&& refusal_spec(dataset_reply_spec(status), error) == RequestError::Permanent(status)
        },
{
}

/// A failure passes exactly where the request timed out, found no connection or
/// was not sent, or the status lies in the five hundreds. No other kind of error
/// passes.
pub proof fn passing_failures_are_those_of_the_transport(error: RequestError)
    ensures
        error.transient_spec() ==> error is Transport,
        error matches RequestError::Transport(cause) ==> (error.transient_spec() <==> cause.timeout
            || cause.connect || cause.request || (cause.status is Some && 500
            <= cause.status->Some_0 <= 599)),
{
}

/// Requests for the datasets of different units go to different places, and so do
/// results of different units, where identifiers hold no slash.
pub proof fn different_resources_have_different_paths(
    project: Seq<char>,
    dataset: Seq<char>,
    other_project: Seq<char>,
    other_dataset: Seq<char>,
    work: Seq<char>,
    other_work: Seq<char>,
)
    requires
        !project.contains('/'),
        !other_project.contains('/'),
        !work.contains('/'),
        !other_work.contains('/'),
    ensures
        dataset_path(project, dataset) == dataset_path(other_project, other_dataset) ==> project
            == other_project && dataset == other_dataset,
        result_path(work) == result_path(other_work) ==> work == other_work,
        ("v1/projects/"@ + project + "/"@).is_prefix_of(dataset_path(project, dataset)),
        dataset_path(project, dataset).len() == "v1/projects/"@.len() + project.len()
            + "/datasets/"@.len() + dataset.len(),
        ("v1/work/"@ + work + "/"@).is_prefix_of(result_path(work)),
{
    reveal_strlit("v1/projects/");
    reveal_strlit("/datasets/");
    reveal_strlit("v1/work/");
    reveal_strlit("/result");
    reveal_strlit("/");
    let a = dataset_path(project, dataset);
    let b = dataset_path(other_project, other_dataset);
    if a == b {
        if project.len() < other_project.len() {
            assert(a[12int + project.len()] == '/');
            assert(b[12int + project.len()] == other_project[project.len() as int]);
            assert(other_project.contains('/'));
        }
        if other_project.len() < project.len() {
            assert(b[12int + other_project.len()] == '/');
            assert(a[12int + other_project.len()] == project[other_project.len() as int]);
            assert(project.contains('/'));
        }
        assert forall|i: int| 0 <= i < project.len() implies project[i] == other_project[i] by {
            assert(a[12 + i] == project[i]);
            assert(b[12 + i] == other_project[i]);
        }
        assert(project =~= other_project);
        assert(a.len() == b.len());
        assert(dataset.len() == other_dataset.len());
        assert forall|i: int| 0 <= i < dataset.len() implies dataset[i] == other_dataset[i] by {
            assert(a[22 + project.len() + i] == dataset[i]);
            assert(b[22 + project.len() + i] == other_dataset[i]);
        }
        assert(dataset =~= other_dataset);
    }
    let c = result_path(work);
    let d = result_path(other_work);
    if c == d {
        assert(c.len() == d.len());
        assert(work.len() == other_work.len());
        assert forall|i: int| 0 <= i < work.len() implies work[i] == other_work[i] by {
            assert(c[8 + i] == work[i]);
            assert(d[8 + i] == other_work[i]);
        }
        assert(work =~= other_work);
    }
    let head = "v1/projects/"@ + project + "/"@;
    assert(a.subrange(0, head.len() as int) =~= head);
    let front = "v1/work/"@ + work + "/"@;
    assert(c.subrange(0, front.len() as int) =~= front);
}

/// Every error says what kind of error it is, and then the reason it was given.
pub proof fn errors_say_their_kind_and_reason(error: TransportError, reason: String, status: u16)
    ensures
        RequestError::Transport(error).message_spec() == "coordinator transport error: "@
            + error.message@,
        RequestError::InvalidResponse(reason).message_spec() == "invalid coordinator response: "@
            + reason@,
        RequestError::Url(reason).message_spec() == "invalid coordinator URL: "@ + reason@,
        RequestError::Permanent(status).message_spec() == "coordinator rejected request with HTTP "@
            + status_line(status),
{
}

/// What did not arrive may be sent again, for a dataset and for a result alike:
/// the failure is that of the transport and passes where the transport's does. A
/// receipt that arrived and cannot be decoded is a failure of the transport too.
pub proof fn what_did_not_arrive_is_a_failure_of_the_transport(error: TransportError)
    ensures
        dataset_outcome_spec(Exchange::Undelivered(error)) is Err,
        dataset_outcome_spec(Exchange::Undelivered(error))->Err_0 == RequestError::Transport(error),
        submit_outcome_spec(Exchange::Undelivered(error)) is Err,
        submit_outcome_spec(Exchange::Undelivered(error))->Err_0 == RequestError::Transport(error),
        submit_outcome_spec(Exchange::Undecoded(error)) is Err,
        submit_outcome_spec(Exchange::Undecoded(error))->Err_0 == RequestError::Transport(error),
        error.timeout || error.connect || error.request ==> RequestError::Transport(
            error,
        ).transient_spec(),
{
}

/// What arrived and was decoded is handed on as it is.
pub proof fn what_was_decoded_is_handed_on(dataset: Dataset, receipt: ResultReceipt)
    ensures
        dataset_outcome_spec(Exchange::Decoded(dataset)) == Ok::<Dataset, RequestError>(dataset),
        submit_outcome_spec(Exchange::Decoded(receipt)) == Ok::<ResultReceipt, RequestError>(
            receipt,
        ),
{
}

} // verus!
