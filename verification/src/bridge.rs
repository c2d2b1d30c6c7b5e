//! The request bridge: what to send to the backend for a caller's request,
//! and what to hand back to the caller once the exchange is over.
//!
//! Sending is not done here. [`plan_fetch`] decides what is to be sent, or
//! that nothing is; the shell sends it and reports the [`Exchange`];
//! [`conclude_fetch`] turns that into the caller's result.

use vstd::prelude::*;
use crate::error::{ShellError, ShellErrorView};
use crate::text::same_text;
use crate::views::{view_option, view_result};

verus! {

/// The methods that the bridge forwards.
#[derive(Clone, Copy, Debug, PartialEq, Eq, Structural)]
pub enum HttpMethod {
    Get,
    Post,
}

/// A request that is ready to be sent. Where `content_type` is set, it is the
/// value of the request's `Content-Type` header; where `body` is set, it is
/// sent as it stands.
#[derive(Clone, Debug, PartialEq, Eq)]
pub struct RequestPlan {
    pub method: HttpMethod,
    pub url: String,
    pub content_type: Option<String>,
    pub body: Option<String>,
}

/// What a [`RequestPlan`] holds, as mathematical values.
pub struct RequestPlanView {
    pub method: HttpMethod,
    pub url: Seq<char>,
    pub content_type: Option<Seq<char>>,
    pub body: Option<Seq<char>>,
}

impl View for RequestPlan {
    type V = RequestPlanView;

    open spec fn view(&self) -> RequestPlanView {
        RequestPlanView {
            method: self.method,
            url: self.url@,
            content_type: view_option(self.content_type),
            body: view_option(self.body),
        }
    }
}

/// How an exchange with the backend ended.
#[derive(Clone, Debug, PartialEq, Eq)]
pub enum Exchange {
    /// A response came back and its body was read in full.
    Replied { status: u16, body: String },
    /// No response came back, or its body could not be read; holds the
    /// client's description of what went wrong.
    Failed(String),
}

/// What an [`Exchange`] holds, as mathematical values.
pub enum ExchangeView {
    Replied { status: u16, body: Seq<char> },
    Failed(Seq<char>),
}

impl View for Exchange {
    type V = ExchangeView;

    open spec fn view(&self) -> ExchangeView {
        match *self {
            Exchange::Replied { status, body } => ExchangeView::Replied { status, body: body@ },
            Exchange::Failed(reason) => ExchangeView::Failed(reason@),
        }
    }
}

/// The address that the backend listens on.
pub open spec fn backend_address() -> Seq<char> {
    "http://127.0.0.1:8000"@
}

/// The method that a name stands for. Names are taken as they are written:
/// `GET` and `POST` in capitals, and nothing else.
pub open spec fn method_of(name: Seq<char>) -> Option<HttpMethod> {
    if name == "GET"@ {
        Some(HttpMethod::Get)
    } else if name == "POST"@ {
        Some(HttpMethod::Post)
    } else {
        None
    }
}

/// What is sent for a request. A `GET` carries no body, whatever the caller
/// gave. A `POST` carries the caller's body as it is, marked as JSON, or no
/// body and no mark where the caller gave none. Any other method is turned
/// down under its own name, and nothing is sent.
pub open spec fn request_plan_of(url: Seq<char>, method: Seq<char>, body: Option<Seq<char>>) -> Result<
    RequestPlanView,
    ShellErrorView,
> {
    match method_of(method) {
        Some(HttpMethod::Get) => Ok(
            RequestPlanView { method: HttpMethod::Get, url, content_type: None, body: None },
        ),
        Some(HttpMethod::Post) => Ok(
            RequestPlanView {
                method: HttpMethod::Post,
                url,
                content_type: if body is Some {
                    Some("application/json"@)
                } else {
                    None
                },
                body,
            },
        ),
        None => Err(ShellErrorView::UnsupportedMethod(method)),
    }
}

/// Whether an HTTP status lies in the success range, 200 to 299.
pub open spec fn is_success_status(status: u16) -> bool {
    200 <= status < 300
}

/// What the caller gets for an exchange: the body of a response with a
/// success status; a backend failure that keeps both status and body for any
/// other response; a transport failure where no response was had.
pub open spec fn fetch_result_of(exchange: ExchangeView) -> Result<Seq<char>, ShellErrorView> {
    match exchange {
        ExchangeView::Replied { status, body } => if is_success_status(status) {
            Ok(body)
        } else {
            Err(ShellErrorView::Backend { status, body })
        },
        ExchangeView::Failed(reason) => Err(ShellErrorView::Transport(reason)),
    }
}

/// Asks `reqwest::StatusCode` whether `status` is a success.
///
/// `StatusCode::from_u16` accepts the numbers from 100 to 999 and no others,
/// and `StatusCode::is_success` holds of the statuses from 200 to 299 and no
/// others. A number that `from_u16` turns down is therefore no success.
#[verifier::external_body]
fn status_is_success(status: u16) -> (success: bool)
    ensures
        success == is_success_status(status),
{
    match reqwest::StatusCode::from_u16(status) {
        Ok(code) => code.is_success(),
        Err(_) => false,
    }
}

/// The address that the backend listens on. It is fixed: both sides go by
/// it, and it is not learned from the process that was started.
pub fn get_backend_url() -> (url: String)
    ensures
        url@ == backend_address(),
{
    String::from_str("http://127.0.0.1:8000")
}

/// Reads the name of a method.
pub fn parse_method(name: &str) -> (method: Option<HttpMethod>)
    ensures
        method == method_of(name@),
{
    if same_text(name, "GET") {
        Some(HttpMethod::Get)
    } else if same_text(name, "POST") {
        Some(HttpMethod::Post)
    } else {
        None
    }
}

/// Decides what to send for a caller's request, before anything is sent.
pub fn plan_fetch(url: String, method: String, body: Option<String>) -> (plan: Result<
    RequestPlan,
    ShellError,
>)
    ensures
        view_result(plan) == request_plan_of(url@, method@, view_option(body)),
{
    match parse_method(method.as_str()) {
        Some(HttpMethod::Get) => Ok(
            RequestPlan { method: HttpMethod::Get, url, content_type: None, body: None },
        ),
        Some(HttpMethod::Post) => {
            let content_type = match &body {
                Some(_) => Some(String::from_str("application/json")),
                None => None,
            };
            Ok(RequestPlan { method: HttpMethod::Post, url, content_type, body })
        },
        None => Err(ShellError::UnsupportedMethod(method)),
    }
}

/// Turns the end of an exchange into the caller's result.
pub fn conclude_fetch(exchange: Exchange) -> (result: Result<String, ShellError>)
    ensures
        view_result(result) == fetch_result_of(exchange@),
{
    match exchange {
        Exchange::Replied { status, body } => {
            if status_is_success(status) {
                Ok(body)
            } else {
                Err(ShellError::Backend { status, body })
            }
        },
        Exchange::Failed(reason) => Err(ShellError::Transport(reason)),
    }
}

/// A request is planned for `GET` and for `POST` and for no other method,
/// whatever the address and the body. The plan goes to the address as given;
/// a method that is turned down is named in the failure as it was given.
pub proof fn lemma_only_known_methods_are_planned(
    url: Seq<char>,
    method: Seq<char>,
    body: Option<Seq<char>>,
)
    ensures
        request_plan_of(url, method, body) is Ok <==> (method == "GET"@ || method == "POST"@),
        request_plan_of(url, method, body) is Ok ==> request_plan_of(url, method, body)->Ok_0.url
            == url,
        request_plan_of(url, method, body) is Err ==> request_plan_of(url, method, body)->Err_0
            == ShellErrorView::UnsupportedMethod(method),
{
}

/// A body is sent exactly where the method is `POST` and the caller gave
/// one, and exactly then the request is marked as JSON.
pub proof fn lemma_body_goes_with_post_alone(
    url: Seq<char>,
    method: Seq<char>,
    body: Option<Seq<char>>,
)
    requires
        request_plan_of(url, method, body) is Ok,
    ensures
        request_plan_of(url, method, body)->Ok_0.body is Some <==> (method == "POST"@
            && body is Some),
        request_plan_of(url, method, body)->Ok_0.body is Some ==> request_plan_of(
            url,
            method,
            body,
        )->Ok_0.body == body,
        request_plan_of(url, method, body)->Ok_0.content_type is Some <==> request_plan_of(
            url,
            method,
            body,
        )->Ok_0.body is Some,
{
    reveal_strlit("GET");
    reveal_strlit("POST");
    assert("GET"@.len() != "POST"@.len());
}

} // verus!
