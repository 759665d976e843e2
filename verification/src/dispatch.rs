//! What is sent to the service, and what its answer means.
//!
//! Nothing here touches the network. A caller asks for a [`Request`], has it
//! sent by whatever transport it uses, and hands what came back to
//! [`classify`] or [`classify_settings`] as a [`Reply`].

use crate::algoliaobject::AlgoliaObject;
use crate::error::EasyAlgoliaError;
use crate::error::ErrorKind;
use crate::error::ErrorView;
use crate::AlgoliaIndexSetting;
use crate::Index;
use vstd::prelude::*;
use vstd::string::*;

verus! {

/// The HTTP method of a request.
#[derive(Debug, Clone, Copy, PartialEq, Eq, Structural)]
pub enum Method {
    /// Reads a resource.
    Get,
    /// Creates a resource under an identity that the service picks.
    Post,
    /// Stores a resource under a given identity, in place of what was there.
    Put,
    /// Removes a resource.
    Delete,
}

/// A resource of the service, and what to do with it.
pub struct Target {
    pub method: Method,
    pub path: String,
}

/// The mathematical content of a [`Target`].
pub struct TargetView {
    pub method: Method,
    pub path: Seq<char>,
}

impl View for Target {
    type V = TargetView;

    open spec fn view(&self) -> TargetView {
        TargetView { method: self.method, path: self.path@ }
    }
}

/// The path of an index as a whole.
pub open spec fn collection_path(index: Seq<char>) -> Seq<char> {
    "indexes/"@ + index
}

/// The path of one document of an index.
pub open spec fn item_path(index: Seq<char>, object_id: Seq<char>) -> Seq<char> {
    "indexes/"@ + index + "/"@ + object_id
}

/// The path of the settings of an index.
pub open spec fn settings_path(index: Seq<char>) -> Seq<char> {
    "indexes/"@ + index + "/settings"@
}

/// Where a document with the given object id is stored: without an id it is
/// created in the index, with an id it is put under that id.
pub open spec fn resolved(index: Seq<char>, object_id: Seq<char>) -> TargetView {
    if object_id.len() == 0 {
        TargetView { method: Method::Post, path: collection_path(index) }
    } else {
        TargetView { method: Method::Put, path: item_path(index, object_id) }
    }
}

/// The cause given when a document without an object id is to be deleted.
pub open spec fn missing_identity() -> Seq<char> {
    "object id must be present for document delete method"@
}

/// How a document with the given object id is deleted: only a document with
/// an id can be.
pub open spec fn resolved_delete(index: Seq<char>, object_id: Seq<char>) -> Result<
    TargetView,
    ErrorView,
> {
    if object_id.len() == 0 {
        Err(ErrorView { kind: ErrorKind::ClientError, cause: Some(missing_identity()) })
    } else {
        Ok(TargetView { method: Method::Delete, path: item_path(index, object_id) })
    }
}

/// The view of a result that holds a target or an error.
pub open spec fn target_result_view(r: Result<Target, EasyAlgoliaError>) -> Result<
    TargetView,
    ErrorView,
> {
    match r {
        Ok(target) => Ok(target@),
        Err(e) => Err(e@),
    }
}

/// Decides path and method for storing a document with the given object id.
pub fn resolve(index: &Index, object_id: &str) -> (target: Target)
    ensures
        target@ == resolved(index@, object_id@),
{
    let path = "indexes/".to_owned().concat(index.index());
    if object_id.is_empty() {
        Target { method: Method::Post, path }
    } else {
        Target { method: Method::Put, path: path.concat("/").concat(object_id) }
    }
}

/// Decides path and method for storing a document, by the object id that it
/// gives.
pub fn resolve_document<T: AlgoliaObject>(index: &Index, document: &T) -> (target: Target)
    ensures
        exists|id: String| #[trigger]
            call_ensures(T::get_object_id, (document,), id) && target@ == resolved(index@, id@),
{
    let id = document.get_object_id();
    resolve(index, id.as_str())
}

/// Decides path and method for deleting the document with the given object
/// id, or refuses where there is no id.
pub fn resolve_delete(index: &Index, object_id: &str) -> (target: Result<Target, EasyAlgoliaError>)
    ensures
        target_result_view(target) == resolved_delete(index@, object_id@),
{
    if object_id.is_empty() {
        Err(
            EasyAlgoliaError::new(
                ErrorKind::ClientError,
                Some("object id must be present for document delete method".to_owned()),
            ),
        )
    } else {
        let path = "indexes/".to_owned().concat(index.index()).concat("/").concat(object_id);
        Ok(Target { method: Method::Delete, path })
    }
}

/// Path and method for reading (`write` false) or replacing (`write` true) the
/// settings of an index.
pub fn resolve_settings(index: &Index, write: bool) -> (target: Target)
    ensures
        target@ == (TargetView {
            method: if write {
                Method::Put
            } else {
                Method::Get
            },
            path: settings_path(index@),
        }),
{
    let path = "indexes/".to_owned().concat(index.index()).concat("/settings");
    if write {
        Target { method: Method::Put, path }
    } else {
        Target { method: Method::Get, path }
    }
}

/// One header of a request.
pub struct Header {
    pub name: String,
    pub value: String,
}

impl View for Header {
    type V = (Seq<char>, Seq<char>);

    open spec fn view(&self) -> (Seq<char>, Seq<char>) {
        (self.name@, self.value@)
    }
}

/// A request, ready to be sent.
///
/// The headers hold the credentials in the clear, so a request has no debug
/// rendering.
pub struct Request {
    pub method: Method,
    pub url: String,
    pub headers: Vec<Header>,
    /// Whether the payload of the operation goes along as a JSON body.
    pub has_body: bool,
}

/// The mathematical content of a [`Request`].
pub struct RequestView {
    pub method: Method,
    pub url: Seq<char>,
    pub headers: Seq<(Seq<char>, Seq<char>)>,
    pub has_body: bool,
}

impl View for Request {
    type V = RequestView;

    open spec fn view(&self) -> RequestView {
        RequestView {
            method: self.method,
            url: self.url@,
            headers: self.headers@.map_values(|h: Header| h@),
            has_body: self.has_body,
        }
    }
}

/// The address of a resource: the host is made of the application id.
pub open spec fn endpoint(application_id: Seq<char>, path: Seq<char>) -> Seq<char> {
    "https://"@ + application_id + ".algolia.net/1/"@ + path
}

/// The request for a target: its method, its address, and the two headers by
/// which the service knows the caller, the API key first.
pub open spec fn planned(
    api_key: Seq<char>,
    application_id: Seq<char>,
    target: TargetView,
    has_body: bool,
) -> RequestView {
    RequestView {
        method: target.method,
        url: endpoint(application_id, target.path),
        headers: seq![
            ("X-Algolia-API-Key"@, api_key),
            ("X-Algolia-Application-Id"@, application_id),
        ],
        has_body,
    }
}

/// Makes the request for a target out of the credentials in the clear.
pub fn plan(api_key: &str, application_id: &str, target: Target, has_body: bool) -> (request:
    Request)
    ensures
        request@ == planned(api_key@, application_id@, target@, has_body),
{
    let url = "https://".to_owned().concat(application_id).concat(".algolia.net/1/").concat(
        target.path.as_str(),
    );
    let mut headers: Vec<Header> = Vec::new();
    headers.push(Header { name: "X-Algolia-API-Key".to_owned(), value: api_key.to_owned() });
    headers.push(
        Header { name: "X-Algolia-Application-Id".to_owned(), value: application_id.to_owned() },
    );
    let request = Request { method: target.method, url, headers, has_body };
    assert(request@.headers =~= planned(
        api_key@,
        application_id@,
        target@,
        has_body,
    ).headers);
    request
}

/// What came back for a request that was sent.
pub enum Reply {
    /// Nothing: the transport failed before there was a response.
    Unreachable,
    /// A response with this status. Where the status is not 200, `diagnostic`
    /// is the text of its body, if that could be read.
    Answered { status: u16, diagnostic: Option<String> },
}

/// What a reply means: the only success is a response with status 200. A
/// response with any other status is a request error whose cause is the
/// diagnostic text; no response at all is a request error without a cause.
pub open spec fn classified(reply: Reply) -> Result<(), ErrorView> {
    match reply {
        Reply::Unreachable => Err(ErrorView { kind: ErrorKind::RequestError, cause: None }),
        Reply::Answered { status, diagnostic } => if status == 200 {
            Ok(())
        } else {
            Err(ErrorView { kind: ErrorKind::RequestError, cause: diagnostic.deep_view() })
        },
    }
}

/// What a reply to a request for settings means. With a status of 200,
/// `decoded` holds the settings that the body gave, if it gave any; a body
/// that could not be decoded is a request error without a cause.
pub open spec fn classified_settings(
    reply: Reply,
    decoded: Option<AlgoliaIndexSetting>,
) -> Result<AlgoliaIndexSetting, ErrorView> {
    match classified(reply) {
        Ok(_) => match decoded {
            Some(setting) => Ok(setting),
            None => Err(ErrorView { kind: ErrorKind::RequestError, cause: None }),
        },
        Err(e) => Err(e),
    }
}

/// Whether a response with this status is a success: only 200 is.
pub fn accepted(status: u16) -> (yes: bool)
    ensures
        yes == (status == 200),
{
    status == 200
}

/// Says what a reply means for an operation that returns nothing.
pub fn classify(reply: Reply) -> (outcome: Result<(), EasyAlgoliaError>)
    ensures
        match classified(reply) {
            Ok(_) => outcome is Ok,
            Err(e) => outcome is Err && outcome->Err_0@ == e,
        },
{
    match reply {
        Reply::Unreachable => Err(EasyAlgoliaError::new(ErrorKind::RequestError, None)),
        Reply::Answered { status, diagnostic } => {
            if accepted(status) {
                Ok(())
            } else {
                Err(EasyAlgoliaError::new(ErrorKind::RequestError, diagnostic))
            }
        },
    }
}

/// Says what a reply means for the operation that reads settings.
pub fn classify_settings(reply: Reply, decoded: Option<AlgoliaIndexSetting>) -> (outcome: Result<
    AlgoliaIndexSetting,
    EasyAlgoliaError,
>)
    ensures
        match classified_settings(reply, decoded) {
            Ok(setting) => outcome == Ok::<AlgoliaIndexSetting, EasyAlgoliaError>(setting),
            Err(e) => outcome is Err && outcome->Err_0@ == e,
        },
{
    match classify(reply) {
        Ok(_) => match decoded {
            Some(setting) => Ok(setting),
            None => Err(EasyAlgoliaError::new(ErrorKind::RequestError, None)),
        },
        Err(e) => Err(e),
    }
}

/// Only a response with status 200 is a success; every other reply is a
/// request error.
pub proof fn lemma_only_200_succeeds(reply: Reply)
    ensures
        classified(reply) is Ok <==> (reply matches Reply::Answered { status, .. } && status
            == 200),
        classified(reply) matches Err(e) ==> e.kind == ErrorKind::RequestError,
{
}

/// A document without an object id is created in the index as a whole.
pub proof fn lemma_empty_identity_creates(index: Seq<char>)
    ensures
        resolved(index, Seq::empty()) == (TargetView {
            method: Method::Post,
            path: collection_path(index),
        }),
{
}

/// A document with an object id is put under that id.
pub proof fn lemma_identity_replaces(index: Seq<char>, object_id: Seq<char>)
    requires
        object_id.len() > 0,
    ensures
        resolved(index, object_id) == (TargetView {
            method: Method::Put,
            path: item_path(index, object_id),
        }),
{
}

/// Storing under the same object id twice asks the same of the service both
/// times: whatever two calls of [`resolve`] return for one index and one id
/// has the same path and the same method.
pub proof fn lemma_resolve_is_repeatable(
    index: Seq<char>,
    object_id: Seq<char>,
    first: Target,
    second: Target,
)
    requires
        first@ == resolved(index, object_id),
        second@ == resolved(index, object_id),
    ensures
        first@.path == second@.path,
        first@.method == second@.method,
{
}

/// Deleting without an object id is refused with a client error, and so
/// yields no target that could be sent.
pub proof fn lemma_delete_needs_identity(index: Seq<char>, object_id: Seq<char>)
    ensures
        resolved_delete(index, object_id) is Err <==> object_id.len() == 0,
        resolved_delete(index, object_id) matches Err(e) ==> e.kind == ErrorKind::ClientError,
{
}

} // verus!
