//! Client-side logic for the admin HTTP interface of the Algolia search
//! service: which request stores, deletes or configures what, what an answer
//! of the service means, and how a search query is written out as a string.
//!
//! The library sends nothing itself. A [`Client`] holds the credentials and
//! makes a [`dispatch::Request`] for each operation; the caller has it sent
//! and gives what came back to [`dispatch::classify`]. Every function has a
//! contract, stated over the views of the types, and is proved to meet it.
//!
//! - [`algoliaobject`]: documents, sort directives, the query builder
//! - [`client_builder`]: making a client out of its credentials
//! - [`dispatch`]: targets, requests and the meaning of replies
//! - [`error`]: the errors
//! - [`secret`], [`text`], [`outside`]: what rests on other crates and on the
//!   standard library without proof

pub mod algoliaobject;
pub mod client_builder;
pub mod dispatch;
pub mod error;
pub mod outside;
pub mod secret;
pub mod text;

use crate::algoliaobject::AlgoliaObject;
use crate::dispatch::endpoint;
use crate::dispatch::item_path;
use crate::dispatch::plan;
use crate::dispatch::planned;
use crate::dispatch::resolve;
use crate::dispatch::resolve_delete;
use crate::dispatch::resolve_settings;
use crate::dispatch::resolved;
use crate::dispatch::resolved_delete;
use crate::dispatch::settings_path;
use crate::dispatch::Method;
use crate::dispatch::Request;
use crate::dispatch::RequestView;
use crate::dispatch::TargetView;
use crate::error::EasyAlgoliaError;
use crate::error::ErrorKind;
use crate::error::ErrorView;
use crate::secret::expose;
use crate::secret::seal;
use crate::secret::secret_text;
use crate::secret::SecretText;
use vstd::prelude::*;

verus! {

/// The name of an index: a collection of documents on the service. Any text is
/// taken as a name; whether such an index exists is for the service to say.
pub struct Index {
    index: String,
}

impl View for Index {
    type V = Seq<char>;

    closed spec fn view(&self) -> Seq<char> {
        self.index@
    }
}

impl Index {
    /// The name.
    pub fn index(&self) -> (name: &str)
        ensures
            name@ == self@,
    {
        self.index.as_str()
    }
}

impl From<String> for Index {
    fn from(s: String) -> (index: Self)
        ensures
            index@ == s@,
    {
        Self { index: s }
    }
}

impl vstd::std_specs::convert::FromSpecImpl<String> for Index {
    open spec fn obeys_from_spec() -> bool {
        true
    }

    closed spec fn from_spec(s: String) -> Self {
        Index { index: s }
    }
}

impl From<&str> for Index {
    fn from(s: &str) -> (index: Self)
        ensures
            index@ == s@,
    {
        Self { index: s.to_owned() }
    }
}

impl vstd::std_specs::convert::FromSpecImpl<&str> for Index {
    /// Two strings of the same characters are not known to be the same value,
    /// so `from` is described by its own contract, through the view.
    open spec fn obeys_from_spec() -> bool {
        false
    }

    closed spec fn from_spec(s: &str) -> Self {
        arbitrary()
    }
}

/// The settings of an index.
///
/// A field that is `None` is one that the caller says nothing about; the
/// other fields are always there, zero or empty where nothing was set.
#[derive(Debug)]
pub struct AlgoliaIndexSetting {
    pub min_word_size_for_1_typo: u32,
    pub min_word_size_for_2_typos: u32,
    pub hits_per_page: u32,
    pub max_values_per_facet: u32,
    pub version: u32,
    pub searchable_attributes: Option<Vec<String>>,
    pub numeric_attributes_to_index: Option<Vec<String>>,
    pub attributes_to_retrieve: Option<Vec<String>>,
    pub unretrievable_attributes: Option<Vec<String>>,
    pub optional_words: Option<Vec<String>>,
    pub attributes_for_faceting: Option<Vec<String>>,
    pub attributes_to_snippet: Option<Vec<String>>,
    pub attributes_to_highlight: Option<Vec<String>>,
    pub pagination_limited_to: u32,
    pub attribute_for_distinct: Option<String>,
    pub exact_on_single_word_query: String,
    pub ranking: Vec<String>,
    pub custom_ranking: Option<Vec<String>>,
    pub separators_to_index: String,
    pub remove_words_if_no_results: String,
    pub query_type: String,
    pub highlight_pre_tag: String,
    pub highlight_post_tag: String,
    pub alternatives_as_exact: Vec<String>,
}

impl AlgoliaIndexSetting {
    /// Whether these are the settings in which nothing is set: every number
    /// zero, every text and list empty, every optional field absent.
    pub open spec fn is_unset(&self) -> bool {
        &&& self.min_word_size_for_1_typo == 0
        &&& self.min_word_size_for_2_typos == 0
        &&& self.hits_per_page == 0
        &&& self.max_values_per_facet == 0
        &&& self.version == 0
        &&& self.searchable_attributes is None
        &&& self.numeric_attributes_to_index is None
        &&& self.attributes_to_retrieve is None
        &&& self.unretrievable_attributes is None
        &&& self.optional_words is None
        &&& self.attributes_for_faceting is None
        &&& self.attributes_to_snippet is None
        &&& self.attributes_to_highlight is None
        &&& self.pagination_limited_to == 0
        &&& self.attribute_for_distinct is None
        &&& self.exact_on_single_word_query@.len() == 0
        &&& self.ranking@.len() == 0
        &&& self.custom_ranking is None
        &&& self.separators_to_index@.len() == 0
        &&& self.remove_words_if_no_results@.len() == 0
        &&& self.query_type@.len() == 0
        &&& self.highlight_pre_tag@.len() == 0
        &&& self.highlight_post_tag@.len() == 0
        &&& self.alternatives_as_exact@.len() == 0
    }
}

impl Default for AlgoliaIndexSetting {
    /// The settings in which nothing is set.
    fn default() -> (setting: Self)
        ensures
            setting.is_unset(),
    {
        Self {
            min_word_size_for_1_typo: 0,
            min_word_size_for_2_typos: 0,
            hits_per_page: 0,
            max_values_per_facet: 0,
            version: 0,
            searchable_attributes: None,
            numeric_attributes_to_index: None,
            attributes_to_retrieve: None,
            unretrievable_attributes: None,
            optional_words: None,
            attributes_for_faceting: None,
            attributes_to_snippet: None,
            attributes_to_highlight: None,
            pagination_limited_to: 0,
            attribute_for_distinct: None,
            exact_on_single_word_query: String::new(),
            ranking: Vec::new(),
            custom_ranking: None,
            separators_to_index: String::new(),
            remove_words_if_no_results: String::new(),
            query_type: String::new(),
            highlight_pre_tag: String::new(),
            highlight_post_tag: String::new(),
            alternatives_as_exact: Vec::new(),
        }
    }
}

/// The object id of a document, standing for the document where only its
/// identity matters, as in a deletion.
pub struct ObjectId {
    obj_id: String,
}

impl View for ObjectId {
    type V = Seq<char>;

    closed spec fn view(&self) -> Seq<char> {
        self.obj_id@
    }
}

impl From<String> for ObjectId {
    fn from(s: String) -> (id: Self)
        ensures
            id@ == s@,
    {
        Self { obj_id: s }
    }
}

impl vstd::std_specs::convert::FromSpecImpl<String> for ObjectId {
    open spec fn obeys_from_spec() -> bool {
        true
    }

    closed spec fn from_spec(s: String) -> Self {
        ObjectId { obj_id: s }
    }
}

impl From<&str> for ObjectId {
    fn from(s: &str) -> (id: Self)
        ensures
            id@ == s@,
    {
        Self { obj_id: s.to_owned() }
    }
}

impl vstd::std_specs::convert::FromSpecImpl<&str> for ObjectId {
    /// Two strings of the same characters are not known to be the same value,
    /// so `from` is described by its own contract, through the view.
    open spec fn obeys_from_spec() -> bool {
        false
    }

    closed spec fn from_spec(s: &str) -> Self {
        arbitrary()
    }
}

impl AlgoliaObject for ObjectId {
    fn get_object_id(&self) -> (id: String)
        ensures
            id@ == self@,
    {
        self.obj_id.clone()
    }
}

/// The credentials of a caller, and with them everything that decides what
/// is sent on the caller's behalf.
///
/// The credentials are set once, when the client is made, and are read only
/// to make a request. The debug rendering shows none of their characters.
#[derive(Debug)]
pub struct Client {
    api_key: SecretText,
    application_id: SecretText,
}

/// The mathematical content of a [`Client`].
pub struct ClientView {
    pub api_key: Seq<char>,
    pub application_id: Seq<char>,
}

impl View for Client {
    type V = ClientView;

    closed spec fn view(&self) -> ClientView {
        ClientView {
            api_key: secret_text(self.api_key),
            application_id: secret_text(self.application_id),
        }
    }
}

/// The view of a result that holds a request or an error.
pub open spec fn request_result_view(r: Result<Request, EasyAlgoliaError>) -> Result<
    RequestView,
    ErrorView,
> {
    match r {
        Ok(request) => Ok(request@),
        Err(e) => Err(e@),
    }
}

impl Client {
    pub(crate) fn new(api_key: &str, application_id: &str) -> (client: Self)
        ensures
            client@ == (ClientView { api_key: api_key@, application_id: application_id@ }),
    {
        Self { api_key: seal(api_key.to_owned()), application_id: seal(application_id.to_owned()) }
    }

    /// What storing a document with the given object id asks of the service.
    pub open spec fn upsert(self, index: Seq<char>, object_id: Seq<char>) -> RequestView {
        planned(self@.api_key, self@.application_id, resolved(index, object_id), true)
    }

    /// What deleting the document with the given object id asks of the
    /// service, where it can be asked at all.
    pub open spec fn removal(self, index: Seq<char>, object_id: Seq<char>) -> Result<
        RequestView,
        ErrorView,
    > {
        match resolved_delete(index, object_id) {
            Ok(target) => Ok(planned(self@.api_key, self@.application_id, target, false)),
            Err(e) => Err(e),
        }
    }

    /// What reading or replacing the settings of an index asks of the service.
    pub open spec fn settings(self, index: Seq<char>, write: bool) -> RequestView {
        planned(
            self@.api_key,
            self@.application_id,
            TargetView {
                method: if write {
                    Method::Put
                } else {
                    Method::Get
                },
                path: settings_path(index),
            },
            write,
        )
    }

    /// The request that stores a document with the given object id: without
    /// an id the document is created, with an id it is put under that id. The
    /// document goes along as the body.
    pub fn upsert_request(&self, index: &Index, object_id: &str) -> (request: Request)
        ensures
            request@ == self.upsert(index@, object_id@),
    {
        plan(expose(&self.api_key), expose(&self.application_id), resolve(index, object_id), true)
    }

    /// The request that stores a document, by the object id that the document
    /// gives.
    pub fn put_document_request<T: AlgoliaObject>(&self, index: &Index, document: &T) -> (request:
        Request)
        ensures
            exists|id: String| #[trigger]
                call_ensures(T::get_object_id, (document,), id) && request@ == self.upsert(
                    index@,
                    id@,
                ),
    {
        let id = document.get_object_id();
        self.upsert_request(index, id.as_str())
    }

    /// The request that deletes the document with the given object id.
    /// Without an id there is nothing to send: the result is a client error.
    pub fn delete_request(&self, index: &Index, object_id: &str) -> (request: Result<
        Request,
        EasyAlgoliaError,
    >)
        ensures
            request_result_view(request) == self.removal(index@, object_id@),
    {
        match resolve_delete(index, object_id) {
            Ok(target) => Ok(
                plan(expose(&self.api_key), expose(&self.application_id), target, false),
            ),
            Err(e) => Err(e),
        }
    }

    /// The request that deletes a document, by the object id that the
    /// document gives.
    pub fn delete_document_request<T: AlgoliaObject>(&self, index: &Index, document: T) -> (request:
        Result<Request, EasyAlgoliaError>)
        ensures
            exists|id: String| #[trigger]
                call_ensures(T::get_object_id, (&document,), id) && request_result_view(request)
                    == self.removal(index@, id@),
    {
        let id = document.get_object_id();
        self.delete_request(index, id.as_str())
    }

    /// The request that reads the settings of an index.
    pub fn get_index_setting_request(&self, index: &Index) -> (request: Request)
        ensures
            request@ == self.settings(index@, false),
    {
        plan(
            expose(&self.api_key),
            expose(&self.application_id),
            resolve_settings(index, false),
            false,
        )
    }

    /// The request that replaces the settings of an index; the new settings
    /// go along as the body.
    pub fn update_index_setting_request(&self, index: &Index) -> (request: Request)
        ensures
            request@ == self.settings(index@, true),
    {
        plan(
            expose(&self.api_key),
            expose(&self.application_id),
            resolve_settings(index, true),
            true,
        )
    }
}

/// Storing a document under the same object id twice asks the same of the
/// service both times: whatever two calls of [`Client::upsert_request`]
/// return for one client, one index and one id has the same method, address,
/// headers and body flag.
pub proof fn lemma_upsert_is_repeatable(
    client: Client,
    index: Seq<char>,
    object_id: Seq<char>,
    first: Request,
    second: Request,
)
    requires
        first@ == client.upsert(index, object_id),
        second@ == client.upsert(index, object_id),
    ensures
        first@ == second@,
{
}

/// Deleting a document without an object id fails as a client error, for
/// every client and every index, and no request comes of it: there is
/// nothing that could be sent.
pub proof fn lemma_delete_without_identity_sends_nothing(client: Client, index: Seq<char>)
    ensures
        client.removal(index, Seq::empty()) matches Err(e) && e.kind == ErrorKind::ClientError,
{
}

/// Deleting a document with an object id addresses that document.
pub proof fn lemma_delete_with_identity_is_sent(
    client: Client,
    index: Seq<char>,
    object_id: Seq<char>,
)
    requires
        object_id.len() > 0,
    ensures
        client.removal(index, object_id) matches Ok(request) && request.method == Method::Delete
            && request.url == endpoint(client@.application_id, item_path(index, object_id)),
{
}

} // verus!
