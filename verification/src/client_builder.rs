//! Building a [`Client`] from credentials.

use crate::error::EasyAlgoliaError;
use crate::error::ErrorKind;
use crate::error::ErrorView;
use crate::secret::expose;
use crate::secret::seal;
use crate::secret::secret_text;
use crate::secret::SecretText;
use crate::Client;
use crate::ClientView;
use vstd::prelude::*;

verus! {

/// Collects the two credentials, and makes a [`Client`] once both are there.
#[derive(Debug)]
pub struct ClientBuilder {
    application_id: Option<SecretText>,
    api_key: Option<SecretText>,
}

/// The mathematical content of a [`ClientBuilder`].
pub struct ClientBuilderView {
    pub application_id: Option<Seq<char>>,
    pub api_key: Option<Seq<char>>,
}

/// The text inside an optional secret.
pub open spec fn optional_text(secret: Option<SecretText>) -> Option<Seq<char>> {
    match secret {
        Some(secret) => Some(secret_text(secret)),
        None => None,
    }
}

impl View for ClientBuilder {
    type V = ClientBuilderView;

    closed spec fn view(&self) -> ClientBuilderView {
        ClientBuilderView {
            application_id: optional_text(self.application_id),
            api_key: optional_text(self.api_key),
        }
    }
}

/// The view of a result that holds a client or an error.
pub open spec fn client_result_view(r: Result<Client, EasyAlgoliaError>) -> Result<
    ClientView,
    ErrorView,
> {
    match r {
        Ok(client) => Ok(client@),
        Err(e) => Err(e@),
    }
}

impl ClientBuilderView {
    /// Whether both credentials are set.
    pub open spec fn is_complete(self) -> bool {
        self.application_id is Some && self.api_key is Some
    }

    /// What `build` returns: the client of the two credentials where both are
    /// set, else a builder error.
    pub open spec fn built(self) -> Result<ClientView, ErrorView> {
        if self.is_complete() {
            Ok(ClientView { api_key: self.api_key->0, application_id: self.application_id->0 })
        } else {
            Err(
                ErrorView {
                    kind: ErrorKind::ClientBuilderError,
                    cause: Some(" unable to fetch client id or api key "@),
                },
            )
        }
    }

    /// What `build` leaves behind: it takes the credentials that it uses.
    pub open spec fn after_build(self) -> Self {
        if self.is_complete() {
            ClientBuilderView { application_id: None, api_key: None }
        } else {
            self
        }
    }
}

/// What the environment gives: the application id is looked at first, and
/// the first credential that is missing is named in the error.
pub open spec fn built_from_env(
    application_id: Option<Seq<char>>,
    api_key: Option<Seq<char>>,
) -> Result<ClientView, ErrorView> {
    match application_id {
        None => Err(
            ErrorView {
                kind: ErrorKind::ClientBuilderError,
                cause: Some(
                    "failed to fetch desireed Envviroment variables, ALGOLIA_APPLICATION_ID is not set. "@,
                ),
            },
        ),
        Some(application_id) => match api_key {
            None => Err(
                ErrorView {
                    kind: ErrorKind::ClientBuilderError,
                    cause: Some("unable to load env ,ALGOLIA_API_KEY is not set"@),
                },
            ),
            Some(api_key) => Ok(ClientView { api_key, application_id }),
        },
    }
}

impl ClientBuilder {
    /// A builder with no credential set.
    pub fn new() -> (builder: Self)
        ensures
            builder@ == (ClientBuilderView { application_id: None, api_key: None }),
    {
        Self { application_id: None, api_key: None }
    }

    /// Sets the application id.
    pub fn set_application_id(self, app_id: &str) -> (builder: Self)
        ensures
            builder@ == (ClientBuilderView { application_id: Some(app_id@), ..self@ }),
    {
        let mut builder = self;
        builder.application_id = Some(seal(app_id.to_owned()));
        builder
    }

    /// Sets the API key.
    pub fn set_api_key(self, app_id: &str) -> (builder: Self)
        ensures
            builder@ == (ClientBuilderView { api_key: Some(app_id@), ..self@ }),
    {
        let mut builder = self;
        builder.api_key = Some(seal(app_id.to_owned()));
        builder
    }

    /// Makes the client. With both credentials set, they move into the client
    /// and the builder is left without any; else the builder stays as it is
    /// and the result is a builder error.
    pub fn build(&mut self) -> (client: Result<Client, EasyAlgoliaError>)
        ensures
            client_result_view(client) == old(self)@.built(),
            final(self)@ == old(self)@.after_build(),
    {
        if self.api_key.is_some() && self.application_id.is_some() {
            let api_key = self.api_key.take();
            let application_id = self.application_id.take();
            let api_key = api_key.unwrap();
            let application_id = application_id.unwrap();
            Ok(Client::new(expose(&api_key), expose(&application_id)))
        } else {
            Err(
                EasyAlgoliaError::new(
                    ErrorKind::ClientBuilderError,
                    Some(" unable to fetch client id or api key ".to_owned()),
                ),
            )
        }
    }

    /// Makes the client from what the environment holds for the variables
    /// `ALGOLIA_APPLICATION_ID` and `ALGOLIA_API_KEY`, `None` standing for a
    /// variable that is not set.
    pub fn build_from_env(application_id: Option<String>, api_key: Option<String>) -> (client:
        Result<Client, EasyAlgoliaError>)
        ensures
            client_result_view(client) == built_from_env(
                application_id.deep_view(),
                api_key.deep_view(),
            ),
    {
        let app_id = match application_id {
            Some(app_id) => app_id,
            None => {
                return Err(
                    EasyAlgoliaError::new(
                        ErrorKind::ClientBuilderError,
                        Some(
                            "failed to fetch desireed Envviroment variables, ALGOLIA_APPLICATION_ID is not set. ".to_owned(),
                        ),
                    ),
                );
            },
        };
        let api_key = match api_key {
            Some(api_key) => api_key,
            None => {
                return Err(
                    EasyAlgoliaError::new(
                        ErrorKind::ClientBuilderError,
                        Some("unable to load env ,ALGOLIA_API_KEY is not set".to_owned()),
                    ),
                );
            },
        };
        Ok(Client::new(api_key.as_str(), app_id.as_str()))
    }
}

} // verus!
