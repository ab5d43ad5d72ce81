//! A GitHub App's credentials: identifiers, secrets and private key.

use vstd::prelude::*;

verus! {

/// Mathematical view of [`App`]: every field as a plain value.
pub struct AppView {
    /// The unique identifier for the app
    pub id: u64,
    /// The unique name for the app
    pub name: Seq<char>,
    /// The client ID for the app
    pub client_id: Seq<char>,
    /// The client secret for the app
    pub client_secret: Seq<char>,
    /// The webhook secret for the app, if one was issued
    pub webhook_secret: Option<Seq<char>>,
    /// The PEM-encoded private key for the app
    pub pem: Seq<char>,
}

/// A GitHub App's credentials and private key.
///
/// Issued once per successful exchange of a one-time code; immutable
/// thereafter.
pub struct App {
    /// The unique identifier for the app
    id: u64,
    /// The unique name for the app
    name: String,
    /// The client ID for the app
    client_id: String,
    /// The client secret for the app
    client_secret: String,
    /// The webhook secret for the app, if one was issued
    webhook_secret: Option<String>,
    /// The PEM-encoded private key for the app
    pem: String,
}

impl View for App {
    type V = AppView;

    closed spec fn view(&self) -> AppView {
        AppView {
            id: self.id,
            name: self.name@,
            client_id: self.client_id@,
            client_secret: self.client_secret@,
            webhook_secret: match self.webhook_secret {
                Some(ref s) => Some(s@),
                None => None,
            },
            pem: self.pem@,
        }
    }
}

impl App {
    /// Assemble credentials from their parts.
    pub fn new(
        id: u64,
        name: String,
        client_id: String,
        client_secret: String,
        webhook_secret: Option<String>,
        pem: String,
    ) -> (r: App)
        ensures
            r@.id == id,
            r@.name == name@,
            r@.client_id == client_id@,
            r@.client_secret == client_secret@,
            r@.webhook_secret == match webhook_secret {
                Some(ref s) => Some(s@),
                None => None::<Seq<char>>,
            },
            r@.pem == pem@,
    {
        App { id, name, client_id, client_secret, webhook_secret, pem }
    }

    /// The unique identifier for the app.
    pub fn id(&self) -> (r: u64)
        ensures
            r == self@.id,
    {
        self.id
    }

    /// The unique name for the app.
    pub fn name(&self) -> (r: &String)
        ensures
            r@ == self@.name,
    {
        &self.name
    }

    /// The client ID for the app.
    pub fn client_id(&self) -> (r: &String)
        ensures
            r@ == self@.client_id,
    {
        &self.client_id
    }

    /// The client secret for the app.
    pub fn client_secret(&self) -> (r: &String)
        ensures
            r@ == self@.client_secret,
    {
        &self.client_secret
    }

    /// The webhook secret for the app, if one was issued.
    pub fn webhook_secret(&self) -> (r: &Option<String>)
        ensures
            r is Some <==> self@.webhook_secret is Some,
            r matches Some(s) ==> self@.webhook_secret == Some(s@),
    {
        &self.webhook_secret
    }

    /// The PEM-encoded private key for the app.
    pub fn pem(&self) -> (r: &String)
        ensures
            r@ == self@.pem,
    {
        &self.pem
    }
}

} // verus!
