//! The form that starts the registration in the user's browser.
//!
//! The form posts the serialized manifest to the platform's "new app" page.
//! Against the public API endpoint the form must go to the public web site;
//! against any other endpoint (an enterprise host, a test double) it goes to
//! that endpoint itself.

use vstd::prelude::*;

use crate::urls::{join_url, spec_url_domain, spec_url_join, url_domain};

verus! {

/// The page the form posts to for a given remote endpoint: the public web
/// site when the endpoint is the public API, the endpoint itself otherwise.
pub open spec fn spec_form_base(github: Seq<char>) -> Seq<char> {
    if spec_url_domain(github) == Some("api.github.com"@) {
        "https://github.com"@
    } else {
        github
    }
}

/// Mathematical view of [`Form`].
pub struct FormView {
    /// The URL the form posts to
    pub form_endpoint: Seq<char>,
    /// The serialized manifest carried by the form
    pub manifest: Seq<char>,
}

/// The form for starting the registration process: where it posts, and the
/// serialized manifest it carries.
pub struct Form {
    /// The URL the form posts to
    form_endpoint: String,
    /// The serialized manifest carried by the form
    manifest: String,
}

impl View for Form {
    type V = FormView;

    closed spec fn view(&self) -> FormView {
        FormView { form_endpoint: self.form_endpoint@, manifest: self.manifest@ }
    }
}

impl Form {
    /// Build the form for a remote endpoint and a serialized manifest.
    ///
    /// The form posts to `/settings/apps/new` on the public web site when the
    /// endpoint is the public API, and on the endpoint's own host otherwise.
    /// Nothing is built when the endpoint is not a usable base URL.
    pub fn new(github: String, manifest: String) -> (r: Option<Form>)
        ensures
            match r {
                Some(f) => spec_url_join(spec_form_base(github@), "/settings/apps/new"@) == Some(
                    f@.form_endpoint,
                ) && f@.manifest == manifest@,
                None => spec_url_join(spec_form_base(github@), "/settings/apps/new"@) is None,
            },
    {
        let domain = url_domain(github.as_str());
        let on_public_api = match &domain {
            Some(d) => crate::text::str_eq(d.as_str(), "api.github.com"),
            None => false,
        };
        let joined = if on_public_api {
            join_url("https://github.com", "/settings/apps/new")
        } else {
            join_url(github.as_str(), "/settings/apps/new")
        };
        match joined {
            Some(endpoint) => Some(Form { form_endpoint: endpoint, manifest }),
            None => None,
        }
    }

    /// The URL the form posts to.
    pub fn form_endpoint(&self) -> (r: &String)
        ensures
            r@ == self@.form_endpoint,
    {
        &self.form_endpoint
    }

    /// The serialized manifest carried by the form.
    pub fn manifest(&self) -> (r: &String)
        ensures
            r@ == self@.manifest,
    {
        &self.manifest
    }
}

} // verus!
