//! The identity of an application: top-level domain, author and name.
use vstd::prelude::*;

verus! {

/// The reverse-domain bundle identifier that etcetera derives from an
/// application identity (top-level domain, author, application name).
pub uninterp spec fn bundle_id_of(
    top_level_domain: Seq<char>,
    author: Seq<char>,
    app_name: Seq<char>,
) -> Seq<char>;

/// Relies on etcetera's `AppStrategyArgs::bundle_id`: the dot-joined
/// reverse-domain identifier of the application, a function of the three
/// strings alone.
#[verifier::external_body]
fn etcetera_bundle_id(top_level_domain: &String, author: &String, app_name: &String) -> (r: String)
    ensures
        r@ == bundle_id_of(top_level_domain@, author@, app_name@),
{
    let args = etcetera::AppStrategyArgs {
        top_level_domain: top_level_domain.clone(),
        author: author.clone(),
        app_name: app_name.clone(),
    };
    args.bundle_id()
}

/// The application identity as text.
pub struct IdentityView {
    pub top_level_domain: Seq<char>,
    pub author: Seq<char>,
    pub app_name: Seq<char>,
}

/// Who an application is: a top-level domain such as `com`, `org` or
/// `io.github`, the name of its author, and its (capitalised) name.
#[derive(Clone, Debug)]
pub struct AppIdentity {
    pub top_level_domain: String,
    pub author: String,
    pub app_name: String,
}

impl View for AppIdentity {
    type V = IdentityView;

    open spec fn view(&self) -> IdentityView {
        IdentityView {
            top_level_domain: self.top_level_domain@,
            author: self.author@,
            app_name: self.app_name@,
        }
    }
}

impl IdentityView {
    /// The reverse-domain identifier that the Apple convention files the
    /// application under.
    pub open spec fn bundle_id(self) -> Seq<char> {
        bundle_id_of(self.top_level_domain, self.author, self.app_name)
    }
}

impl AppIdentity {
    /// Gathers the three parts of an identity.
    pub fn new(top_level_domain: String, author: String, app_name: String) -> (r: AppIdentity)
        ensures
            r.top_level_domain == top_level_domain,
            r.author == author,
            r.app_name == app_name,
    {
        AppIdentity { top_level_domain, author, app_name }
    }

    /// The reverse-domain identifier of this application, e.g.
    /// `org.acme-corp.Frobnicator-Plus`.
    pub fn bundle_id(&self) -> (r: String)
        ensures
            r@ == self@.bundle_id(),
    {
        etcetera_bundle_id(&self.top_level_domain, &self.author, &self.app_name)
    }
}

} // verus!
