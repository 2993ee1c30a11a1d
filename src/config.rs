use vstd::prelude::*;
use vstd::std_specs::cmp::PartialEqSpec;

verus! {

/// The client identifier and secret that authenticate each request.
#[derive(Debug, Clone)]
pub struct NaverAuth {
    pub client_id: String,
    pub client_secret: String,
}

impl NaverAuth {
    /// Credentials made of copies of the two strings.
    pub fn new<'a>(client_id: &'a str, client_secret: &'a str) -> (r: NaverAuth)
        ensures
            r.client_id@ == client_id@,
            r.client_secret@ == client_secret@,
    {
        NaverAuth { client_id: client_id.to_owned(), client_secret: client_secret.to_owned() }
    }
}

impl PartialEq for NaverAuth {
    fn eq(&self, other: &NaverAuth) -> (r: bool) {
        self.client_id == other.client_id && self.client_secret == other.client_secret
    }
}

impl vstd::std_specs::cmp::PartialEqSpecImpl for NaverAuth {
    open spec fn obeys_eq_spec() -> bool {
        true
    }

    open spec fn eq_spec(&self, other: &NaverAuth) -> bool {
        self.client_id@ == other.client_id@ && self.client_secret@ == other.client_secret@
    }
}

/// Two credentials made by `new` are equal exactly when both pairs of strings are.
pub proof fn lemma_auth_eq(a: NaverAuth, b: NaverAuth, id_a: &str, secret_a: &str, id_b: &str, secret_b: &str)
    requires
        a.client_id@ == id_a@,
        a.client_secret@ == secret_a@,
        b.client_id@ == id_b@,
        b.client_secret@ == secret_b@,
    ensures
        a.eq_spec(&b) <==> (id_a@ == id_b@ && secret_a@ == secret_b@),
{
}

/// Which credential is missing.
#[derive(Debug, Clone, Copy, PartialEq, Eq, Structural)]
pub enum NaverAuthError {
    NoClientId,
    NoClientSecret,
}

/// Credentials from the two values looked up by name; the identifier is looked at
/// first, so with both missing the error is `NoClientId`.
pub fn auth_from_values(client_id: Option<String>, client_secret: Option<String>) -> (r: Result<
    NaverAuth,
    NaverAuthError,
>)
    ensures
        client_id is None ==> r == Err::<NaverAuth, NaverAuthError>(NaverAuthError::NoClientId),
        client_id is Some && client_secret is None ==> r == Err::<NaverAuth, NaverAuthError>(
            NaverAuthError::NoClientSecret,
        ),
        client_id is Some && client_secret is Some ==> (r matches Ok(a) && a.client_id
            == client_id->Some_0 && a.client_secret == client_secret->Some_0),
{
    match client_id {
        None => Err(NaverAuthError::NoClientId),
        Some(id) => match client_secret {
            None => Err(NaverAuthError::NoClientSecret),
            Some(secret) => Ok(NaverAuth { client_id: id, client_secret: secret }),
        },
    }
}

} // verus!
