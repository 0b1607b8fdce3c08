//! The legacy, cookie-session client: a credential pair that becomes a
//! session holder after a successful login.
//!
//! The legacy backend speaks the form-encoded sign-in protocol: the
//! credentials go out as a form body with redirects disabled, and the
//! session comes back as a `_social_session` cookie in the response's
//! `Set-Cookie` headers. A `200 OK` from the sign-in endpoint means the
//! credentials were rejected (the expected answer is a `302` redirect).
use vstd::prelude::*;
use vstd::string::StringExecFns;
use crate::api;
use crate::error::PocketcastError;
use crate::http::is_success_status;
use crate::http::list_result_view;
use crate::http::session_cookie_header;
use crate::http::spec_session_cookie_header;
use crate::http::HttpMethod;
use crate::http::RequestPlan;
use crate::podcast::DiscoverPodcast;
use crate::podcast::Podcast;
use crate::responses::spec_discover_result;
use crate::responses::spec_subscriptions_result;
use crate::responses::DiscoverResponse;
use crate::responses::SubscriptionsResponse;
use crate::session::find_session;
use crate::session::spec_find_session;

verus! {

/// A user of the legacy backend: a credential pair, and the session
/// issued by the last successful login, if any. Until a login has
/// succeeded the session is unset and every authenticated operation
/// refuses to run.
#[derive(Clone, Debug)]
pub struct PocketcastUser {
    pub email: String,
    pub password: String,
    pub session: Option<String>,
}

/// What a legacy login response means: a `200` is a credential
/// rejection, anything but the expected `302` redirect an
/// `HttpStatusError`, and a redirect without an extractable session
/// cookie a `MissingSession`; otherwise the session value is issued.
pub open spec fn spec_user_login_result(status: u16, headers: Seq<Seq<char>>) -> Result<
    Seq<char>,
    PocketcastError,
> {
    if status == 200 {
        Err(PocketcastError::InvalidCredentials)
    } else if status != 302 {
        Err(PocketcastError::HttpStatusError(status))
    } else {
        match spec_find_session(headers) {
            None => Err(PocketcastError::MissingSession),
            Some(v) => Ok(v),
        }
    }
}

/// What an authenticated subscriptions call means for a user: with no
/// session it fails as `NoSession` before anything is dispatched; with
/// a session it is the ordinary subscriptions response mapping.
pub open spec fn spec_user_subscriptions_result(
    u: PocketcastUser,
    status: u16,
    body: Option<SubscriptionsResponse>,
) -> Result<Seq<Podcast>, PocketcastError> {
    match u.session {
        None => Err(PocketcastError::NoSession),
        Some(_) => spec_subscriptions_result(status, body),
    }
}

impl PocketcastUser {
    /// A user that has not logged in yet: credentials stored, no
    /// session.
    pub fn new(email: String, password: String) -> (u: PocketcastUser)
        ensures
            u.email@ == email@,
            u.password@ == password@,
            u.session is None,
    {
        PocketcastUser { email, password, session: None }
    }

    /// The form body of the sign-in request: the credential pair under
    /// the legacy field names.
    pub fn login_form(&self) -> (r: Vec<(String, String)>)
        ensures
            r@.len() == 2,
            r@[0].0@ == "[user]email"@,
            r@[0].1@ == self.email@,
            r@[1].0@ == "[user]password"@,
            r@[1].1@ == self.password@,
    {
        let mut r: Vec<(String, String)> = Vec::new();
        r.push((String::from_str("[user]email"), self.email.clone()));
        r.push((String::from_str("[user]password"), self.password.clone()));
        r
    }

    /// The outbound request of `login`: a POST of the form body to the
    /// legacy sign-in endpoint, with redirects disabled on the
    /// transport.
    pub fn login_request(&self) -> (r: RequestPlan)
        ensures
            r.method is Post,
            r.url@ == api::spec_legacy_login_uri(),
            r.authorization is None,
            r.cookie is None,
            r.follow_redirects == false,
    {
        RequestPlan {
            method: HttpMethod::Post,
            url: String::from_str(api::legacy_login_uri()),
            authorization: None,
            cookie: None,
            follow_redirects: false,
        }
    }

    /// Maps the sign-in response to a session, as
    /// [`spec_user_login_result`] states: on success the extracted
    /// session value is stored, on any failure the matching error comes
    /// back and the stored session — unset, for a user that never
    /// logged in — is left untouched.
    pub fn login(&mut self, status: u16, set_cookie_headers: &Vec<String>) -> (r: Result<
        (),
        PocketcastError,
    >)
        ensures
            final(self).email@ == old(self).email@,
            final(self).password@ == old(self).password@,
            match spec_user_login_result(
                status,
                set_cookie_headers@.map_values(|h: String| h@),
            ) {
                Ok(v) => r == Ok::<(), PocketcastError>(()) && (final(self).session matches Some(
                    s,
                ) && s@ == v),
                Err(e) => r == Err::<(), PocketcastError>(e) && final(self).session == old(
                    self,
                ).session,
            },
    {
        if status == 200 {
            return Err(PocketcastError::InvalidCredentials);
        }
        if status != 302 {
            return Err(PocketcastError::HttpStatusError(status));
        }
        match find_session(set_cookie_headers) {
            None => Err(PocketcastError::MissingSession),
            Some(v) => {
                self.session = Some(v);
                Ok(())
            },
        }
    }

    /// The outbound request of `get_subscriptions`: a POST carrying the
    /// session cookie — or `NoSession`, before any dispatch, for a user
    /// that never logged in.
    pub fn subscriptions_request(&self) -> (r: Result<RequestPlan, PocketcastError>)
        ensures
            self.session is None ==> r == Err::<RequestPlan, _>(PocketcastError::NoSession),
            self.session matches Some(s) ==> r matches Ok(p) && p.method is Post && p.url@
                == api::spec_legacy_get_subscriptions_uri() && p.authorization is None && (
            p.cookie matches Some(c) && c@ == spec_session_cookie_header(s@))
                && p.follow_redirects == true,
    {
        match &self.session {
            None => Err(PocketcastError::NoSession),
            Some(s) => Ok(
                RequestPlan {
                    method: HttpMethod::Post,
                    url: String::from_str(api::legacy_get_subscriptions_uri()),
                    authorization: None,
                    cookie: Some(session_cookie_header(s.as_str())),
                    follow_redirects: true,
                },
            ),
        }
    }

    /// Maps the subscriptions response for this user, as
    /// [`spec_user_subscriptions_result`] states: `NoSession` without a
    /// prior successful login, the ordinary response mapping otherwise.
    pub fn get_subscriptions(&self, status: u16, body: Option<SubscriptionsResponse>) -> (r: Result<
        Vec<Podcast>,
        PocketcastError,
    >)
        ensures
            list_result_view(r) == spec_user_subscriptions_result(*self, status, body),
    {
        match &self.session {
            None => Err(PocketcastError::NoSession),
            Some(_) => {
                if !is_success_status(status) {
                    Err(PocketcastError::HttpStatusError(status))
                } else {
                    match body {
                        None => Err(PocketcastError::ParseError),
                        Some(b) => Ok(b.podcasts),
                    }
                }
            },
        }
    }

    /// Maps a discovery feed's response, as [`spec_discover_result`]
    /// states. The discovery feeds are unauthenticated: no session is
    /// needed.
    pub fn get_discover(&self, status: u16, body: Option<DiscoverResponse>) -> (r: Result<
        Vec<DiscoverPodcast>,
        PocketcastError,
    >)
        ensures
            list_result_view(r) == spec_discover_result(status, body),
    {
        crate::client::PocketcastClient::get_discover(status, body)
    }

    /// Maps the top-charts feed's response, as [`spec_discover_result`]
    /// states.
    pub fn get_top_charts(&self, status: u16, body: Option<DiscoverResponse>) -> (r: Result<
        Vec<DiscoverPodcast>,
        PocketcastError,
    >)
        ensures
            list_result_view(r) == spec_discover_result(status, body),
    {
        self.get_discover(status, body)
    }

    /// Maps the featured feed's response, as [`spec_discover_result`]
    /// states.
    pub fn get_featured(&self, status: u16, body: Option<DiscoverResponse>) -> (r: Result<
        Vec<DiscoverPodcast>,
        PocketcastError,
    >)
        ensures
            list_result_view(r) == spec_discover_result(status, body),
    {
        self.get_discover(status, body)
    }

    /// Maps the trending feed's response, as [`spec_discover_result`]
    /// states.
    pub fn get_trending(&self, status: u16, body: Option<DiscoverResponse>) -> (r: Result<
        Vec<DiscoverPodcast>,
        PocketcastError,
    >)
        ensures
            list_result_view(r) == spec_discover_result(status, body),
    {
        self.get_discover(status, body)
    }
}

/// Every failing legacy login yields the matching error variant —
/// `InvalidCredentials` for the `200` that stands for a credential
/// rejection, `HttpStatusError` for any other status but the expected
/// redirect, `MissingSession` for a redirect without an extractable
/// session cookie — and a login fails exactly when the response is not
/// a redirect carrying a session cookie. Together with `login`'s
/// contract, a failing login leaves the stored session untouched: a
/// user that never logged in stays sessionless.
pub proof fn lemma_failed_login_variants(status: u16, headers: Seq<Seq<char>>)
    ensures
        status == 200 ==> spec_user_login_result(status, headers) == Err::<Seq<char>, _>(
            PocketcastError::InvalidCredentials,
        ),
        status != 200 && status != 302 ==> spec_user_login_result(status, headers) == Err::<
            Seq<char>,
            _,
        >(PocketcastError::HttpStatusError(status)),
        status == 302 && spec_find_session(headers) is None ==> spec_user_login_result(
            status,
            headers,
        ) == Err::<Seq<char>, _>(PocketcastError::MissingSession),
        spec_user_login_result(status, headers) is Err <==> !(status == 302 && spec_find_session(
            headers,
        ) is Some),
{
}

/// An authenticated operation issued before a successful login fails
/// with `NoSession`, whatever response is supplied: the response
/// mapping refuses, and `subscriptions_request`'s contract refuses the
/// dispatch itself.
pub proof fn lemma_no_session_fails(
    u: PocketcastUser,
    status: u16,
    body: Option<SubscriptionsResponse>,
)
    requires
        u.session is None,
    ensures
        spec_user_subscriptions_result(u, status, body) == Err::<Seq<Podcast>, _>(
            PocketcastError::NoSession,
        ),
{
}

} // verus!
