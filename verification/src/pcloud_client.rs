use crate::pcloud_model::{ApiServers, LogoutResponse, PCloudResult, UserInfo};
use crate::request::{opt_text, Method, Request, RequestView};
use vstd::prelude::*;
use vstd::string::*;

verus! {

/// What every call needs to know of the connection: the API host to talk to
/// and, for a session opened with user name and password, the session token.
/// (An OAuth token travels as a header of the HTTP client and is not held here.)
#[derive(Debug)]
pub struct PCloudClient {
    /// Host of the API, with scheme, such as `https://eapi.pcloud.com`.
    pub api_host: String,
    /// Session token, sent as `auth` with every call when present.
    pub session_token: Option<String>,
}

impl Clone for PCloudClient {
    fn clone(&self) -> (copy: PCloudClient)
        ensures
            copy == *self,
    {
        let session_token = match &self.session_token {
            Some(token) => Some(token.clone()),
            None => None,
        };
        PCloudClient { api_host: self.api_host.clone(), session_token }
    }
}

/// The host to use after asking for the nearest API server: the first REST
/// endpoint of a successful answer, under `https`, and the host that was
/// asked in every other case.
pub open spec fn spec_best_api_host(servers: ApiServers, host: Seq<char>) -> Seq<char> {
    if servers.result == PCloudResult::Success {
        "https://"@ + servers.api@[0]@
    } else {
        host
    }
}

/// The session token of a login answer: present exactly when the call
/// succeeded and carried one. Everything else counts as a denied login.
pub open spec fn spec_session_token(user_info: UserInfo) -> Result<Seq<char>, PCloudResult> {
    if user_info.result == PCloudResult::Success && user_info.auth is Some {
        Ok(user_info.auth->0@)
    } else {
        Err(PCloudResult::AccessDenied)
    }
}

impl PCloudClient {
    /// A client for `api_host`, with the session token if the session has one.
    pub fn new(api_host: String, session_token: Option<String>) -> (client: PCloudClient)
        ensures
            client == (PCloudClient { api_host, session_token }),
    {
        PCloudClient { api_host, session_token }
    }

    /// The value of the `Authorization` header for an OAuth 2.0 token.
    pub fn with_oauth(oauth2: &str) -> (header: String)
        ensures
            header@ == "Bearer "@ + oauth2@,
    {
        let mut header = String::from_str("Bearer ");
        header.append(oauth2);
        header
    }

    /// The call that opens a session with user name and password.
    pub fn with_username_and_password(username: &str, password: &str) -> (r: Request)
        ensures
            r@ == (RequestView {
                method: Method::Get,
                path: "/userinfo?getauth=1"@,
                query: seq![("username"@, username@), ("password"@, password@)],
                timeout: None,
            }),
    {
        let r = Request::get("/userinfo?getauth=1").text(
            "username",
            String::from_str(username),
        ).text("password", String::from_str(password));
        assert(r@.query =~= seq![("username"@, username@), ("password"@, password@)]);
        r
    }

    /// Reads the session token from the answer to a login.
    pub fn login(user_info: UserInfo) -> (token: Result<String, PCloudResult>)
        ensures
            match token {
                Ok(t) => spec_session_token(user_info) == Ok::<Seq<char>, PCloudResult>(t@),
                Err(e) => spec_session_token(user_info) == Err::<Seq<char>, PCloudResult>(e),
            },
    {
        if user_info.result.is_ok() {
            match user_info.auth {
                Some(token) => Ok(token),
                None => Err(PCloudResult::AccessDenied),
            }
        } else {
            Err(PCloudResult::AccessDenied)
        }
    }

    /// The call that gives up the session token `token`.
    pub fn logout_request(token: &str) -> (r: Request)
        ensures
            r@ == (RequestView {
                method: Method::Get,
                path: "/logout"@,
                query: seq![("auth"@, token@)],
                timeout: None,
            }),
    {
        let r = Request::get("/logout").text("auth", String::from_str(token));
        assert(r@.query =~= seq![("auth"@, token@)]);
        r
    }

    /// Whether the answer to a logout says that the token is gone.
    pub fn logout(response: &LogoutResponse) -> (done: bool)
        ensures
            done == (response.result == PCloudResult::Success && response.auth_deleted == Some(
                true,
            )),
    {
        response.result.is_ok() && match response.auth_deleted {
            Some(deleted) => deleted,
            None => false,
        }
    }

    /// Appends the session token to a call, if this client has one.
    pub fn add_token(&self, r: Request) -> (with_token: Request)
        ensures
            with_token@ == r@.with(opt_text("auth"@, self.session_token.deep_view())),
    {
        r.opt_text("auth", &self.session_token)
    }

    /// The call that asks which API server is nearest.
    pub fn api_server_request(session_token: &Option<String>) -> (r: Request)
        ensures
            r@ == (RequestView {
                method: Method::Get,
                path: "/getapiserver"@,
                query: opt_text("auth"@, session_token.deep_view()),
                timeout: None,
            }),
    {
        let r = Request::get("/getapiserver").opt_text("auth", session_token);
        assert(r@.query =~= opt_text("auth"@, session_token.deep_view()));
        r
    }

    /// Picks the host to use from the answer to `api_server_request`. A
    /// successful answer has to name at least one REST endpoint.
    pub fn get_best_api_server(servers: &ApiServers, host: &str) -> (best: String)
        requires
            servers.result == PCloudResult::Success ==> servers.api@.len() > 0,
        ensures
            best@ == spec_best_api_host(*servers, host@),
    {
        if servers.result.is_ok() {
            let mut best = String::from_str("https://");
            best.append(servers.api[0].as_str());
            best
        } else {
            String::from_str(host)
        }
    }

    /// Picks the host to use from the answer to `api_server_request`, if
    /// the answer is usable: `None` exactly for a successful answer that
    /// names no REST endpoint.
    pub fn best_api_server(servers: &ApiServers, host: &str) -> (best: Option<String>)
        ensures
            match best {
                Some(b) => (servers.result == PCloudResult::Success ==> servers.api@.len() > 0)
                    && b@ == spec_best_api_host(*servers, host@),
                None => servers.result == PCloudResult::Success && servers.api@.len() == 0,
            },
    {
        if servers.result.is_ok() && servers.api.len() == 0 {
            None
        } else {
            Some(PCloudClient::get_best_api_server(servers, host))
        }
    }

    /// The call that asks for the user's account data.
    pub fn get_user_info(&self) -> (r: Request)
        ensures
            r@ == (RequestView {
                method: Method::Get,
                path: "/userinfo"@,
                query: opt_text("auth"@, self.session_token.deep_view()),
                timeout: None,
            }),
    {
        let r = self.add_token(Request::get("/userinfo"));
        assert(r@.query =~= opt_text("auth"@, self.session_token.deep_view()));
        r
    }
}

} // verus!
