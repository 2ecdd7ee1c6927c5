//! The two requests that a run makes of the remote service.

use vstd::prelude::*;

verus! {

/// Where the caller's repositories are listed: one page of up to a hundred.
pub const LIST_URL: &'static str = "https://api.github.com/user/repos?per_page=100";

/// The address under which each repository is found by owner and name.
pub const REPOSITORY_URL: &'static str = "https://api.github.com/repos/";

/// How every request names its sender.
pub const USER_AGENT: &'static str = "rust";

/// The status that confirms a rename.
pub const STATUS_OK: u16 = 200;

/// A repository as the remote service lists it and as an update describes it:
/// a name, which the service never leaves empty.
#[derive(Debug, PartialEq, Eq)]
pub struct Repo {
    pub name: String,
}

impl View for Repo {
    type V = Seq<char>;

    open spec fn view(&self) -> Seq<char> {
        self.name@
    }
}

impl Clone for Repo {
    fn clone(&self) -> (copy: Repo)
        ensures
            copy@ == self@,
    {
        Repo { name: self.name.clone() }
    }
}

/// The names of a list of repositories, in order.
pub open spec fn names(repos: Seq<Repo>) -> Seq<Seq<char>> {
    repos.map_values(|repo: Repo| repo@)
}

/// What a request asks the service to do.
#[derive(Debug, PartialEq, Eq, Clone, Copy, Structural)]
pub enum Method {
    Get,
    Patch,
}

/// A request, ready to be sent: the two headers it carries and, for an
/// update, the repository record to encode as its body.
#[derive(Debug, PartialEq, Eq)]
pub struct Request {
    pub method: Method,
    pub url: String,
    pub user_agent: String,
    pub authorization: String,
    pub body: Option<Repo>,
}

/// A `Request` with its text as sequences of characters.
#[verifier::ext_equal]
pub struct RequestView {
    pub method: Method,
    pub url: Seq<char>,
    pub user_agent: Seq<char>,
    pub authorization: Seq<char>,
    pub body: Option<Seq<char>>,
}

impl View for Request {
    type V = RequestView;

    open spec fn view(&self) -> RequestView {
        RequestView {
            method: self.method,
            url: self.url@,
            user_agent: self.user_agent@,
            authorization: self.authorization@,
            body: match self.body {
                Some(repo) => Some(repo@),
                None => None,
            },
        }
    }
}

impl Clone for Request {
    fn clone(&self) -> (copy: Request)
        ensures
            copy@ == self@,
    {
        Request {
            method: self.method,
            url: self.url.clone(),
            user_agent: self.user_agent.clone(),
            authorization: self.authorization.clone(),
            body: match &self.body {
                Some(repo) => Some(repo.clone()),
                None => None,
            },
        }
    }
}

/// The value of the header that presents `token` as a bearer credential.
pub open spec fn bearer(token: Seq<char>) -> Seq<char> {
    "Bearer "@ + token
}

/// The request that lists the repositories of whoever `token` belongs to.
pub open spec fn listing(token: Seq<char>) -> RequestView {
    RequestView {
        method: Method::Get,
        url: LIST_URL@,
        user_agent: USER_AGENT@,
        authorization: bearer(token),
        body: None,
    }
}

/// The request that gives the repository `name` of `username` the name
/// `new_name`. Its body carries the new name and nothing else.
pub open spec fn renaming(
    username: Seq<char>,
    name: Seq<char>,
    new_name: Seq<char>,
    token: Seq<char>,
) -> RequestView {
    RequestView {
        method: Method::Patch,
        url: REPOSITORY_URL@ + username + "/"@ + name,
        user_agent: USER_AGENT@,
        authorization: bearer(token),
        body: Some(new_name),
    }
}

/// Whether a status reports success: the range from 200 to 299.
pub open spec fn succeeded(status: u16) -> bool {
    200 <= status <= 299
}

/// Builds the header value that presents `token`.
pub fn authorization(token: &str) -> (value: String)
    ensures
        value@ == bearer(token@),
{
    let mut value = String::from_str("Bearer ");
    value.append(token);
    value
}

/// Builds the listing request.
pub fn list_request(token: &str) -> (request: Request)
    ensures
        request@ == listing(token@),
{
    Request {
        method: Method::Get,
        url: String::from_str(LIST_URL),
        user_agent: String::from_str(USER_AGENT),
        authorization: authorization(token),
        body: None,
    }
}

/// Builds the request that renames one repository.
pub fn rename_request(username: &str, name: &str, new_name: &str, token: &str) -> (request:
    Request)
    ensures
        request@ == renaming(username@, name@, new_name@, token@),
{
    let mut url = String::from_str(REPOSITORY_URL);
    url.append(username);
    url.append("/");
    url.append(name);
    Request {
        method: Method::Patch,
        url,
        user_agent: String::from_str(USER_AGENT),
        authorization: authorization(token),
        body: Some(Repo { name: String::from_str(new_name) }),
    }
}

/// Whether `status` reports success.
pub fn is_success(status: u16) -> (success: bool)
    ensures
        success == succeeded(status),
{
    200 <= status && status <= 299
}

} // verus!
