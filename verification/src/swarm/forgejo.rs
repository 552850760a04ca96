//! The Forgejo server's API: its records, where each endpoint is, how a
//! request is authorized, and what a failed answer means.

use vstd::prelude::*;
use crate::models::Error;
use crate::swarm::tool_manager::{json_quoted, json_string};
use crate::text::{concat2, concat3, push_str, string_of};

verus! {

/// An organization on the Forgejo server.
pub struct Organization {
    pub id: i64,
    pub name: String,
    pub username: String,
    pub full_name: String,
    pub description: String,
    pub avatar_url: String,
    pub website: String,
    pub location: String,
    pub email: String,
    pub visibility: String,
    pub repo_admin_change_team_access: bool,
}

/// A member of an organization.
pub struct OrgMember {
    pub id: i64,
    pub login: String,
    pub full_name: String,
    pub email: String,
    pub avatar_url: String,
}

/// The owner of a repository.
pub struct Owner {
    pub id: i64,
    pub login: String,
    pub full_name: String,
    pub email: String,
    pub avatar_url: String,
}

/// A repository on the Forgejo server.
pub struct Repository {
    pub id: i64,
    pub name: String,
    pub full_name: String,
    pub owner: Owner,
    pub description: String,
    pub private: bool,
    pub fork: bool,
    pub html_url: String,
    pub ssh_url: String,
    pub clone_url: String,
    pub stars_count: i64,
    pub watchers_count: i64,
    pub forks_count: i64,
    pub open_issues_count: i64,
    pub default_branch: String,
    pub created_at: String,
    pub updated_at: String,
}

/// A user of the Forgejo server.
pub struct UserInfo {
    pub login: String,
    pub email: String,
}

impl Organization {
    /// The name the organization logs in with: its user name.
    pub fn login(&self) -> (l: &str)
        ensures
            l@ == self.username@,
    {
        self.username.as_str()
    }
}

/// The Forgejo server at `base_url`, reached with `token`.
pub struct ForgejoClient {
    pub base_url: String,
    pub token: String,
}

/// The text of an HTTP status, as `http::StatusCode` displays it.
pub uninterp spec fn status_text_of(code: u16) -> Seq<char>;

/// How `http::StatusCode` displays status `code`: the number and its
/// canonical reason; the text is named by `status_text_of`.
#[verifier::external_body]
fn status_text(code: u16) -> (s: String)
    requires
        100 <= code <= 999,
    ensures
        s@ == status_text_of(code),
{
    match reqwest::StatusCode::from_u16(code) {
        Ok(st) => st.to_string(),
        Err(_) => code.to_string(),
    }
}

/// Why an API call `action` failed with status `code` and answer `body`:
/// `Failed to <action>: <status> - <body>`.
pub open spec fn failure_message(action: Seq<char>, code: u16, body: Seq<char>) -> Seq<char> {
    "Failed to "@ + action + ": "@ + status_text_of(code) + " - "@ + body
}

/// What an answer with status `code` and `body` to API call `action` comes
/// to: success for a 2xx status, and, where `missing_is_fine`, for 404
/// too; otherwise the failure.
pub fn check_status(action: &str, code: u16, body: &str, missing_is_fine: bool) -> (r: Result<(), Error>)
    requires
        100 <= code <= 999,
    ensures
        (200 <= code <= 299 || (missing_is_fine && code == 404)) ==> r is Ok,
        !(200 <= code <= 299 || (missing_is_fine && code == 404)) ==> (r matches Err(Error::Config(m)) && m@
            == failure_message(action@, code, body@)),
{
    if (200 <= code && code <= 299) || (missing_is_fine && code == 404) {
        return Ok(());
    }
    let st = status_text(code);
    let mut v: Vec<char> = Vec::new();
    push_str(&mut v, "Failed to ");
    push_str(&mut v, action);
    push_str(&mut v, ": ");
    push_str(&mut v, st.as_str());
    push_str(&mut v, " - ");
    push_str(&mut v, body);
    Err(Error::Config(string_of(&v)))
}

impl ForgejoClient {
    /// The server at `base_url`, reached with `token`.
    pub fn new(base_url: &str, token: &str) -> (c: ForgejoClient)
        ensures
            c.base_url@ == base_url@,
            c.token@ == token@,
    {
        ForgejoClient { base_url: base_url.to_owned(), token: token.to_owned() }
    }

    /// The URL of API endpoint `path`: the server, `/api/v1`, and the path.
    pub fn url(&self, path: &str) -> (u: String)
        ensures
            u@ == self.base_url@ + "/api/v1"@ + path@,
    {
        concat3(self.base_url.as_str(), "/api/v1", path)
    }

    /// The token requests are made with.
    pub fn token(&self) -> (t: &str)
        ensures
            t@ == self.token@,
    {
        self.token.as_str()
    }

    /// The `Authorization` header of every request: `token <token>`.
    pub fn auth_header(&self) -> (h: String)
        ensures
            h@ == "token "@ + self.token@,
    {
        concat2("token ", self.token.as_str())
    }
}

/// The endpoint of organization `org`: `/orgs/<org>`.
pub fn org_path(org: &str) -> (p: String)
    ensures
        p@ == "/orgs/"@ + org@,
{
    concat2("/orgs/", org)
}

/// The members of organization `org`: `/orgs/<org>/members`.
pub fn org_members_path(org: &str) -> (p: String)
    ensures
        p@ == "/orgs/"@ + org@ + "/members"@,
{
    concat3("/orgs/", org, "/members")
}

/// Member `username` of organization `org`: `/orgs/<org>/members/<username>`.
pub fn org_member_path(org: &str, username: &str) -> (p: String)
    ensures
        p@ == "/orgs/"@ + org@ + "/members/"@ + username@,
{
    let mut p = concat3("/orgs/", org, "/members/");
    p.append(username);
    p
}

/// The repositories of `owner`, or of the token's user where there is none.
pub fn repos_path(owner: Option<&str>) -> (p: String)
    ensures
        match owner {
            Some(o) => p@ == "/users/"@ + o@ + "/repos"@,
            None => p@ == "/user/repos"@,
        },
{
    match owner {
        Some(o) => concat3("/users/", o, "/repos"),
        None => "/user/repos".to_owned(),
    }
}

/// Where a repository is created once its organization answered the
/// creation with `org_status`: under the token's own user (`/user/repos`)
/// when the organization was not found (404), else nowhere further.
pub fn create_repo_fallback(org_status: u16) -> (p: Option<String>)
    ensures
        org_status == 404 ==> (p matches Some(s) && s@ == "/user/repos"@),
        org_status != 404 ==> p is None,
{
    if org_status == 404 {
        Some(repos_path(None))
    } else {
        None
    }
}

/// The body that creates user `username` with `password` and `email`, the
/// password not to be changed at first login.
pub open spec fn create_user_body_of(username: Seq<char>, password: Seq<char>, email: Seq<char>) -> Seq<char> {
    "{\"username\":"@ + json_quoted(username) + ",\"password\":"@ + json_quoted(password) + ",\"email\":"@
        + json_quoted(email) + ",\"must_change_password\":false}"@
}

/// The JSON body of a user creation.
pub fn create_user_body(username: &str, password: &str, email: &str) -> (b: String)
    ensures
        b@ == create_user_body_of(username@, password@, email@),
{
    let mut v: Vec<char> = Vec::new();
    push_str(&mut v, "{\"username\":");
    push_str(&mut v, json_string(username).as_str());
    push_str(&mut v, ",\"password\":");
    push_str(&mut v, json_string(password).as_str());
    push_str(&mut v, ",\"email\":");
    push_str(&mut v, json_string(email).as_str());
    push_str(&mut v, ",\"must_change_password\":false}");
    assert(v@ =~= create_user_body_of(username@, password@, email@));
    string_of(&v)
}

/// The body that creates organization `name`: its name and full name, with
/// an empty description.
pub open spec fn create_org_body_of(name: Seq<char>) -> Seq<char> {
    "{\"username\":"@ + json_quoted(name) + ",\"full_name\":"@ + json_quoted(name) + ",\"description\":\"\"}"@
}

/// The JSON body of an organization creation.
pub fn create_org_body(name: &str) -> (b: String)
    ensures
        b@ == create_org_body_of(name@),
{
    let q = json_string(name);
    let mut v: Vec<char> = Vec::new();
    push_str(&mut v, "{\"username\":");
    push_str(&mut v, q.as_str());
    push_str(&mut v, ",\"full_name\":");
    push_str(&mut v, q.as_str());
    push_str(&mut v, ",\"description\":\"\"}");
    assert(v@ =~= create_org_body_of(name@));
    string_of(&v)
}

/// The body that creates repository `name`: private, initialized, with an
/// empty description.
pub open spec fn create_repo_body_of(name: Seq<char>) -> Seq<char> {
    "{\"name\":"@ + json_quoted(name) + ",\"description\":\"\",\"private\":true,\"auto_init\":true}"@
}

/// The JSON body of a repository creation.
pub fn create_repo_body(name: &str) -> (b: String)
    ensures
        b@ == create_repo_body_of(name@),
{
    let mut v: Vec<char> = Vec::new();
    push_str(&mut v, "{\"name\":");
    push_str(&mut v, json_string(name).as_str());
    push_str(&mut v, ",\"description\":\"\",\"private\":true,\"auto_init\":true}");
    assert(v@ =~= create_repo_body_of(name@));
    string_of(&v)
}

/// The repositories of organization `org`: `/orgs/<org>/repos`.
pub fn org_repos_path(org: &str) -> (p: String)
    ensures
        p@ == "/orgs/"@ + org@ + "/repos"@,
{
    concat3("/orgs/", org, "/repos")
}

/// Repository `repo` of `owner`: `/repos/<owner>/<repo>`.
pub fn repo_path(owner: &str, repo: &str) -> (p: String)
    ensures
        p@ == "/repos/"@ + owner@ + "/"@ + repo@,
{
    let mut p = concat3("/repos/", owner, "/");
    p.append(repo);
    p
}

/// The transfer of repository `repo` of `owner`:
/// `/repos/<owner>/<repo>/transfer`.
pub fn repo_transfer_path(owner: &str, repo: &str) -> (p: String)
    ensures
        p@ == "/repos/"@ + owner@ + "/"@ + repo@ + "/transfer"@,
{
    let mut p = repo_path(owner, repo);
    p.append("/transfer");
    p
}

/// User `username`, as administered: `/admin/users/<username>`.
pub fn admin_user_path(username: &str) -> (p: String)
    ensures
        p@ == "/admin/users/"@ + username@,
{
    concat2("/admin/users/", username)
}

} // verus!
