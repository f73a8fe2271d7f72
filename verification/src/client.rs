//! Requests to the repository host and recognition of a readme's format.

use crate::address::{parsed_url, Address, AddressView};
use crate::api::forms::RepositoryResponse;
use crate::error::Error;
use crate::text::joined;
use vstd::prelude::*;
use vstd::string::*;

verus! {

/// `i` is the position of the last `.` of `name`.
pub open spec fn is_last_dot(name: Seq<char>, i: int) -> bool {
    &&& 0 <= i < name.len()
    &&& name[i] == '.'
    &&& forall|j: int| i < j < name.len() ==> name[j] != '.'
}

/// The extension of a file name: what follows its last `.`, if it has one.
pub open spec fn extension_of(name: Seq<char>) -> Option<Seq<char>> {
    if exists|i: int| is_last_dot(name, i) {
        let i = choose|i: int| is_last_dot(name, i);
        Some(name.subrange(i + 1, name.len() as int))
    } else {
        None
    }
}

/// A name with a `.` has the text behind its last `.` as extension.
pub proof fn lemma_extension_at(name: Seq<char>, i: int)
    requires
        is_last_dot(name, i),
    ensures
        extension_of(name) == Some(name.subrange(i + 1, name.len() as int)),
{
    let k = choose|k: int| is_last_dot(name, k);
    assert(k == i);
}

/// A name without any `.` has no extension, and only such a name has none.
pub proof fn lemma_no_dot_no_extension(name: Seq<char>)
    ensures
        extension_of(name) is None <==> !name.contains('.'),
{
    if name.contains('.') {
        lemma_has_last_dot(name);
    } else {
        assert forall|i: int| !is_last_dot(name, i) by {
            if is_last_dot(name, i) {
                assert(name.contains(name[i]));
            }
        }
    }
}

proof fn lemma_has_last_dot(name: Seq<char>)
    requires
        name.contains('.'),
    ensures
        exists|i: int| is_last_dot(name, i),
    decreases name.len(),
{
    let last = name.len() - 1;
    if name[last] == '.' {
        assert(is_last_dot(name, last));
    } else {
        let front = name.drop_last();
        let w = choose|w: int| 0 <= w < name.len() && name[w] == '.';
        assert(front[w] == '.');
        lemma_has_last_dot(front);
        let i = choose|i: int| is_last_dot(front, i);
        assert(name[i] == front[i]);
        assert forall|j: int| i < j < name.len() implies name[j] != '.' by {
            if j < last {
                assert(name[j] == front[j]);
            }
        }
        assert(is_last_dot(name, i));
    }
}

/// The position held in `found`, or -1 where none is held.
spec fn last_dot_index(found: Option<usize>) -> int {
    match found {
        Some(i) => i as int,
        None => -1,
    }
}

/// `at` is the last `.` of `prefix`, or is -1 where `prefix` holds none.
spec fn dots_seen(prefix: Seq<char>, at: int) -> bool {
    if at < 0 {
        !prefix.contains('.')
    } else {
        is_last_dot(prefix, at)
    }
}

/// Reading one more character moves the last `.` only if that character is one.
proof fn lemma_last_dot_step(name: Seq<char>, n: int, at: int)
    requires
        0 <= n < name.len(),
        dots_seen(name.take(n), at),
    ensures
        dots_seen(name.take(n + 1), if name[n] == '.' { n } else { at }),
{
    let shorter = name.take(n);
    let longer = name.take(n + 1);
    assert(longer[n] == name[n]);
    assert forall|j: int| 0 <= j < n implies longer[j] == shorter[j] by {}
    if name[n] == '.' {
        assert(is_last_dot(longer, n));
    } else if at < 0 {
        assert forall|j: int| 0 <= j < longer.len() implies longer[j] != '.' by {
            if j < n {
                assert(shorter.contains(shorter[j]) || shorter[j] != '.');
            }
        }
    } else {
        assert(longer[at] == shorter[at]);
        assert forall|j: int| at < j < longer.len() implies longer[j] != '.' by {
            if j < n {
                assert(longer[j] == shorter[j]);
            }
        }
        assert(is_last_dot(longer, at));
    }
}

/// Extracts the extension of a file name: the text after its last `.`,
/// in the case it is written in. A name without a `.` has none.
pub fn extract_extension(file_name: &str) -> (extension: Option<String>)
    ensures
        match extension_of(file_name@) {
            Some(behind) => extension matches Some(text) && text@ == behind,
            None => extension is None,
        },
        extension is None <==> !file_name@.contains('.'),
{
    let length = file_name.unicode_len();
    let mut last_dot: Option<usize> = None;
    let mut position: usize = 0;
    for c in it: file_name.chars()
        invariant
            position == it.index(),
            it.seq() == file_name@,
            length == file_name@.len(),
            dots_seen(file_name@.take(position as int), last_dot_index(last_dot)),
    {
        proof {
            lemma_last_dot_step(file_name@, position as int, last_dot_index(last_dot));
        }
        if c == '.' {
            last_dot = Some(position);
        }
        position = position + 1;
    }
    proof {
        assert(file_name@.take(position as int) == file_name@);
        lemma_no_dot_no_extension(file_name@);
    }
    match last_dot {
        Some(i) => {
            proof {
                lemma_extension_at(file_name@, i as int);
            }
            Some(file_name.substring_char(i + 1, position).to_owned())
        },
        None => None,
    }
}

/// One header of a request.
#[derive(Debug, Clone, PartialEq, Eq)]
pub struct Header {
    pub name: String,
    pub value: String,
}

/// A `GET` request to the repository host, ready to be sent.
#[derive(Debug, Clone, PartialEq, Eq)]
pub struct Request {
    pub url: Address,
    pub headers: Vec<Header>,
}

/// The two requests that answer one query. Neither depends on the other's
/// answer, so they may be sent side by side.
#[derive(Debug, Clone, PartialEq, Eq)]
pub struct FetchPlan {
    pub description: Request,
    pub readme: Request,
}

/// The client's side of the conversation with the repository host: which
/// requests are sent under which credentials. Sending them is the caller's.
#[derive(Debug, Clone, PartialEq, Eq)]
pub struct HttpClient {
    token: String,
}

/// How far the two answers to one query have come in.
#[derive(Debug)]
pub enum Fetch {
    /// Neither has arrived.
    AwaitingBoth,
    /// The description is in, the readme is not.
    AwaitingReadme { description: String },
    /// The readme is in, the description is not.
    AwaitingDescription { readme: String },
    /// The query is settled: both arrived, or one failed. Whatever arrives
    /// later is ignored.
    Done(Result<RepositoryResponse, Error>),
}

/// The address, as text, of the host's record of a repository.
pub open spec fn description_url_text(organization: Seq<char>, repository: Seq<char>) -> Seq<
    char,
> {
    "https://api.github.com/repos/"@ + organization + "/"@ + repository
}

/// The address, as text, of a repository's readme, or of the readme of one
/// of its subdirectories.
pub open spec fn readme_url_text(
    organization: Seq<char>,
    repository: Seq<char>,
    subdirectory: Option<Seq<char>>,
) -> Seq<char> {
    match subdirectory {
        Some(path) => description_url_text(organization, repository) + "/readme/"@ + path,
        None => description_url_text(organization, repository) + "/readme"@,
    }
}

/// The characters of an optional text.
pub open spec fn optional_text(text: Option<&str>) -> Option<Seq<char>> {
    match text {
        Some(held) => Some(held@),
        None => None,
    }
}

/// The headers that go with every request to the host, as pairs of name and
/// value: the media type asked for, the agent's name, and the bearer token.
pub open spec fn api_headers(token: Seq<char>) -> Seq<(Seq<char>, Seq<char>)> {
    seq![
        ("Accept"@, "application/vnd.github+json"@),
        ("User-Agent"@, "request"@),
        ("Authorization"@, "Bearer "@ + token),
    ]
}

/// The headers of a request as pairs of name and value.
pub open spec fn header_pairs(headers: Seq<Header>) -> Seq<(Seq<char>, Seq<char>)> {
    headers.map_values(|header: Header| (header.name@, header.value@))
}

/// `request` asks for `url` with the host's headers under `token`.
pub open spec fn is_api_request(request: Request, url: AddressView, token: Seq<char>) -> bool {
    &&& request.url@ == url
    &&& header_pairs(request.headers@) == api_headers(token)
}

/// The description that an answer carries: the text of its field, or the
/// empty text where the field is null or missing.
pub open spec fn description_of(field: Option<String>) -> Seq<char> {
    match field {
        Some(text) => text@,
        None => Seq::empty(),
    }
}

/// `after` is where the arrival of the description's `outcome` leads from
/// `before`.
pub open spec fn after_description(
    before: Fetch,
    outcome: Result<Option<String>, Error>,
    after: Fetch,
) -> bool {
    match before {
        Fetch::AwaitingBoth => match outcome {
            Ok(field) => after matches Fetch::AwaitingReadme { description } && description@
                == description_of(field),
            Err(cause) => after == Fetch::Done(Err(cause)),
        },
        Fetch::AwaitingDescription { readme } => match outcome {
            Ok(field) => after matches Fetch::Done(Ok(response)) && response.description@
                == description_of(field) && response.readme == readme,
            Err(cause) => after == Fetch::Done(Err(cause)),
        },
        _ => after == before,
    }
}

/// `after` is where the arrival of the readme's `outcome` leads from
/// `before`.
pub open spec fn after_readme(before: Fetch, outcome: Result<String, Error>, after: Fetch) -> bool {
    match before {
        Fetch::AwaitingBoth => match outcome {
            Ok(readme) => after == (Fetch::AwaitingDescription { readme }),
            Err(cause) => after == Fetch::Done(Err(cause)),
        },
        Fetch::AwaitingReadme { description } => match outcome {
            Ok(readme) => after matches Fetch::Done(Ok(response)) && response.description
                == description && response.readme == readme,
            Err(cause) => after == Fetch::Done(Err(cause)),
        },
        _ => after == before,
    }
}

/// Writes out the address of the host's record of a repository.
pub fn description_endpoint(organization: &str, repository: &str) -> (text: String)
    ensures
        text@ == description_url_text(organization@, repository@),
{
    let mut text = joined("https://api.github.com/repos/", organization);
    text.append("/");
    text.append(repository);
    text
}

/// Writes out the address of a repository's readme, or of the readme of
/// `maybe_subdir` in it.
pub fn readme_endpoint(organization: &str, repository: &str, maybe_subdir: Option<&str>) -> (text:
    String)
    ensures
        text@ == readme_url_text(organization@, repository@, optional_text(maybe_subdir)),
{
    let mut text = description_endpoint(organization, repository);
    match maybe_subdir {
        Some(subdir) => {
            text.append("/readme/");
            text.append(subdir);
        },
        None => {
            text.append("/readme");
        },
    }
    text
}

/// Builds the address of the host's record of a repository.
///
/// Fails with `Error::Url` exactly where the URL parser refuses the text of
/// the address.
pub fn build_description_url(organization: &str, repository: &str) -> (result: Result<
    Address,
    Error,
>)
    ensures
        match parsed_url(description_url_text(organization@, repository@)) {
            Some(address) => result matches Ok(url) && url@ == address,
            None => result matches Err(Error::Url(_)),
        },
{
    Address::parse(description_endpoint(organization, repository).as_str())
}

/// Builds the address of a repository's readme, or of the readme of
/// `maybe_subdir` in it.
///
/// Fails with `Error::Url` exactly where the URL parser refuses the text of
/// the address.
pub fn build_readme_url(organization: &str, repository: &str, maybe_subdir: Option<&str>) -> (result:
    Result<Address, Error>)
    ensures
        match parsed_url(
            readme_url_text(organization@, repository@, optional_text(maybe_subdir)),
        ) {
            Some(address) => result matches Ok(url) && url@ == address,
            None => result matches Err(Error::Url(_)),
        },
{
    Address::parse(readme_endpoint(organization, repository, maybe_subdir).as_str())
}

/// Reads the description out of the host's answer: a null or missing field
/// stands for the empty text.
pub fn description_text(field: Option<String>) -> (description: String)
    ensures
        description@ == description_of(field),
        field matches Some(text) ==> description == text,
{
    match field {
        Some(text) => text,
        None => String::new(),
    }
}

impl HttpClient {
    /// The token under which this client asks.
    pub closed spec fn token(&self) -> Seq<char> {
        self.token@
    }

    /// A client that authenticates with `token`.
    pub fn new(token: String) -> (client: Self)
        ensures
            client.token() == token@,
    {
        HttpClient { token }
    }

    /// Makes the request for `url`: a `GET` that asks for the host's JSON
    /// media type, names the agent and carries the bearer token.
    pub fn get(&self, url: Address) -> (request: Request)
        ensures
            is_api_request(request, url@, self.token()),
    {
        let mut headers: Vec<Header> = Vec::new();
        headers.push(
            Header { name: "Accept".to_owned(), value: "application/vnd.github+json".to_owned() },
        );
        headers.push(Header { name: "User-Agent".to_owned(), value: "request".to_owned() });
        headers.push(
            Header {
                name: "Authorization".to_owned(),
                value: joined("Bearer ", self.token.as_str()),
            },
        );
        assert(header_pairs(headers@) =~= api_headers(self.token()));
        Request { url, headers }
    }

    /// Plans a query: the request for the repository's description and the
    /// request for its readme.
    ///
    /// Fails with `Error::Url` where one of the two addresses does not
    /// parse, the description's checked first.
    pub fn fetch(&self, organization: &str, repository: &str, subdirectory: Option<&str>) -> (result:
        Result<FetchPlan, Error>)
        ensures
            match (
                parsed_url(description_url_text(organization@, repository@)),
                parsed_url(
                    readme_url_text(organization@, repository@, optional_text(subdirectory)),
                ),
            ) {
                (Some(description), Some(readme)) => result matches Ok(plan) && is_api_request(
                    plan.description,
                    description,
                    self.token(),
                ) && is_api_request(plan.readme, readme, self.token()),
                _ => result matches Err(Error::Url(_)),
            },
    {
        let description = match build_description_url(organization, repository) {
            Ok(url) => url,
            Err(cause) => {
                return Err(cause);
            },
        };
        let readme = match build_readme_url(organization, repository, subdirectory) {
            Ok(url) => url,
            Err(cause) => {
                return Err(cause);
            },
        };
        Ok(FetchPlan { description: self.get(description), readme: self.get(readme) })
    }
}

impl Fetch {
    /// The state of a query whose requests have just been sent.
    pub fn new() -> (fetch: Self)
        ensures
            fetch == Fetch::AwaitingBoth,
    {
        Fetch::AwaitingBoth
    }

    /// Takes the answer to the description request: the `description` field
    /// of the host's record, or the failure to get it.
    ///
    /// A failure settles the query at once. A description completes the
    /// response if the readme is in already, and is kept if not. On a query
    /// that is settled, or that holds a description already, nothing changes.
    pub fn description_arrived(self, outcome: Result<Option<String>, Error>) -> (next: Self)
        ensures
            after_description(self, outcome, next),
    {
        match self {
            Fetch::AwaitingBoth => match outcome {
                Ok(field) => Fetch::AwaitingReadme { description: description_text(field) },
                Err(cause) => Fetch::Done(Err(cause)),
            },
            Fetch::AwaitingDescription { readme } => match outcome {
                Ok(field) => Fetch::Done(
                    Ok(RepositoryResponse { description: description_text(field), readme }),
                ),
                Err(cause) => Fetch::Done(Err(cause)),
            },
            settled => settled,
        }
    }

    /// Takes the outcome of the readme's normalization: the Markdown text,
    /// or the failure.
    ///
    /// A failure settles the query at once. A readme completes the response
    /// if the description is in already, and is kept if not. On a query that
    /// is settled, or that holds a readme already, nothing changes.
    pub fn readme_arrived(self, outcome: Result<String, Error>) -> (next: Self)
        ensures
            after_readme(self, outcome, next),
    {
        match self {
            Fetch::AwaitingBoth => match outcome {
                Ok(readme) => Fetch::AwaitingDescription { readme },
                Err(cause) => Fetch::Done(Err(cause)),
            },
            Fetch::AwaitingReadme { description } => match outcome {
                Ok(readme) => Fetch::Done(Ok(RepositoryResponse { description, readme })),
                Err(cause) => Fetch::Done(Err(cause)),
            },
            settled => settled,
        }
    }
}

/// Two answers that both succeed settle the query with one and the same
/// response, whichever arrives first: its description is the text of the
/// host's field, empty where the field is null, and its readme is the
/// normalized text.
pub proof fn lemma_arrival_order(
    field: Option<String>,
    readme: String,
    description_first: Fetch,
    then_readme: Fetch,
    readme_first: Fetch,
    then_description: Fetch,
)
    requires
        after_description(Fetch::AwaitingBoth, Ok(field), description_first),
        after_readme(description_first, Ok(readme), then_readme),
        after_readme(Fetch::AwaitingBoth, Ok(readme), readme_first),
        after_description(readme_first, Ok(field), then_description),
    ensures
        then_readme matches Fetch::Done(Ok(response)) && response.description@ == description_of(
            field,
        ) && response.readme == readme,
        then_description matches Fetch::Done(Ok(response)) && response.description@
            == description_of(field) && response.readme == readme,
{
}

/// The first failure settles the query, and whatever the other request
/// brings afterwards is ignored: no response is built from one answer alone.
pub proof fn lemma_first_failure_wins(
    cause: Error,
    description: Result<Option<String>, Error>,
    readme: Result<String, Error>,
    description_failed: Fetch,
    then_readme: Fetch,
    readme_failed: Fetch,
    then_description: Fetch,
)
    requires
        after_description(Fetch::AwaitingBoth, Err(cause), description_failed),
        after_readme(description_failed, readme, then_readme),
        after_readme(Fetch::AwaitingBoth, Err(cause), readme_failed),
        after_description(readme_failed, description, then_description),
    ensures
        then_readme == Fetch::Done(Err(cause)),
        then_description == Fetch::Done(Err(cause)),
{
}

} // verus!
