use vstd::prelude::*;

use crate::create_short_url::{CreateShortUrlCommand, CreateShortUrlRepository};
use crate::get_full_url::{GetFullUrlQuery, GetFullUrlRepository};
use crate::id_provider::IDProvider;

verus! {

/// The composition root: owns the two use-case handlers, each wired to the
/// capabilities it was handed at construction.
pub struct Container<I, R, Q> where
    I: IDProvider,
    R: CreateShortUrlRepository,
    Q: GetFullUrlRepository,
{
    pub shorten_command: CreateShortUrlCommand<I, R>,
    pub get_full_url_query: GetFullUrlQuery<Q>,
}

impl<I, R, Q> Container<I, R, Q> where
    I: IDProvider,
    R: CreateShortUrlRepository,
    Q: GetFullUrlRepository,
{
    /// The container built from `id_provider`, `repo` and `query`: the
    /// create command holds the provider and the write repository, the
    /// query holds the read repository, each exactly as handed in.
    pub open spec fn wired(id_provider: I, repo: R, query: Q) -> Self {
        Container {
            shorten_command: CreateShortUrlCommand { id_provider, repository: repo },
            get_full_url_query: GetFullUrlQuery { repository: query },
        }
    }

    /// Wires the three capabilities into the two handlers. Never fails.
    pub fn new(id_provider: I, repo: R, query: Q) -> (r: Self)
        ensures
            r == Self::wired(id_provider, repo, query),
    {
        let shorten_command = CreateShortUrlCommand::new(id_provider, repo);
        let get_full_url_query = GetFullUrlQuery::new(query);

        Container { shorten_command, get_full_url_query }
    }
}

/// A create run through the command of the container built from
/// `id_provider`, `repo` and `query` draws its identifier from `id_provider`
/// and asks `repo`, and no other repository, to store it; the result is
/// that identifier when `repo` reports success and `repo`'s own error
/// otherwise.
pub proof fn lemma_create_uses_injected<I, R, Q>(
    id_provider: I,
    repo: R,
    query: Q,
    after: CreateShortUrlCommand<I, R>,
    url: Seq<char>,
    r: Result<String, R::Error>,
) where I: IDProvider, R: CreateShortUrlRepository, Q: GetFullUrlRepository
    requires
        Container::wired(id_provider, repo, query).shorten_command.creates(after, url, r),
    ensures
        exists|id: Seq<char>|
            #[trigger] id_provider.produces(&after.id_provider, id) && match r {
                Ok(s) => s@ == id && repo.stores(&after.repository, id, url, Ok(())),
                Err(e) => repo.stores(&after.repository, id, url, Err(e)),
            },
{
}

/// The query of the container built from `id_provider`, `repo` and `query`
/// can give for an identifier exactly the answers that `query` can give.
pub proof fn lemma_query_uses_injected<I, R, Q>(
    id_provider: I,
    repo: R,
    query: Q,
    id: Seq<char>,
    found: Option<Seq<char>>,
) where I: IDProvider, R: CreateShortUrlRepository, Q: GetFullUrlRepository
    ensures
        Container::wired(id_provider, repo, query).get_full_url_query.answers(id, found)
            == query.resolves(id, found),
{
}

/// Two containers built separately share nothing: a create run through
/// either one's command involves only that container's own provider and
/// write repository, and each one's query answers from its own read
/// repository alone, whatever the other container was built from.
pub proof fn lemma_containers_independent<I, R, Q>(
    provider_a: I,
    repo_a: R,
    query_a: Q,
    provider_b: I,
    repo_b: R,
    query_b: Q,
    after_a: CreateShortUrlCommand<I, R>,
    after_b: CreateShortUrlCommand<I, R>,
    url_a: Seq<char>,
    url_b: Seq<char>,
    r_a: Result<String, R::Error>,
    r_b: Result<String, R::Error>,
    id: Seq<char>,
    found: Option<Seq<char>>,
) where I: IDProvider, R: CreateShortUrlRepository, Q: GetFullUrlRepository
    requires
        Container::wired(provider_a, repo_a, query_a).shorten_command.creates(after_a, url_a, r_a),
        Container::wired(provider_b, repo_b, query_b).shorten_command.creates(after_b, url_b, r_b),
    ensures
        exists|ia: Seq<char>|
            #[trigger] provider_a.produces(&after_a.id_provider, ia) && match r_a {
                Ok(s) => s@ == ia && repo_a.stores(&after_a.repository, ia, url_a, Ok(())),
                Err(e) => repo_a.stores(&after_a.repository, ia, url_a, Err(e)),
            },
        exists|ib: Seq<char>|
            #[trigger] provider_b.produces(&after_b.id_provider, ib) && match r_b {
                Ok(s) => s@ == ib && repo_b.stores(&after_b.repository, ib, url_b, Ok(())),
                Err(e) => repo_b.stores(&after_b.repository, ib, url_b, Err(e)),
            },
        Container::wired(provider_a, repo_a, query_a).get_full_url_query.answers(id, found)
            == query_a.resolves(id, found),
        Container::wired(provider_b, repo_b, query_b).get_full_url_query.answers(id, found)
            == query_b.resolves(id, found),
{
    lemma_create_uses_injected(provider_a, repo_a, query_a, after_a, url_a, r_a);
    lemma_create_uses_injected(provider_b, repo_b, query_b, after_b, url_b, r_b);
}

} // verus!
