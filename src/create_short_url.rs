use vstd::prelude::*;

use crate::id_provider::IDProvider;

verus! {

/// Write side of the store: records which full URL a short identifier
/// stands for.
pub trait CreateShortUrlRepository: Sized {
    /// What a failed store reports.
    type Error;

    /// `after` is a state this repository can be in after a request to
    /// record `id -> url` from state `self` that ended in `outcome`. By
    /// default every step is allowed: an implementation that states nothing
    /// promises nothing.
    open spec fn stores(
        &self,
        after: &Self,
        id: Seq<char>,
        url: Seq<char>,
        outcome: Result<(), Self::Error>,
    ) -> bool {
        true
    }

    /// Records that `id` stands for `url`.
    fn save(&mut self, id: String, url: String) -> (r: Result<(), Self::Error>)
        ensures
            old(self).stores(final(self), id@, url@, r),
    ;
}

/// The "create a short URL" use case: draws an identifier from its provider
/// and stores the mapping through its repository.
pub struct CreateShortUrlCommand<I, R> where I: IDProvider, R: CreateShortUrlRepository {
    pub id_provider: I,
    pub repository: R,
}

impl<I, R> CreateShortUrlCommand<I, R> where I: IDProvider, R: CreateShortUrlRepository {
    /// One run of `execute` on `self` for `url` may end in `after` with
    /// result `r`: some identifier was drawn from this command's own
    /// provider, a store of it was asked of this command's own repository,
    /// and the store's outcome decides the result (the identifier on
    /// success, the repository's error unchanged on failure).
    pub open spec fn creates(
        self,
        after: Self,
        url: Seq<char>,
        r: Result<String, R::Error>,
    ) -> bool {
        exists|id: Seq<char>|
            #[trigger] self.id_provider.produces(&after.id_provider, id) && match r {
                Ok(s) => s@ == id && self.repository.stores(&after.repository, id, url, Ok(())),
                Err(e) => self.repository.stores(&after.repository, id, url, Err(e)),
            }
    }

    /// Builds the command from the provider and repository it will use.
    pub fn new(id_provider: I, repository: R) -> (r: Self)
        ensures
            r.id_provider == id_provider,
            r.repository == repository,
    {
        CreateShortUrlCommand { id_provider, repository }
    }

    /// Gives `url` a new short identifier and returns it.
    pub fn execute(&mut self, url: String) -> (r: Result<String, R::Error>)
        ensures
            old(self).creates(*final(self), url@, r),
    {
        let id = self.id_provider.next_id();
        let stored = id.clone();
        let saved = self.repository.save(stored, url);
        let r = match saved {
            Ok(()) => Ok(id),
            Err(e) => Err(e),
        };
        assert(old(self).id_provider.produces(&self.id_provider, id@));
        assert(saved matches Ok(u) ==> u == ());
        r
    }
}

} // verus!
