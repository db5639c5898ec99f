use vstd::prelude::*;

verus! {

/// Read side of the store: resolves a short identifier to the full URL it
/// stands for.
pub trait GetFullUrlRepository: Sized {
    /// `found` is an answer this repository can give, in state `self`, to a
    /// lookup of `id`: the full URL, or `None` when `id` is not known. By
    /// default every answer is allowed: an implementation that states
    /// nothing promises nothing.
    open spec fn resolves(&self, id: Seq<char>, found: Option<Seq<char>>) -> bool {
        true
    }

    /// Looks up the full URL for `id`; `None` when it is not known.
    fn find(&self, id: &str) -> (r: Option<String>)
        ensures
            self.resolves(id@, r.deep_view()),
    ;
}

/// The "get the full URL" use case: answers from its read repository.
pub struct GetFullUrlQuery<Q> where Q: GetFullUrlRepository {
    pub repository: Q,
}

impl<Q> GetFullUrlQuery<Q> where Q: GetFullUrlRepository {
    /// `found` is an answer `execute` can give for `id`: one that this
    /// query's own repository can give.
    pub open spec fn answers(&self, id: Seq<char>, found: Option<Seq<char>>) -> bool {
        self.repository.resolves(id, found)
    }

    /// Builds the query from the repository it will read.
    pub fn new(repository: Q) -> (r: Self)
        ensures
            r.repository == repository,
    {
        GetFullUrlQuery { repository }
    }

    /// The full URL that the short identifier `id` stands for; `None` when
    /// the repository does not know it.
    pub fn execute(&self, id: &str) -> (r: Option<String>)
        ensures
            self.answers(id@, r.deep_view()),
    {
        self.repository.find(id)
    }
}

} // verus!
