//! The data-access layer: every operation checks a connection out of the
//! bounded pool, runs against the store, translates failures into the typed
//! error, and returns the connection on every exit path.

use vstd::prelude::*;

use crate::error::ApiError;
use crate::error::Cause;
use crate::pool::Pool;
use crate::post::NewPost;
use crate::post::Post;

verus! {

/// The repository: a bounded connection pool in front of the post store.
/// Ids are assigned at insertion time, starting at 1, and are unique.
#[derive(Debug)]
pub struct Repository {
    pub pool: Pool,
    pub posts: Vec<Post>,
    pub next_id: i32,
}

/// No two stored posts share an id.
pub open spec fn distinct_ids(s: Seq<Post>) -> bool {
    forall|i: int, j: int| 0 <= i < j < s.len() ==> s[i].id != s[j].id
}

/// Some stored post has the id.
pub open spec fn contains_id(s: Seq<Post>, id: i32) -> bool {
    exists|i: int| 0 <= i < s.len() && s[i].id == id
}

/// `p` is stored and carries the id.
pub open spec fn stored_with_id(s: Seq<Post>, id: i32, p: Post) -> bool {
    exists|i: int| 0 <= i < s.len() && s[i] == p && s[i].id == id
}

/// The repository's abstract state: the stored posts in insertion order,
/// the id counter, and the pool.
pub struct RepoState {
    pub posts: Seq<Post>,
    pub next_id: int,
    pub pool: Pool,
}

/// The abstract state after one successful create returned `p`: the post is
/// appended and the id counter moves past it.
pub open spec fn next_state(s: RepoState, p: Post) -> RepoState {
    RepoState { posts: s.posts.push(p), next_id: s.next_id + 1, pool: s.pool }
}

/// What one successful create does, on abstract states: the returned post
/// is built from the input with the next fresh id, it is appended to the
/// store, the counter moves past it, and the pool is as it was.
pub open spec fn create_step(pre: RepoState, input: NewPost, post: RepoState, p: Post) -> bool {
    &&& p.is_created_from(input, p.id)
    &&& p.id == pre.next_id
    &&& post == next_state(pre, p)
}

/// What one successful create does to the repository.
pub open spec fn create_ok(pre: Repository, input: NewPost, post: Repository, p: Post) -> bool {
    create_step(pre.abs(), input, post.abs(), p)
}

impl Repository {
    /// The abstract state this repository is in.
    pub open spec fn abs(&self) -> RepoState {
        RepoState { posts: self.posts@, next_id: self.next_id as int, pool: self.pool }
    }

    /// Every stored id was assigned below the counter, so the counter's
    /// value is always fresh; ids start at 1 and are pairwise distinct.
    pub open spec fn wf(&self) -> bool {
        &&& self.pool.wf()
        &&& 1 <= self.next_id
        &&& forall|i: int|
            0 <= i < self.posts@.len() ==> 1 <= #[trigger] self.posts@[i].id < self.next_id
        &&& distinct_ids(self.posts@)
    }

    /// A fresh repository: an empty store, the id counter at 1, and a full
    /// pool of `capacity` connections.
    pub fn new(capacity: usize) -> (r: Repository)
        ensures
            r.wf(),
            r.pool.capacity == capacity,
            r.pool.available == capacity,
            r.posts@ =~= Seq::<Post>::empty(),
            r.next_id == 1,
    {
        Repository { pool: Pool::new(capacity), posts: Vec::new(), next_id: 1 }
    }

    /// Insert a post. With a free connection this always succeeds and
    /// returns the fully populated post, id assigned and `published` false;
    /// with the pool exhausted it fails at once with the pool error kind
    /// and changes nothing.
    pub fn create_post(&mut self, new_post: NewPost) -> (r: Result<Post, ApiError>)
        requires
            old(self).wf(),
            old(self).next_id < i32::MAX,
        ensures
            final(self).wf(),
            old(self).pool.has_free() ==> (r matches Ok(p) && create_ok(
                *old(self),
                new_post,
                *final(self),
                p,
            )),
            !old(self).pool.has_free() ==> (r matches Err(ApiError::Other(Cause::Pool(_)))
                && *final(self) == *old(self)),
    {
        if !self.pool.try_acquire() {
            return Err(ApiError::pool_exhausted());
        }
        let post = Post {
            id: self.next_id,
            title: new_post.title,
            body: new_post.body,
            published: false,
        };
        let stored = post.clone();
        self.posts.push(stored);
        self.next_id = self.next_id + 1;
        self.pool.release();
        Ok(post)
    }

    /// Look a post up by id. With a free connection the result is `Ok`
    /// exactly when the id is stored, and then it is the stored post, and
    /// `NotFound` otherwise, never a different error; with the pool
    /// exhausted it fails at once with the pool error kind. The state is
    /// unchanged either way.
    pub fn get_post(&mut self, id: i32) -> (r: Result<Post, ApiError>)
        requires
            old(self).wf(),
        ensures
            *final(self) == *old(self),
            old(self).pool.has_free() ==> match r {
                Ok(p) => stored_with_id(old(self).posts@, id, p),
                Err(e) => e == ApiError::NotFound && !contains_id(old(self).posts@, id),
            },
            !old(self).pool.has_free() ==> r matches Err(ApiError::Other(Cause::Pool(_))),
    {
        if !self.pool.try_acquire() {
            return Err(ApiError::pool_exhausted());
        }
        let ghost pre = *old(self);
        let n = self.posts.len();
        let mut found: Option<Post> = None;
        let mut i: usize = 0;
        while i < n
            invariant
                i <= n,
                n == self.posts@.len(),
                self.posts@ == pre.posts@,
                self.next_id == pre.next_id,
                self.pool.capacity == pre.pool.capacity,
                self.pool.available + 1 == pre.pool.available,
                self.pool.available < self.pool.capacity,
                match found {
                    None => forall|k: int| 0 <= k < i ==> self.posts@[k].id != id,
                    Some(p) => stored_with_id(pre.posts@, id, p),
                },
            decreases n - i,
        {
            if found.is_none() && self.posts[i].id == id {
                found = Some(self.posts[i].clone());
            }
            i = i + 1;
        }
        self.pool.release();
        match found {
            Some(p) => Ok(p),
            None => Err(ApiError::NotFound),
        }
    }

    /// List every stored post in insertion order. With a free connection it
    /// returns exactly the store's contents; with the pool exhausted it
    /// fails at once with the pool error kind. The state is unchanged.
    pub fn list_posts(&mut self) -> (r: Result<Vec<Post>, ApiError>)
        requires
            old(self).wf(),
        ensures
            *final(self) == *old(self),
            old(self).pool.has_free() ==> (r matches Ok(v) && v@ == old(self).posts@),
            !old(self).pool.has_free() ==> r matches Err(ApiError::Other(Cause::Pool(_))),
    {
        if !self.pool.try_acquire() {
            return Err(ApiError::pool_exhausted());
        }
        let ghost pre = *old(self);
        let n = self.posts.len();
        let mut out: Vec<Post> = Vec::new();
        let mut i: usize = 0;
        while i < n
            invariant
                i <= n,
                n == self.posts@.len(),
                self.posts@ == pre.posts@,
                self.next_id == pre.next_id,
                self.pool.capacity == pre.pool.capacity,
                self.pool.available + 1 == pre.pool.available,
                self.pool.available < self.pool.capacity,
                out@ =~= self.posts@.subrange(0, i as int),
            decreases n - i,
        {
            out.push(self.posts[i].clone());
            i = i + 1;
        }
        self.pool.release();
        proof {
            assert(out@ =~= pre.posts@);
        }
        Ok(out)
    }
}

/// Law: the post that a successful create returns is stored under the id it
/// carries, and it is the only stored post with that id; so a lookup of that
/// id yields exactly the created post, which is the input's title and body
/// with `published` false and the generated id.
pub proof fn lemma_create_then_get(pre: Repository, input: NewPost, post: Repository, p: Post)
    requires
        pre.wf(),
        create_ok(pre, input, post, p),
    ensures
        contains_id(post.posts@, p.id),
        forall|q: Post| stored_with_id(post.posts@, p.id, q) ==> q == p,
        p.title@ == input.title@,
        p.body@ == input.body@,
        p.published == false,
{
    let s = post.posts@;
    let last = pre.posts@.len() as int;
    assert(s[last] == p && s[last].id == p.id);
    assert(contains_id(s, p.id));
    assert forall|q: Post| stored_with_id(s, p.id, q) implies q == p by {
        let i = choose|i: int| 0 <= i < s.len() && s[i] == q && s[i].id == p.id;
        if i < last {
            assert(s[i] == pre.posts@[i]);
            assert(pre.posts@[i].id < pre.next_id);
            assert(false);
        }
    }
}

/// Law: an id the counter has not reached, or one below 1, was never
/// assigned, so no stored post carries it and a lookup of it reports the
/// `NotFound` kind.
pub proof fn lemma_unassigned_id_absent(r: Repository, id: i32)
    requires
        r.wf(),
        id >= r.next_id || id < 1,
    ensures
        !contains_id(r.posts@, id),
{
    assert forall|i: int| 0 <= i < r.posts@.len() implies r.posts@[i].id != id by {
        assert(1 <= r.posts@[i].id < r.next_id);
    }
}

/// Starting from `s0`, a chain of successful `create_post` calls, one per
/// element of `inputs` in order, returned the posts `outs` and left the
/// repository in the abstract state `s1`.
pub open spec fn creates_from(
    s0: RepoState,
    inputs: Seq<NewPost>,
    outs: Seq<Post>,
    s1: RepoState,
) -> bool
    decreases inputs.len(),
{
    if inputs.len() == 0 {
        outs.len() == 0 && s1 == s0
    } else {
        &&& outs.len() == inputs.len()
        &&& create_step(s0, inputs[0], next_state(s0, outs[0]), outs[0])
        &&& creates_from(next_state(s0, outs[0]), inputs.drop_first(), outs.drop_first(), s1)
    }
}

/// Law: after a chain of N successful creates the store holds exactly its
/// old contents followed by the N returned posts in order, so its length
/// grew by N; the returned ids are consecutive counter values, hence
/// pairwise distinct; and each returned post is built from its input.
pub proof fn lemma_creates_from(
    s0: RepoState,
    inputs: Seq<NewPost>,
    outs: Seq<Post>,
    s1: RepoState,
)
    requires
        creates_from(s0, inputs, outs, s1),
    ensures
        outs.len() == inputs.len(),
        s1.posts == s0.posts + outs,
        s1.posts.len() == s0.posts.len() + inputs.len(),
        s1.next_id == s0.next_id + inputs.len(),
        s1.pool == s0.pool,
        forall|k: int| 0 <= k < outs.len() ==> #[trigger] outs[k].id == s0.next_id + k,
        forall|i: int, j: int| 0 <= i < j < outs.len() ==> outs[i].id != outs[j].id,
        forall|k: int| 0 <= k < outs.len() ==> #[trigger] outs[k].is_created_from(
            inputs[k],
            outs[k].id,
        ),
    decreases inputs.len(),
{
    if inputs.len() == 0 {
        assert(s1.posts =~= s0.posts + outs);
    } else {
        let mid = next_state(s0, outs[0]);
        lemma_creates_from(mid, inputs.drop_first(), outs.drop_first(), s1);
        assert(s1.posts =~= s0.posts + outs);
        assert forall|k: int| 0 <= k < outs.len() implies #[trigger] outs[k].id == s0.next_id
            + k by {
            if k > 0 {
                assert(outs.drop_first()[k - 1] == outs[k]);
            }
        }
        assert forall|k: int| 0 <= k < outs.len() implies #[trigger] outs[k].is_created_from(
            inputs[k],
            outs[k].id,
        ) by {
            if k > 0 {
                assert(outs.drop_first()[k - 1] == outs[k]);
                assert(inputs.drop_first()[k - 1] == inputs[k]);
            }
        }
    }
}

} // verus!
