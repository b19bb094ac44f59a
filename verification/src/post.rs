//! The persisted entity and its creation input.

use vstd::prelude::*;

verus! {

/// A persisted blog post. `id` is assigned by the repository at creation
/// time and never changes; `published` defaults to `false`.
#[derive(Debug)]
pub struct Post {
    pub id: i32,
    pub title: String,
    pub body: String,
    pub published: bool,
}

/// The input for creating a post; it carries no identity and is consumed
/// exactly once to produce a `Post`.
#[derive(Debug)]
pub struct NewPost {
    pub title: String,
    pub body: String,
}

impl Post {
    /// The post that a successful create builds from `input` when the
    /// storage assigns `id`: the caller's title and body, `published`
    /// defaulted to `false`.
    pub open spec fn is_created_from(self, input: NewPost, id: i32) -> bool {
        &&& self.id == id
        &&& self.title@ == input.title@
        &&& self.body@ == input.body@
        &&& self.published == false
    }
}

impl Clone for Post {
    fn clone(&self) -> (r: Self)
        ensures
            r == *self,
    {
        Post {
            id: self.id,
            title: self.title.clone(),
            body: self.body.clone(),
            published: self.published,
        }
    }
}

} // verus!
