//! Posts: what the application publishes once somebody is signed in.

use crate::clock::Timestamp;
use vstd::prelude::*;

verus! {

/// A post as it is stored.
#[derive(Debug)]
pub struct Post {
    pub id: i32,
    pub title: String,
    pub body: String,
    pub published: bool,
    pub author_id: Option<i32>,
    pub created_at: Timestamp,
}

/// A post as contracts speak of one.
pub struct PostView {
    pub id: i32,
    pub title: Seq<char>,
    pub body: Seq<char>,
    pub published: bool,
    pub author_id: Option<i32>,
    pub created_at: Timestamp,
}

impl View for Post {
    type V = PostView;

    open spec fn view(&self) -> PostView {
        PostView {
            id: self.id,
            title: self.title@,
            body: self.body@,
            published: self.published,
            author_id: self.author_id,
            created_at: self.created_at,
        }
    }
}

impl DeepView for Post {
    type V = PostView;

    open spec fn deep_view(&self) -> PostView {
        self@
    }
}

impl Clone for Post {
    fn clone(&self) -> (copy: Self)
        ensures
            copy == *self,
    {
        Post {
            id: self.id,
            title: self.title.clone(),
            body: self.body.clone(),
            published: self.published,
            author_id: self.author_id,
            created_at: self.created_at,
        }
    }
}

/// A post that is about to be written. Without a word on `published`, the
/// post is published.
#[derive(Debug)]
pub struct NewPost {
    pub title: String,
    pub body: String,
    pub published: Option<bool>,
    pub author_id: Option<i32>,
    pub created_at: Timestamp,
}

/// A new post as contracts speak of one.
pub struct NewPostView {
    pub title: Seq<char>,
    pub body: Seq<char>,
    pub published: Option<bool>,
    pub author_id: Option<i32>,
    pub created_at: Timestamp,
}

impl View for NewPost {
    type V = NewPostView;

    open spec fn view(&self) -> NewPostView {
        NewPostView {
            title: self.title@,
            body: self.body@,
            published: self.published,
            author_id: self.author_id,
            created_at: self.created_at,
        }
    }
}

impl Clone for NewPost {
    fn clone(&self) -> (copy: Self)
        ensures
            copy == *self,
    {
        NewPost {
            title: self.title.clone(),
            body: self.body.clone(),
            published: self.published,
            author_id: self.author_id,
            created_at: self.created_at,
        }
    }
}

/// What `published` is taken to be where a submitted post does not say.
pub fn default_published() -> (published: Option<bool>)
    ensures
        published == Some(true),
{
    Some(true)
}

impl NewPostView {
    /// Whether the post is published once written.
    pub open spec fn is_published(self) -> bool {
        match self.published {
            Some(published) => published,
            None => true,
        }
    }
}

impl NewPost {
    /// A new post of the given parts.
    pub fn new(
        title: String,
        body: String,
        published: Option<bool>,
        author_id: Option<i32>,
        created_at_value: Timestamp,
    ) -> (post: NewPost)
        ensures
            post@ == (NewPostView {
                title: title@,
                body: body@,
                published,
                author_id,
                created_at: created_at_value,
            }),
    {
        NewPost { title, body, published, author_id, created_at: created_at_value }
    }
}

/// How many posts the front page shows.
pub const FRONT_PAGE_POSTS: usize = 5;

/// The posts table, and the last id issued for it. Ids are issued
/// serially, starting at 1.
pub struct PostTable {
    posts: Vec<Post>,
    last_id: i32,
}

/// The posts table as contracts speak of it: the rows in the order in which
/// they were written.
pub struct PostTableView {
    pub posts: Seq<PostView>,
    pub last_id: i32,
}

impl PostTableView {
    /// The table before anything was written.
    pub open spec fn empty() -> PostTableView {
        PostTableView { posts: Seq::empty(), last_id: 0 }
    }

    /// The constraints of the table.
    pub open spec fn wf(self) -> bool {
        &&& 0 <= self.last_id
        &&& forall|i: int|
            0 <= i < self.posts.len() ==> 1 <= (#[trigger] self.posts[i]).id <= self.last_id
        &&& forall|i: int, j: int|
            0 <= i < j < self.posts.len() ==> (#[trigger] self.posts[i]).id < (
            #[trigger] self.posts[j]).id
    }

    /// The published posts, oldest first.
    pub open spec fn published(self) -> Seq<PostView> {
        self.posts.filter(|post: PostView| post.published)
    }

    /// What the front page shows: the first `FRONT_PAGE_POSTS` published
    /// posts.
    pub open spec fn front_page(self) -> Seq<PostView> {
        if self.published().len() <= FRONT_PAGE_POSTS {
            self.published()
        } else {
            self.published().take(FRONT_PAGE_POSTS as int)
        }
    }

    /// The row that the table writes for a new post.
    pub open spec fn next_post(self, post: NewPostView) -> PostView {
        PostView {
            id: (self.last_id + 1) as i32,
            title: post.title,
            body: post.body,
            published: post.is_published(),
            author_id: post.author_id,
            created_at: post.created_at,
        }
    }

    /// The table once `post` is written.
    pub open spec fn with_post(self, post: PostView) -> PostTableView {
        PostTableView { posts: self.posts.push(post), last_id: post.id }
    }
}

impl View for PostTable {
    type V = PostTableView;

    closed spec fn view(&self) -> PostTableView {
        PostTableView { posts: self.posts.deep_view(), last_id: self.last_id }
    }
}

/// Filtering a sequence that grew by one element keeps the element if it
/// passes, and changes nothing else.
pub proof fn lemma_filter_push<A>(s: Seq<A>, x: A, pred: spec_fn(A) -> bool)
    ensures
        s.push(x).filter(pred) == if pred(x) {
            s.filter(pred).push(x)
        } else {
            s.filter(pred)
        },
{
    reveal(Seq::filter);
    assert(s.push(x).drop_last() =~= s);
}

impl PostTable {
    /// The constraints of the table hold.
    pub open spec fn wf(&self) -> bool {
        self@.wf()
    }

    /// A table with no rows.
    pub fn new() -> (table: PostTable)
        ensures
            table@ == PostTableView::empty(),
            table.wf(),
    {
        let table = PostTable { posts: Vec::new(), last_id: 0 };
        assert(table@.posts =~= Seq::empty());
        table
    }

    /// Writes `post` and gives it the next id. Fails only if the ids have
    /// run out; the table is then unchanged.
    pub fn insert(&mut self, post: NewPost) -> (written: Option<Post>)
        requires
            old(self).wf(),
        ensures
            final(self).wf(),
            match written {
                Some(row) => {
                    &&& old(self)@.last_id < i32::MAX
                    &&& row@ == old(self)@.next_post(post@)
                    &&& final(self)@ == old(self)@.with_post(row@)
                },
                None => old(self)@.last_id == i32::MAX && final(self)@ == old(self)@,
            },
    {
        if self.last_id == i32::MAX {
            return None;
        }
        let id: i32 = self.last_id + 1;
        let published = match post.published {
            Some(published) => published,
            None => true,
        };
        let row = Post {
            id,
            title: post.title,
            body: post.body,
            published,
            author_id: post.author_id,
            created_at: post.created_at,
        };
        let copy = row.clone();
        self.posts.push(row);
        self.last_id = id;
        proof {
            assert(self@.posts =~= old(self)@.posts.push(copy@));
        }
        Some(copy)
    }

    /// The posts of the front page: the first `FRONT_PAGE_POSTS` published
    /// posts, oldest first.
    pub fn front_page(&self) -> (page: Vec<Post>)
        ensures
            page.deep_view() == self@.front_page(),
    {
        let ghost shown = |post: PostView| post.published;
        let mut page: Vec<Post> = Vec::new();
        let mut i: usize = 0;
        proof {
            assert(self@.posts.take(0) =~= Seq::empty());
            reveal(Seq::filter);
            assert(page.deep_view() =~= self@.posts.take(0).filter(shown));
        }
        while i < self.posts.len() && page.len() < FRONT_PAGE_POSTS
            invariant
                i <= self.posts.len(),
                page.len() <= FRONT_PAGE_POSTS,
                shown == |post: PostView| post.published,
                page.deep_view() == self@.posts.take(i as int).filter(shown),
            decreases self.posts.len() - i,
        {
            let ghost before = page.deep_view();
            if self.posts[i].published {
                page.push(self.posts[i].clone());
                assert(page.deep_view() =~= before.push(self@.posts[i as int]));
            }
            proof {
                assert(self@.posts.take(i + 1) =~= self@.posts.take(i as int).push(
                    self@.posts[i as int],
                ));
                lemma_filter_push(self@.posts.take(i as int), self@.posts[i as int], shown);
            }
            i += 1;
        }
        proof {
            let seen = self@.posts.take(i as int);
            let rest = self@.posts.skip(i as int);
            assert(self@.posts =~= seen + rest);
            Seq::filter_distributes_over_add(seen, rest, shown);
            if i == self.posts.len() {
                assert(rest =~= Seq::empty());
                reveal(Seq::filter);
                assert(rest.filter(shown) =~= Seq::empty());
                assert(self@.published() =~= page.deep_view());
            } else {
                assert(self@.published() == page.deep_view() + rest.filter(shown));
                assert(self@.front_page() =~= page.deep_view());
            }
        }
        page
    }
}

impl Post {
    /// The posts of the front page: the first `FRONT_PAGE_POSTS` published
    /// posts of `table`, oldest first.
    pub fn get_published(table: &PostTable) -> (page: Vec<Post>)
        ensures
            page.deep_view() == table@.front_page(),
    {
        table.front_page()
    }

    /// Writes a published post to `table` and hands it back as stored, or
    /// nothing if the table could not take it.
    pub fn create(
        table: &mut PostTable,
        title: &str,
        body: &str,
        author_id: &Option<i32>,
        created_at_value: Timestamp,
    ) -> (written: Option<Post>)
        requires
            old(table).wf(),
        ensures
            final(table).wf(),
            match written {
                Some(row) => {
                    &&& old(table)@.last_id < i32::MAX
                    &&& row@ == (PostView {
                        id: (old(table)@.last_id + 1) as i32,
                        title: title@,
                        body: body@,
                        published: true,
                        author_id: *author_id,
                        created_at: created_at_value,
                    })
                    &&& final(table)@ == old(table)@.with_post(row@)
                },
                None => old(table)@.last_id == i32::MAX && final(table)@ == old(table)@,
            },
    {
        let new_post = NewPost::new(
            title.to_owned(),
            body.to_owned(),
            Some(true),
            *author_id,
            created_at_value,
        );
        table.insert(new_post)
    }
}

} // verus!
