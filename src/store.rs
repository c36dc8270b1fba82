//! The shared store: the three feeds and the comment cache, which the
//! refreshers, the comment fetches and the render loop share behind one lock.
use crate::comments::CommentCache;
use crate::feed::{Category, FeedCache};
use vstd::prelude::*;

verus! {

/// Everything the reader has fetched.
pub struct Store {
    pub top: FeedCache,
    pub new: FeedCache,
    pub show: FeedCache,
    pub comments: CommentCache,
}

impl Store {
    /// Every feed well formed.
    pub open spec fn wf(&self) -> bool {
        &&& self.top@.wf()
        &&& self.new@.wf()
        &&& self.show@.wf()
    }

    /// The feed of a category.
    pub open spec fn feed_of(&self, category: Category) -> FeedCache {
        match category {
            Category::Top => self.top,
            Category::New => self.new,
            Category::Show => self.show,
        }
    }

    /// Empty feeds on their first page and an empty comment cache.
    pub fn new() -> (r: Store)
        ensures
            r.wf(),
            r.top@.items.is_empty() && r.top@.ids.len() == 0 && r.top@.page == 0,
            r.new@.items.is_empty() && r.new@.ids.len() == 0 && r.new@.page == 0,
            r.show@.items.is_empty() && r.show@.ids.len() == 0 && r.show@.page == 0,
            r.comments@ == Map::<u32, crate::comments::CommentState>::empty(),
    {
        Store {
            top: FeedCache::new(),
            new: FeedCache::new(),
            show: FeedCache::new(),
            comments: CommentCache::new(),
        }
    }

    /// The feed of a category.
    pub fn feed(&self, category: Category) -> (r: &FeedCache)
        ensures
            *r == self.feed_of(category),
    {
        match category {
            Category::Top => &self.top,
            Category::New => &self.new,
            Category::Show => &self.show,
        }
    }

    /// The feed of a category, to update; the other feeds and the comments
    /// stay as they are.
    pub fn feed_mut(&mut self, category: Category) -> (r: &mut FeedCache)
        ensures
            *r == old(self).feed_of(category),
            *final(self) == (match category {
                Category::Top => Store { top: *final(r), ..*old(self) },
                Category::New => Store { new: *final(r), ..*old(self) },
                Category::Show => Store { show: *final(r), ..*old(self) },
            }),
    {
        match category {
            Category::Top => &mut self.top,
            Category::New => &mut self.new,
            Category::Show => &mut self.show,
        }
    }
}

} // verus!
