//! Posts, their categories, and the store that holds them, with the laws
//! that its operations obey.

use vstd::prelude::*;

use crate::clock::{current_date, is_date_text};

verus! {

/// The section every newly written post is filed under.
pub const DEFAULT_SECTION: &'static str = "Main";

/// A category tag attached to a post.
pub struct BlogCategory {
    pub name: String,
}

impl BlogCategory {
    /// A category with the given name, taken as it is.
    pub fn new(name: String) -> (r: BlogCategory)
        ensures
            r.name == name,
    {
        BlogCategory { name }
    }
}

/// One blog post.
pub struct BlogEntry {
    pub id: u32,
    pub url_friendly_id: String,
    pub title: String,
    pub description: String,
    pub body: String,
    pub blog_section: String,
    pub created_on: String,
    pub modified_on: String,
    pub categories: Vec<BlogCategory>,
}

impl BlogEntry {
    /// A post in the default section, created and last modified on `today`.
    pub fn dated(
        id: u32,
        url_friendly_id: String,
        title: String,
        description: String,
        body: String,
        categories: Vec<BlogCategory>,
        today: String,
    ) -> (r: BlogEntry)
        ensures
            r.id == id,
            r.url_friendly_id == url_friendly_id,
            r.title == title,
            r.description == description,
            r.body == body,
            r.blog_section@ == DEFAULT_SECTION@,
            r.created_on == today,
            r.modified_on == today,
            r.categories == categories,
    {
        BlogEntry {
            id,
            url_friendly_id,
            title,
            description,
            body,
            blog_section: DEFAULT_SECTION.to_owned(),
            created_on: today.clone(),
            modified_on: today,
            categories,
        }
    }

    /// A post in the default section, created and last modified today (UTC).
    pub fn new(
        id: u32,
        url_friendly_id: String,
        title: String,
        description: String,
        body: String,
        categories: Vec<BlogCategory>,
    ) -> (r: BlogEntry)
        ensures
            r.id == id,
            r.url_friendly_id == url_friendly_id,
            r.title == title,
            r.description == description,
            r.body == body,
            r.blog_section@ == DEFAULT_SECTION@,
            r.created_on == r.modified_on,
            is_date_text(r.created_on@),
            r.categories == categories,
    {
        BlogEntry::dated(id, url_friendly_id, title, description, body, categories, current_date())
    }
}

/// The collection of posts, newest first, and the identifier the next
/// inserted post receives.
pub struct Blog {
    pub blog_entries: Vec<BlogEntry>,
    pub next_id: u32,
}

/// Position `i` holds a post with friendly URL `slug`, and no earlier one does.
pub open spec fn is_first_with_slug(entries: Seq<BlogEntry>, slug: Seq<char>, i: int) -> bool {
    &&& 0 <= i < entries.len()
    &&& entries[i].url_friendly_id@ == slug
    &&& forall|j: int| 0 <= j < i ==> entries[j].url_friendly_id@ != slug
}

/// Some post has friendly URL `slug`.
pub open spec fn has_slug(entries: Seq<BlogEntry>, slug: Seq<char>) -> bool {
    exists|i: int| 0 <= i < entries.len() && entries[i].url_friendly_id@ == slug
}

/// The posts that remain once those with identifier `id` are taken out, in
/// their existing order.
pub open spec fn without_id(entries: Seq<BlogEntry>, id: u32) -> Seq<BlogEntry> {
    entries.filter(|e: BlogEntry| e.id != id)
}

/// Every post's identifier is below `next_id`, so the counter never hands
/// out an identifier already in use.
pub open spec fn ids_below(entries: Seq<BlogEntry>, next_id: u32) -> bool {
    forall|i: int| 0 <= i < entries.len() ==> #[trigger] entries[i].id < next_id
}

impl Blog {
    /// Whether every stored identifier is below the counter. A loaded
    /// document is taken as it is; this tells a caller whether it holds.
    pub fn has_fresh_counter(&self) -> (r: bool)
        ensures
            r == ids_below(self.blog_entries@, self.next_id),
    {
        let n = self.blog_entries.len();
        let mut i: usize = 0;
        while i < n
            invariant
                n == self.blog_entries@.len(),
                0 <= i <= n,
                ids_below(self.blog_entries@.take(i as int), self.next_id),
            decreases n - i,
        {
            if self.blog_entries[i].id >= self.next_id {
                return false;
            }
            assert(self.blog_entries@.take(i + 1) =~= self.blog_entries@.take(i as int).push(
                self.blog_entries@[i as int],
            ));
            i = i + 1;
        }
        assert(self.blog_entries@.take(n as int) =~= self.blog_entries@);
        true
    }

    /// Writes a new post at the front, with the current counter as its
    /// identifier, and advances the counter by one.
    pub fn new_blog_entry(
        &mut self,
        url_friendly_id: String,
        title: String,
        description: String,
        body: String,
        categories: Vec<BlogCategory>,
    )
        requires
            old(self).next_id < u32::MAX,
        ensures
            final(self).next_id == old(self).next_id + 1,
            final(self).blog_entries@.len() == old(self).blog_entries@.len() + 1,
            final(self).blog_entries@.drop_first() == old(self).blog_entries@,
            ({
                let e = final(self).blog_entries@[0];
                &&& e.id == old(self).next_id
                &&& e.url_friendly_id == url_friendly_id
                &&& e.title == title
                &&& e.description == description
                &&& e.body == body
                &&& e.blog_section@ == DEFAULT_SECTION@
                &&& e.created_on == e.modified_on
                &&& is_date_text(e.created_on@)
                &&& e.categories == categories
            }),
    {
        let blog_entry = BlogEntry::new(
            self.next_id,
            url_friendly_id,
            title,
            description,
            body,
            categories,
        );
        self.next_id = self.next_id + 1;
        self.blog_entries.insert(0, blog_entry);
        assert(self.blog_entries@.drop_first() =~= old(self).blog_entries@);
    }

    /// Removes every post whose identifier is `id`; the others keep their
    /// relative order. An identifier that no post has changes nothing.
    pub fn delete_blog_entry(&mut self, id: u32)
        ensures
            final(self).blog_entries@ == without_id(old(self).blog_entries@, id),
            final(self).next_id == old(self).next_id,
    {
        let mut rest: Vec<BlogEntry> = Vec::new();
        std::mem::swap(&mut rest, &mut self.blog_entries);
        let ghost all = rest@;
        let mut kept: Vec<BlogEntry> = Vec::new();
        for e in it: rest.into_iter()
            invariant
                it.seq() == all,
                kept@ == without_id(all.take(it.index() as int), id),
        {
            let ghost k = it.index() as int;
            proof {
                assert(all.take(k + 1) =~= all.take(k).push(e));
                all.take(k).lemma_filter_push(e, |x: BlogEntry| x.id != id);
            }
            if e.id != id {
                kept.push(e);
            }
        }
        proof {
            assert(all.take(all.len() as int) =~= all);
        }
        self.blog_entries = kept;
    }

    /// The first post, in current order, whose friendly URL equals
    /// `url_friendly_id` exactly.
    pub fn find_by_url(&self, url_friendly_id: &str) -> (r: Option<&BlogEntry>)
        ensures
            r.is_some() == has_slug(self.blog_entries@, url_friendly_id@),
            r matches Some(e) ==> exists|i: int|
                is_first_with_slug(self.blog_entries@, url_friendly_id@, i)
                    && *e == self.blog_entries@[i],
    {
        let target = url_friendly_id.to_owned();
        let n = self.blog_entries.len();
        let mut i: usize = 0;
        while i < n
            invariant
                n == self.blog_entries@.len(),
                target@ == url_friendly_id@,
                0 <= i <= n,
                forall|j: int| 0 <= j < i ==> self.blog_entries@[j].url_friendly_id@ != target@,
            decreases n - i,
        {
            if self.blog_entries[i].url_friendly_id == target {
                assert(is_first_with_slug(self.blog_entries@, url_friendly_id@, i as int));
                return Some(&self.blog_entries[i]);
            }
            i = i + 1;
        }
        None
    }
}

/// Deleting an identifier leaves no post with that identifier, keeps every
/// post with another identifier, and brings in nothing new.
pub proof fn lemma_delete_removes_exactly(entries: Seq<BlogEntry>, id: u32)
    ensures
        forall|i: int| 0 <= i < without_id(entries, id).len()
            ==> #[trigger] without_id(entries, id)[i].id != id,
        forall|e: BlogEntry| #[trigger] entries.contains(e) && e.id != id
            ==> without_id(entries, id).contains(e),
        forall|e: BlogEntry| #[trigger] without_id(entries, id).contains(e)
            ==> entries.contains(e),
        without_id(entries, id).len() <= entries.len(),
{
    let pred = |x: BlogEntry| x.id != id;
    entries.lemma_filter_len(pred);
    assert forall|i: int| 0 <= i < without_id(entries, id).len()
        implies #[trigger] without_id(entries, id)[i].id != id by {
        entries.lemma_filter_pred(pred, i);
    }
    assert forall|e: BlogEntry| #[trigger] entries.contains(e) && e.id != id
        implies without_id(entries, id).contains(e) by {
        let i = choose|i: int| 0 <= i < entries.len() && entries[i] == e;
        entries.lemma_filter_contains(pred, i);
    }
    assert forall|e: BlogEntry| #[trigger] without_id(entries, id).contains(e)
        implies entries.contains(e) by {
        entries.lemma_filter_contains_rev(pred, e);
    }
}

/// The post at the front of the store, where a new post is written, is the
/// one that a lookup by its own friendly URL returns.
pub proof fn lemma_front_entry_is_found(entries: Seq<BlogEntry>)
    requires
        entries.len() > 0,
    ensures
        is_first_with_slug(entries, entries[0].url_friendly_id@, 0),
        has_slug(entries, entries[0].url_friendly_id@),
{
}

/// Writing a post with the counter's value at the front keeps every
/// identifier below the advanced counter, and the new identifier is one that
/// no earlier post has.
pub proof fn lemma_insert_keeps_fresh_counter(entries: Seq<BlogEntry>, next_id: u32, e: BlogEntry)
    requires
        ids_below(entries, next_id),
        next_id < u32::MAX,
        e.id == next_id,
    ensures
        ids_below(seq![e] + entries, (next_id + 1) as u32),
        forall|i: int| 0 <= i < entries.len() ==> #[trigger] entries[i].id != e.id,
{
    let s = seq![e] + entries;
    assert forall|i: int| 0 <= i < s.len() implies #[trigger] s[i].id < next_id + 1 by {
        if i > 0 {
            assert(s[i] == entries[i - 1]);
        }
    }
}

/// Deleting posts keeps every remaining identifier below the counter.
pub proof fn lemma_delete_keeps_fresh_counter(entries: Seq<BlogEntry>, next_id: u32, id: u32)
    requires
        ids_below(entries, next_id),
    ensures
        ids_below(without_id(entries, id), next_id),
{
    lemma_delete_removes_exactly(entries, id);
    let rest = without_id(entries, id);
    assert forall|k: int| 0 <= k < rest.len() implies #[trigger] rest[k].id < next_id by {
        assert(rest.contains(rest[k]));
    }
}

/// Where every post with a given friendly URL has identifier `id`, deleting
/// `id` leaves no post that a lookup by that friendly URL could return.
pub proof fn lemma_deleted_slug_not_found(entries: Seq<BlogEntry>, id: u32, slug: Seq<char>)
    requires
        forall|i: int| 0 <= i < entries.len() && #[trigger] entries[i].url_friendly_id@ == slug
            ==> entries[i].id == id,
    ensures
        !has_slug(without_id(entries, id), slug),
{
    lemma_delete_removes_exactly(entries, id);
    let rest = without_id(entries, id);
    if has_slug(rest, slug) {
        let k = choose|k: int| 0 <= k < rest.len() && rest[k].url_friendly_id@ == slug;
        assert(rest.contains(rest[k]));
        let i = choose|i: int| 0 <= i < entries.len() && entries[i] == rest[k];
        assert(entries[i].url_friendly_id@ == slug);
    }
}

/// At most one position is the first to hold a given friendly URL, so the
/// post that a lookup returns is determined.
pub proof fn lemma_first_with_slug_unique(entries: Seq<BlogEntry>, slug: Seq<char>, i: int, j: int)
    requires
        is_first_with_slug(entries, slug, i),
        is_first_with_slug(entries, slug, j),
    ensures
        i == j,
{
}

} // verus!
