//! Editing the tags of one image: a draft is edited, then saved by sending
//! what changed.

use vstd::prelude::*;

use crate::tags::{is_difference, tags_sorted, tags_to_diff, TagSet};
use crate::words::ascii_words;

verus! {

/// What saving the draft asks for.
pub enum SaveRequest {
    /// The draft holds the saved tags: nothing to send, and editing ends.
    Unchanged,
    /// Send these added and removed tags to the server; once it confirms,
    /// report it with `confirm_saved`.
    Send { added: TagSet, removed: TagSet },
}

/// The tags of an image as shown, and the draft being edited.
pub struct TagEditSession {
    editing: bool,
    saved: TagSet,
    draft: TagSet,
}

impl TagEditSession {
    /// Whether the draft is being edited.
    pub closed spec fn spec_editing(&self) -> bool {
        self.editing
    }

    /// The tags shown for the image, as last saved.
    pub closed spec fn spec_saved(&self) -> Seq<Seq<char>> {
        self.saved@
    }

    /// The draft.
    pub closed spec fn spec_draft(&self) -> Seq<Seq<char>> {
        self.draft@
    }

    /// A session for an image with these tags; the draft starts as a copy of them.
    pub fn new(tags: Vec<String>) -> (session: TagEditSession)
        ensures
            !session.spec_editing(),
            session.spec_saved() == session.spec_draft(),
            tags_sorted(session.spec_saved()),
            forall|t: Seq<char>| #[trigger] session.spec_saved().contains(t)
                <==> crate::text::texts_of(tags@).contains(t),
    {
        let saved = TagSet::from_vec(tags);
        let draft = saved.duplicate();
        TagEditSession { editing: false, saved, draft }
    }

    /// Whether the draft is being edited.
    pub fn is_editing(&self) -> (b: bool)
        ensures
            b == self.spec_editing(),
    {
        self.editing
    }

    /// The tags shown for the image.
    pub fn saved_tags(&self) -> (tags: &TagSet)
        ensures
            tags@ == self.spec_saved(),
    {
        &self.saved
    }

    /// The draft.
    pub fn draft_tags(&self) -> (tags: &TagSet)
        ensures
            tags@ == self.spec_draft(),
    {
        &self.draft
    }

    /// Starts or stops editing; the draft is kept either way.
    pub fn toggle_edit(&mut self)
        ensures
            final(self).spec_editing() == !old(self).spec_editing(),
            final(self).spec_saved() == old(self).spec_saved(),
            final(self).spec_draft() == old(self).spec_draft(),
            tags_sorted(final(self).spec_saved()),
            tags_sorted(final(self).spec_draft()),
    {
        proof {
            use_type_invariant(&self.saved);
            use_type_invariant(&self.draft);
            self.saved.lemma_sorted();
            self.draft.lemma_sorted();
        }
        self.editing = !self.editing;
    }

    /// Adds the words typed into the tag field to the draft.
    pub fn add_from_input(&mut self, input: &str)
        ensures
            final(self).spec_editing() == old(self).spec_editing(),
            final(self).spec_saved() == old(self).spec_saved(),
            forall|t: Seq<char>| #[trigger] final(self).spec_draft().contains(t) <==> old(
                self,
            ).spec_draft().contains(t) || ascii_words(input@).contains(t),
            tags_sorted(final(self).spec_saved()),
            tags_sorted(final(self).spec_draft()),
    {
        proof {
            use_type_invariant(&self.saved);
            use_type_invariant(&self.draft);
            self.saved.lemma_sorted();
            self.draft.lemma_sorted();
        }
        self.draft.extend_from_input(input);
    }

    /// Takes a tag off the draft.
    pub fn remove_from_draft(&mut self, tag: &str)
        ensures
            final(self).spec_editing() == old(self).spec_editing(),
            final(self).spec_saved() == old(self).spec_saved(),
            forall|t: Seq<char>| #[trigger] final(self).spec_draft().contains(t) <==> old(
                self,
            ).spec_draft().contains(t) && t != tag@,
            tags_sorted(final(self).spec_saved()),
            tags_sorted(final(self).spec_draft()),
    {
        proof {
            use_type_invariant(&self.saved);
            use_type_invariant(&self.draft);
            self.saved.lemma_sorted();
            self.draft.lemma_sorted();
        }
        self.draft.remove(tag);
    }

    /// Saves the draft: when it holds the shown tags, editing simply ends;
    /// otherwise the change to send is handed back.
    pub fn save(&mut self) -> (request: SaveRequest)
        ensures
            final(self).spec_saved() == old(self).spec_saved(),
            final(self).spec_draft() == old(self).spec_draft(),
            old(self).spec_draft() == old(self).spec_saved() ==> request is Unchanged
                && final(self).spec_editing() == !old(self).spec_editing(),
            old(self).spec_draft() != old(self).spec_saved() ==> final(self).spec_editing() == old(
                self,
            ).spec_editing() && match request {
                SaveRequest::Send { added, removed } => is_difference(
                    added@,
                    old(self).spec_draft(),
                    old(self).spec_saved(),
                ) && is_difference(removed@, old(self).spec_saved(), old(self).spec_draft()),
                SaveRequest::Unchanged => false,
            },
            tags_sorted(final(self).spec_saved()),
            tags_sorted(final(self).spec_draft()),
    {
        proof {
            use_type_invariant(&self.saved);
            use_type_invariant(&self.draft);
            self.saved.lemma_sorted();
            self.draft.lemma_sorted();
        }
        if self.draft.same_tags(&self.saved) {
            self.editing = !self.editing;
            return SaveRequest::Unchanged;
        }
        let (added, removed) = tags_to_diff(self.draft.duplicate(), self.saved.duplicate());
        SaveRequest::Send { added, removed }
    }

    /// The server stored the change: the draft becomes the shown tags and editing ends.
    pub fn confirm_saved(&mut self)
        ensures
            final(self).spec_saved() == old(self).spec_draft(),
            final(self).spec_draft() == old(self).spec_draft(),
            final(self).spec_editing() == !old(self).spec_editing(),
            tags_sorted(final(self).spec_saved()),
            tags_sorted(final(self).spec_draft()),
    {
        proof {
            use_type_invariant(&self.saved);
            use_type_invariant(&self.draft);
            self.saved.lemma_sorted();
            self.draft.lemma_sorted();
        }
        self.saved = self.draft.duplicate();
        self.editing = !self.editing;
    }
}

} // verus!
