//! Attaching a set of tags to an image, one database statement at a time.
//!
//! Each tag is looked up by name; an unknown tag is created when the settings
//! allow it, and otherwise the whole change is rolled back; the tag is then
//! linked to the image. The transaction is committed once every tag is linked.

use vstd::prelude::*;

use crate::api::ServerError;
use crate::tags::TagSet;
use crate::text::texts_of;

verus! {

/// Where the linking stands.
#[derive(Clone, Copy, Debug, PartialEq, Eq, Structural)]
pub enum LinkPhase {
    /// Nothing was asked yet.
    Ready,
    /// Waiting for the id of the current tag, if it exists.
    AwaitLookup,
    /// Waiting for the id of the tag just created.
    AwaitCreate,
    /// Waiting for the link of the current tag to be stored.
    AwaitLink,
    /// Every tag was linked and the transaction committed.
    Committed,
    /// The transaction was rolled back.
    RolledBack,
}

/// The next database statement to run.
#[derive(Debug)]
pub enum LinkAction {
    /// Find the id of the tag with this name.
    LookUp(String),
    /// Create a tag with this name and give back its id.
    Create(String),
    /// Link the image to the tag.
    Link { image_id: i64, tag_id: i64 },
    /// Commit the transaction: the change is complete.
    Commit,
    /// Roll the transaction back and report the error.
    Rollback(ServerError),
}

/// The answer to the last statement.
#[derive(Clone, Copy, Debug, PartialEq, Eq, Structural)]
pub enum LinkEvent {
    /// The linking starts.
    Start,
    /// The lookup found the tag with this id, or found none.
    Found(Option<i64>),
    /// The tag was created with this id.
    Created(i64),
    /// The link was stored.
    Linked,
}

/// The state of a linking.
pub struct LinkerView {
    pub image_id: i64,
    /// The tags to link, in order.
    pub tags: Seq<Seq<char>>,
    /// How many tags are linked already; the current tag is the next one.
    pub next: int,
    /// Whether tags that do not exist yet may be created.
    pub create_unknown: bool,
    pub phase: LinkPhase,
}

/// Links a set of tags to an image.
pub struct TagLinker {
    image_id: i64,
    tags: Vec<String>,
    create_unknown: bool,
    at: Progress,
}

/// How many tags are linked, and what is awaited.
#[derive(Clone, Copy)]
struct Progress {
    next: usize,
    phase: LinkPhase,
}

impl View for TagLinker {
    type V = LinkerView;

    closed spec fn view(&self) -> LinkerView {
        LinkerView {
            image_id: self.image_id,
            tags: texts_of(self.tags@),
            next: self.at.next as int,
            create_unknown: self.create_unknown,
            phase: self.at.phase,
        }
    }
}

/// Whether the linking in state `s` waits for `event`.
pub open spec fn expects(s: LinkerView, event: LinkEvent) -> bool {
    match event {
        LinkEvent::Start => s.phase == LinkPhase::Ready,
        LinkEvent::Found(_) => s.phase == LinkPhase::AwaitLookup,
        LinkEvent::Created(_) => s.phase == LinkPhase::AwaitCreate,
        LinkEvent::Linked => s.phase == LinkPhase::AwaitLink,
    }
}

/// How far a linking can be: never past the last tag, on a tag while it
/// waits, and past every tag once committed.
pub open spec fn linker_consistent(s: LinkerView) -> bool {
    &&& 0 <= s.next <= s.tags.len()
    &&& (s.phase == LinkPhase::AwaitLookup || s.phase == LinkPhase::AwaitCreate || s.phase
        == LinkPhase::AwaitLink) ==> s.next < s.tags.len()
    &&& s.phase == LinkPhase::Committed ==> s.next == s.tags.len()
    &&& s.phase == LinkPhase::Ready ==> s.next == 0
}

/// The state that follows `event` in state `s`.
pub open spec fn link_transition(s: LinkerView, event: LinkEvent) -> LinkerView {
    let phase = match event {
        LinkEvent::Start => if s.tags.len() == 0 {
            LinkPhase::Committed
        } else {
            LinkPhase::AwaitLookup
        },
        LinkEvent::Found(Some(_)) => LinkPhase::AwaitLink,
        LinkEvent::Found(None) => if s.create_unknown {
            LinkPhase::AwaitCreate
        } else {
            LinkPhase::RolledBack
        },
        LinkEvent::Created(_) => LinkPhase::AwaitLink,
        LinkEvent::Linked => if s.next + 1 < s.tags.len() {
            LinkPhase::AwaitLookup
        } else {
            LinkPhase::Committed
        },
    };
    let next = match event {
        LinkEvent::Linked => s.next + 1,
        _ => s.next,
    };
    LinkerView {
        image_id: s.image_id,
        tags: s.tags,
        next,
        create_unknown: s.create_unknown,
        phase,
    }
}

/// The statement asked for after `event` in state `s`: look up the current
/// tag when one is awaited next, create it when it was not found and may be
/// created, link the tag id just learned, roll back on an unknown tag that may
/// not be created, and commit once no tag is left.
pub open spec fn link_action_matches(s: LinkerView, event: LinkEvent, action: LinkAction) -> bool {
    let t = link_transition(s, event);
    match t.phase {
        LinkPhase::AwaitLookup => action matches LinkAction::LookUp(tag) && tag@ == s.tags[t.next],
        LinkPhase::AwaitCreate => action matches LinkAction::Create(tag) && tag@ == s.tags[t.next],
        LinkPhase::AwaitLink => match event {
            LinkEvent::Found(Some(tag_id)) => action == (LinkAction::Link {
                image_id: s.image_id,
                tag_id,
            }),
            LinkEvent::Created(tag_id) => action == (LinkAction::Link {
                image_id: s.image_id,
                tag_id,
            }),
            _ => false,
        },
        LinkPhase::Committed => action is Commit,
        LinkPhase::RolledBack => action == LinkAction::Rollback(ServerError::CreateUnknownTag),
        LinkPhase::Ready => false,
    }
}

impl TagLinker {
    #[verifier::type_invariant]
    closed spec fn consistent(self) -> bool {
        linker_consistent(self@)
    }

    /// A linking of `tags` to the image with id `image_id`.
    pub fn new(image_id: i64, tags: &TagSet, create_unknown_tags: bool) -> (linker: TagLinker)
        ensures
            linker@.image_id == image_id,
            linker@.tags == tags@,
            linker@.next == 0,
            linker@.create_unknown == create_unknown_tags,
            linker@.phase == LinkPhase::Ready,
    {
        TagLinker {
            image_id,
            tags: tags.to_vec(),
            create_unknown: create_unknown_tags,
            at: Progress { next: 0, phase: LinkPhase::Ready },
        }
    }

    /// Whether the linking waits for `event`.
    pub fn expects(&self, event: LinkEvent) -> (b: bool)
        ensures
            b == expects(self@, event),
    {
        match event {
            LinkEvent::Start => self.at.phase == LinkPhase::Ready,
            LinkEvent::Found(_) => self.at.phase == LinkPhase::AwaitLookup,
            LinkEvent::Created(_) => self.at.phase == LinkPhase::AwaitCreate,
            LinkEvent::Linked => self.at.phase == LinkPhase::AwaitLink,
        }
    }

    fn look_up_current(&self) -> (action: LinkAction)
        requires
            self.at.next < self.tags@.len(),
        ensures
            action matches LinkAction::LookUp(t) && t@ == self@.tags[self@.next],
    {
        LinkAction::LookUp(self.tags[self.at.next].clone())
    }

    /// Takes the answer to the last statement and gives the next statement.
    pub fn step(&mut self, event: LinkEvent) -> (action: LinkAction)
        requires
            expects(old(self)@, event),
        ensures
            final(self)@ == link_transition(old(self)@, event),
            link_action_matches(old(self)@, event, action),
            linker_consistent(final(self)@),
            action is Commit ==> final(self)@.next == final(self)@.tags.len(),
            old(self)@.create_unknown ==> !(action is Rollback),
            !old(self)@.create_unknown ==> !(action is Create),
            final(self)@.image_id == old(self)@.image_id,
            final(self)@.tags == old(self)@.tags,
            final(self)@.create_unknown == old(self)@.create_unknown,
            match event {
                LinkEvent::Start => if old(self)@.tags.len() == 0 {
                    action is Commit && final(self)@.phase == LinkPhase::Committed
                } else {
                    (action matches LinkAction::LookUp(t) && t@ == old(self)@.tags[0])
                        && final(self)@.phase == LinkPhase::AwaitLookup && final(self)@.next == 0
                },
                LinkEvent::Found(Some(tag_id)) => action == (LinkAction::Link {
                    image_id: old(self)@.image_id,
                    tag_id,
                }) && final(self)@.next == old(self)@.next,
                LinkEvent::Found(None) => if old(self)@.create_unknown {
                    (action matches LinkAction::Create(t) && t@ == old(self)@.tags[old(
                        self,
                    )@.next]) && final(self)@.next == old(self)@.next
                } else {
                    action == LinkAction::Rollback(ServerError::CreateUnknownTag)
                        && final(self)@.phase == LinkPhase::RolledBack
                },
                LinkEvent::Created(tag_id) => action == (LinkAction::Link {
                    image_id: old(self)@.image_id,
                    tag_id,
                }) && final(self)@.next == old(self)@.next,
                LinkEvent::Linked => final(self)@.next == old(self)@.next + 1 && if old(
                    self,
                )@.next + 1 < old(self)@.tags.len() {
                    action matches LinkAction::LookUp(t) && t@ == old(self)@.tags[old(
                        self,
                    )@.next + 1]
                } else {
                    action is Commit
                },
            },
    {
        proof {
            use_type_invariant(&*self);
        }
        match event {
            LinkEvent::Start => {
                if self.tags.len() == 0 {
                    self.at = Progress { next: self.at.next, phase: LinkPhase::Committed };
                    LinkAction::Commit
                } else {
                    self.at = Progress { next: self.at.next, phase: LinkPhase::AwaitLookup };
                    self.look_up_current()
                }
            },
            LinkEvent::Found(Some(tag_id)) => {
                self.at = Progress { next: self.at.next, phase: LinkPhase::AwaitLink };
                LinkAction::Link { image_id: self.image_id, tag_id }
            },
            LinkEvent::Found(None) => {
                if self.create_unknown {
                    self.at = Progress { next: self.at.next, phase: LinkPhase::AwaitCreate };
                    LinkAction::Create(self.tags[self.at.next].clone())
                } else {
                    self.at = Progress { next: self.at.next, phase: LinkPhase::RolledBack };
                    LinkAction::Rollback(ServerError::CreateUnknownTag)
                }
            },
            LinkEvent::Created(tag_id) => {
                self.at = Progress { next: self.at.next, phase: LinkPhase::AwaitLink };
                LinkAction::Link { image_id: self.image_id, tag_id }
            },
            LinkEvent::Linked => {
                assert(self@.tags.len() == self.tags@.len());
                assert(self@.phase == LinkPhase::AwaitLink);
                assert(self.at.next < self.tags.len());
                if self.at.next + 1 < self.tags.len() {
                    self.at = Progress { next: self.at.next + 1, phase: LinkPhase::AwaitLookup };
                    self.look_up_current()
                } else {
                    self.at = Progress { next: self.at.next + 1, phase: LinkPhase::Committed };
                    LinkAction::Commit
                }
            },
        }
    }
}

/// Whether the linking in state `s` accepts each of `events` in turn.
pub open spec fn run_accepted(s: LinkerView, events: Seq<LinkEvent>) -> bool
    decreases events.len(),
{
    events.len() == 0 || (expects(s, events[0]) && run_accepted(
        link_transition(s, events[0]),
        events.drop_first(),
    ))
}

/// The state reached from `s` through `events`.
pub open spec fn run_end(s: LinkerView, events: Seq<LinkEvent>) -> LinkerView
    decreases events.len(),
{
    if events.len() == 0 {
        s
    } else {
        run_end(link_transition(s, events[0]), events.drop_first())
    }
}

/// How many of `events` report a stored link.
pub open spec fn links_in(events: Seq<LinkEvent>) -> nat
    decreases events.len(),
{
    if events.len() == 0 {
        0
    } else {
        (if events[0] == LinkEvent::Linked {
            1nat
        } else {
            0nat
        }) + links_in(events.drop_first())
    }
}

/// An unknown tag is created only when the settings allow it: otherwise, at
/// whatever tag the linking stands, finding no tag rolls the transaction back
/// with `CreateUnknownTag`, and no statement it asks for creates a tag.
pub proof fn lemma_unknown_tag_without_creation_rolls_back(s: LinkerView, event: LinkEvent, action: LinkAction)
    ensures
        !s.create_unknown ==> link_transition(s, LinkEvent::Found(None)).phase
            == LinkPhase::RolledBack,
        s.create_unknown ==> link_transition(s, LinkEvent::Found(None)).phase
            == LinkPhase::AwaitCreate,
        !s.create_unknown && link_action_matches(s, LinkEvent::Found(None), action) ==> action
            == LinkAction::Rollback(ServerError::CreateUnknownTag),
        !s.create_unknown && link_action_matches(s, event, action) ==> !(action is Create),
        link_transition(s, event).create_unknown == s.create_unknown,
        link_transition(s, event).tags == s.tags,
        link_transition(s, event).image_id == s.image_id,
{
}

/// Each link stored moves the linking to the next tag, and no other answer
/// does; the linking commits once the last tag is linked.
pub proof fn lemma_linked_moves_to_next_tag(s: LinkerView, event: LinkEvent)
    ensures
        event == LinkEvent::Linked ==> link_transition(s, event).next == s.next + 1,
        event != LinkEvent::Linked ==> link_transition(s, event).next == s.next,
        event == LinkEvent::Linked && s.next + 1 >= s.tags.len() ==> link_transition(
            s,
            event,
        ).phase == LinkPhase::Committed,
        event == LinkEvent::Linked && s.next + 1 < s.tags.len() ==> link_transition(
            s,
            event,
        ).phase == LinkPhase::AwaitLookup,
{
}

/// An expected event keeps the linking consistent.
pub proof fn lemma_transition_consistent(s: LinkerView, event: LinkEvent)
    requires
        linker_consistent(s),
        expects(s, event),
    ensures
        linker_consistent(link_transition(s, event)),
{
}

/// Along an accepted run the linking stays consistent, keeps its image, tags
/// and settings, and moves one tag further for each stored link.
pub proof fn lemma_run_progress(s: LinkerView, events: Seq<LinkEvent>)
    requires
        linker_consistent(s),
        run_accepted(s, events),
    ensures
        linker_consistent(run_end(s, events)),
        run_end(s, events).next == s.next + links_in(events),
        run_end(s, events).tags == s.tags,
        run_end(s, events).image_id == s.image_id,
        run_end(s, events).create_unknown == s.create_unknown,
    decreases events.len(),
{
    if events.len() > 0 {
        lemma_transition_consistent(s, events[0]);
        lemma_run_progress(link_transition(s, events[0]), events.drop_first());
    }
}

/// A linking commits only after storing exactly one link for each of its tags.
pub proof fn lemma_commit_links_every_tag(s: LinkerView, events: Seq<LinkEvent>)
    requires
        s.phase == LinkPhase::Ready,
        linker_consistent(s),
        run_accepted(s, events),
        run_end(s, events).phase == LinkPhase::Committed,
    ensures
        links_in(events) == s.tags.len(),
{
    lemma_run_progress(s, events);
}

/// A linking that may create tags never rolls back.
pub proof fn lemma_creating_never_rolls_back(s: LinkerView, events: Seq<LinkEvent>)
    requires
        s.create_unknown,
        s.phase != LinkPhase::RolledBack,
        run_accepted(s, events),
    ensures
        run_end(s, events).phase != LinkPhase::RolledBack,
    decreases events.len(),
{
    if events.len() > 0 {
        lemma_creating_never_rolls_back(link_transition(s, events[0]), events.drop_first());
    }
}

/// Once committed or rolled back, a linking accepts no further event.
pub proof fn lemma_finished_accepts_nothing(s: LinkerView, event: LinkEvent)
    requires
        s.phase == LinkPhase::Committed || s.phase == LinkPhase::RolledBack,
    ensures
        !expects(s, event),
{
}

} // verus!
