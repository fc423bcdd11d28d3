use vstd::prelude::*;
use vstd::string::*;
use std::collections::VecDeque;
use crate::errno::{spec_errno_of, Errno};
use crate::errors::{PropErrno, PropErrnoParams};
use crate::paths::{label, spec_label};

verus! {

/// The most notifications kept; older ones are dropped first.
pub const MAX_NOTIFICATIONS: usize = 25;

/// What a user decided for an entry that conflicts at the destination.
#[derive(Debug, Clone, Copy, PartialEq, Eq, PartialOrd, Ord, Hash, Structural)]
pub enum Decision {
    /// Waiting for the user; the initial state.
    NeedInput,
    /// Leave the entry out.
    Skip,
    /// Replace what is at the destination.
    Replace,
}

/// The choices offered to the user for a conflict.
#[derive(Debug, Clone, Copy, PartialEq, Eq, PartialOrd, Ord, Hash, Structural)]
pub enum UserDecision {
    Skip,
    SkipAll,
    Replace,
    ReplaceAll,
}

/// The same three states, for entries set aside until decided.
#[derive(Debug, Clone, Copy, PartialEq, Eq, PartialOrd, Ord, Hash, Structural)]
pub enum EntryDecision {
    NeedInput,
    Skip,
    Replace,
}

/// Where a user decision for one entry leads.
pub open spec fn spec_resolve(d: UserDecision) -> Decision {
    match d {
        UserDecision::Skip | UserDecision::SkipAll => Decision::Skip,
        UserDecision::Replace | UserDecision::ReplaceAll => Decision::Replace,
    }
}

/// Whether a user decision also applies to later conflicts.
pub open spec fn spec_applies_to_all(d: UserDecision) -> bool {
    d == UserDecision::SkipAll || d == UserDecision::ReplaceAll
}

/// An entry waiting for a decision: it exists at the destination already, or
/// it was changed there.
pub enum DecisionEntry {
    Duplicate(String, Decision),
    Modified(String, Decision),
}

impl DecisionEntry {
    pub open spec fn spec_decision(&self) -> Decision {
        match self {
            DecisionEntry::Duplicate(_, d) => *d,
            DecisionEntry::Modified(_, d) => *d,
        }
    }

    pub open spec fn spec_path(&self) -> Seq<char> {
        match self {
            DecisionEntry::Duplicate(p, _) => p@,
            DecisionEntry::Modified(p, _) => p@,
        }
    }

    pub open spec fn is_duplicate(&self) -> bool {
        self is Duplicate
    }

    /// The same entry with the user's decision applied.
    pub fn update_decision(self, decision: UserDecision) -> (r: DecisionEntry)
        ensures
            r.spec_decision() == spec_resolve(decision),
            r.spec_path() == self.spec_path(),
            r.is_duplicate() == self.is_duplicate(),
    {
        let d = match decision {
            UserDecision::Skip => Decision::Skip,
            UserDecision::SkipAll => Decision::Skip,
            UserDecision::Replace => Decision::Replace,
            UserDecision::ReplaceAll => Decision::Replace,
        };
        match self {
            DecisionEntry::Duplicate(entry, _) => DecisionEntry::Duplicate(entry, d),
            DecisionEntry::Modified(entry, _) => DecisionEntry::Modified(entry, d),
        }
    }
}

/// How serious a notification is.
#[derive(Debug, Clone, Copy, PartialEq, Eq, Hash, Structural)]
pub enum NotificationKind {
    Info,
    Warning,
    Error,
}

/// What the user can do about a notification.
#[derive(Debug, Clone, PartialEq, Eq)]
pub enum NotificationAction {
    /// Nothing to do.
    NoAction,
    /// Pick one of up to four options.
    Select([Option<String>; 4]),
    /// Resolve a duplicate.
    Duplicate,
}

/// A message for the user.
#[derive(Debug, Clone, PartialEq, Eq)]
pub struct Notification {
    id: Option<u8>,
    title: String,
    body: String,
    kind: NotificationKind,
    action: NotificationAction,
}

impl Notification {
    pub closed spec fn spec_id(&self) -> Option<u8> {
        self.id
    }

    pub closed spec fn spec_title(&self) -> Seq<char> {
        self.title@
    }

    pub closed spec fn spec_body(&self) -> Seq<char> {
        self.body@
    }

    pub closed spec fn spec_kind(&self) -> NotificationKind {
        self.kind
    }

    pub closed spec fn spec_action(&self) -> NotificationAction {
        self.action
    }

    pub fn new(title: String, body: String, kind: NotificationKind) -> (r: Notification)
        ensures
            r.spec_id() is None,
            r.spec_title() == title@,
            r.spec_body() == body@,
            r.spec_kind() == kind,
            r.spec_action() is NoAction,
    {
        Notification { id: None, title, body, kind, action: NotificationAction::NoAction }
    }

    pub fn new_action(
        title: String,
        body: String,
        kind: NotificationKind,
        action: NotificationAction,
    ) -> (r: Notification)
        ensures
            r.spec_id() is None,
            r.spec_title() == title@,
            r.spec_body() == body@,
            r.spec_kind() == kind,
            r.spec_action() == action,
    {
        Notification { id: None, title, body, kind, action }
    }

    /// An error notification for a user-visible error: the title is the
    /// error code after `title_`, the body the code.
    pub fn new_from_errno(errno: Errno) -> (r: Notification)
        ensures
            r.spec_id() is None,
            r.spec_title() == "title_"@ + errno.view().code,
            r.spec_body() == errno.view().code,
            r.spec_kind() == NotificationKind::Error,
            r.spec_action() is NoAction,
    {
        let code = errno.code();
        let title = String::from_str("title_").concat(code.as_str());
        Notification::new(title, code, NotificationKind::Error)
    }

    /// An error notification for an error of a task from `src` to `dst`.
    pub fn new_from_properrno(properrno: PropErrno, src: &str, dst: &str) -> (r: Notification)
        ensures
            r.is_error_report(properrno, spec_label(src@), spec_label(dst@)),
    {
        let mut params = PropErrnoParams::new_with_src_and_dst(label(src), label(dst));
        let errno = Errno::from_prop_errno(properrno, &mut params);
        Notification::new_from_errno(errno)
    }

    /// The notification reporting `e` for a task between the locations
    /// labelled `src` and `dst`: an error whose title is the error code after
    /// `title_` and whose body is the code, with no id and no action.
    pub open spec fn is_error_report(&self, e: PropErrno, src: Seq<char>, dst: Seq<char>) -> bool {
        &&& self.spec_title() == "title_"@ + spec_errno_of(e, src, dst).code
        &&& self.spec_body() == spec_errno_of(e, src, dst).code
        &&& self.spec_kind() == NotificationKind::Error
        &&& self.spec_id() is None
        &&& self.spec_action() is NoAction
    }

    pub fn id(&self) -> (r: &Option<u8>)
        ensures
            *r == self.spec_id(),
    {
        &self.id
    }

    pub fn set_id(&mut self, id: u8)
        ensures
            final(self).spec_id() == Some(id),
            final(self).spec_title() == old(self).spec_title(),
            final(self).spec_body() == old(self).spec_body(),
            final(self).spec_kind() == old(self).spec_kind(),
            final(self).spec_action() == old(self).spec_action(),
    {
        self.id = Some(id);
    }

    pub fn title(&self) -> (r: &String)
        ensures
            r@ == self.spec_title(),
    {
        &self.title
    }

    pub fn body(&self) -> (r: &String)
        ensures
            r@ == self.spec_body(),
    {
        &self.body
    }

    pub fn kind(&self) -> (r: &NotificationKind)
        ensures
            *r == self.spec_kind(),
    {
        &self.kind
    }

    pub fn action(&self) -> (r: &NotificationAction)
        ensures
            *r == self.spec_action(),
    {
        &self.action
    }
}

/// The notifications for the user, oldest first and at most
/// `MAX_NOTIFICATIONS` of them, and at most one entry waiting for a decision.
pub struct NotificationManager {
    notifications: VecDeque<Notification>,
    decision_entry: Option<DecisionEntry>,
    default_decision: Option<Decision>,
}

impl NotificationManager {
    pub closed spec fn spec_notifications(&self) -> Seq<Notification> {
        self.notifications@
    }

    pub closed spec fn spec_decision_entry(&self) -> Option<DecisionEntry> {
        self.decision_entry
    }

    /// The decision applied to later conflicts without asking, once the user
    /// chose one for all.
    pub closed spec fn spec_default_decision(&self) -> Option<Decision> {
        self.default_decision
    }

    pub open spec fn wf(&self) -> bool {
        self.spec_notifications().len() <= MAX_NOTIFICATIONS
    }

    pub fn new() -> (r: NotificationManager)
        ensures
            r.wf(),
            r.spec_notifications() == Seq::<Notification>::empty(),
            r.spec_decision_entry() is None,
            r.spec_default_decision() is None,
    {
        NotificationManager {
            notifications: VecDeque::new(),
            decision_entry: None,
            default_decision: None,
        }
    }

    /// Drops every notification and the waiting entry.
    pub fn clear(&mut self)
        ensures
            final(self).wf(),
            final(self).spec_notifications() == Seq::<Notification>::empty(),
            final(self).spec_decision_entry() is None,
            final(self).spec_default_decision() == old(self).spec_default_decision(),
    {
        self.notifications.clear();
        self.decision_entry = None;
    }

    /// Adds a notification at the back, dropping the oldest when full.
    pub fn push(&mut self, notification: Notification)
        requires
            old(self).wf(),
        ensures
            final(self).wf(),
            final(self).spec_notifications() == (if old(self).spec_notifications().len()
                >= MAX_NOTIFICATIONS {
                old(self).spec_notifications().drop_first()
            } else {
                old(self).spec_notifications()
            }).push(notification),
            final(self).spec_decision_entry() == old(self).spec_decision_entry(),
            final(self).spec_default_decision() == old(self).spec_default_decision(),
    {
        if self.notifications.len() >= MAX_NOTIFICATIONS {
            self.notifications.pop_front();
        }
        self.notifications.push_back(notification);
    }

    pub fn len(&self) -> (r: usize)
        ensures
            r == self.spec_notifications().len(),
    {
        self.notifications.len()
    }

    /// The notification at `i`, oldest first.
    pub fn get(&self, i: usize) -> (r: &Notification)
        requires
            i < self.spec_notifications().len(),
        ensures
            *r == self.spec_notifications()[i as int],
    {
        &self.notifications[i]
    }

    pub fn has_user_decision(&self) -> (r: bool)
        ensures
            r == self.spec_decision_entry() is Some,
    {
        self.decision_entry.is_some()
    }

    /// Sets an entry aside for the user's decision. Where the user already
    /// decided for all, the entry comes back decided; where another entry is
    /// waiting, it comes back undecided; otherwise it waits.
    pub fn add_decision_entry(&mut self, entry: DecisionEntry) -> (r: Option<DecisionEntry>)
        requires
            entry.spec_decision() == Decision::NeedInput,
        ensures
            final(self).spec_notifications() == old(self).spec_notifications(),
            final(self).spec_default_decision() == old(self).spec_default_decision(),
            match old(self).spec_default_decision() {
                Some(d) => final(self).spec_decision_entry() == old(self).spec_decision_entry()
                    && (r matches Some(e) && e.spec_decision() == d && e.spec_path()
                    == entry.spec_path() && e.is_duplicate() == entry.is_duplicate()),
                None => if old(self).spec_decision_entry() is None {
                    final(self).spec_decision_entry() == Some(entry) && r is None
                } else {
                    final(self).spec_decision_entry() == old(self).spec_decision_entry() && r
                        == Some(entry)
                },
            },
    {
        if let Some(d) = self.default_decision {
            let resolved = match entry {
                DecisionEntry::Duplicate(p, _) => DecisionEntry::Duplicate(p, d),
                DecisionEntry::Modified(p, _) => DecisionEntry::Modified(p, d),
            };
            return Some(resolved);
        }
        if self.decision_entry.is_none() {
            self.decision_entry = Some(entry);
            None
        } else {
            Some(entry)
        }
    }

    /// Sets aside an entry that already exists at the destination.
    pub fn add_duplicate_decision_entry(&mut self, path: String) -> (r: Option<DecisionEntry>)
        ensures
            final(self).spec_notifications() == old(self).spec_notifications(),
            final(self).spec_default_decision() == old(self).spec_default_decision(),
            match old(self).spec_default_decision() {
                Some(d) => final(self).spec_decision_entry() == old(self).spec_decision_entry()
                    && (r matches Some(DecisionEntry::Duplicate(p, x)) && x == d && p@ == path@),
                None => if old(self).spec_decision_entry() is None {
                    final(self).spec_decision_entry() == Some(
                        DecisionEntry::Duplicate(path, Decision::NeedInput),
                    ) && r is None
                } else {
                    final(self).spec_decision_entry() == old(self).spec_decision_entry() && r
                        == Some(DecisionEntry::Duplicate(path, Decision::NeedInput))
                },
            },
    {
        self.add_decision_entry(DecisionEntry::Duplicate(path, Decision::NeedInput))
    }

    /// Sets aside an entry that was changed at the destination.
    pub fn add_modified_decision_entry(&mut self, path: String) -> (r: Option<DecisionEntry>)
        ensures
            final(self).spec_notifications() == old(self).spec_notifications(),
            final(self).spec_default_decision() == old(self).spec_default_decision(),
            match old(self).spec_default_decision() {
                Some(d) => final(self).spec_decision_entry() == old(self).spec_decision_entry()
                    && (r matches Some(DecisionEntry::Modified(p, x)) && x == d && p@ == path@),
                None => if old(self).spec_decision_entry() is None {
                    final(self).spec_decision_entry() == Some(
                        DecisionEntry::Modified(path, Decision::NeedInput),
                    ) && r is None
                } else {
                    final(self).spec_decision_entry() == old(self).spec_decision_entry() && r
                        == Some(DecisionEntry::Modified(path, Decision::NeedInput))
                },
            },
    {
        self.add_decision_entry(DecisionEntry::Modified(path, Decision::NeedInput))
    }

    pub fn decision_entry(&self) -> (r: &Option<DecisionEntry>)
        ensures
            *r == self.spec_decision_entry(),
    {
        &self.decision_entry
    }

    /// Applies the user's decision to the waiting entry and hands it back; a
    /// decision for all also becomes the default for later conflicts.
    pub fn update_decision(&mut self, decision: UserDecision) -> (r: Option<DecisionEntry>)
        ensures
            final(self).spec_notifications() == old(self).spec_notifications(),
            final(self).spec_decision_entry() is None,
            final(self).spec_default_decision() == (if spec_applies_to_all(decision) {
                Some(spec_resolve(decision))
            } else {
                old(self).spec_default_decision()
            }),
            match old(self).spec_decision_entry() {
                Some(e) => r matches Some(x) && x.spec_decision() == spec_resolve(decision)
                    && x.spec_path() == e.spec_path() && x.is_duplicate() == e.is_duplicate(),
                None => r is None,
            },
    {
        match decision {
            UserDecision::SkipAll => {
                self.default_decision = Some(Decision::Skip);
            },
            UserDecision::ReplaceAll => {
                self.default_decision = Some(Decision::Replace);
            },
            _ => {},
        }
        match self.decision_entry.take() {
            Some(entry) => Some(entry.update_decision(decision)),
            None => None,
        }
    }
}

} // verus!
