//! A bounded list of user-facing notifications.
use vstd::prelude::*;
use std::collections::VecDeque;
use crate::queue::{keep_last, push_bounded};

verus! {

broadcast use vstd::std_specs::vecdeque::group_vec_dequeue_axioms;

/// How important a notification is.
#[derive(Debug, Clone, Copy, PartialEq, Eq, Structural)]
pub enum NotificationLevel {
    Info,
    Warning,
    Error,
    Success,
}

/// A notification shown to the user.
#[derive(Debug, Clone)]
pub struct Notification {
    pub id: String,
    pub level: NotificationLevel,
    pub message: String,
    pub source: String,
}

pub struct NotificationView {
    pub id: Seq<char>,
    pub level: NotificationLevel,
    pub message: Seq<char>,
    pub source: Seq<char>,
}

impl View for Notification {
    type V = NotificationView;

    open spec fn view(&self) -> NotificationView {
        NotificationView { id: self.id@, level: self.level, message: self.message@, source: self.source@ }
    }
}

/// Keeps the most recent notifications, oldest first, up to a maximum count.
pub struct NotificationManager {
    notifications: VecDeque<Notification>,
    max_size: usize,
}

impl NotificationManager {
    /// The notifications held, oldest first.
    pub closed spec fn held(&self) -> Seq<NotificationView> {
        self.notifications@.map_values(|n: Notification| n@)
    }

    /// How many notifications are kept at most.
    pub closed spec fn capacity(&self) -> nat {
        self.max_size as nat
    }

    /// An empty list keeping at most `max_size` notifications.
    pub fn new(max_size: usize) -> (m: NotificationManager)
        ensures
            m.held().len() == 0,
            m.capacity() == max_size,
    {
        let m = NotificationManager { notifications: VecDeque::new(), max_size };
        assert(m.held() =~= Seq::<NotificationView>::empty());
        m
    }

    /// Adds a notification, dropping the oldest ones beyond the capacity.
    pub fn push(&mut self, notification: Notification)
        ensures
            final(self).held() == keep_last(old(self).held().push(notification@), old(self).capacity()),
            final(self).capacity() == old(self).capacity(),
    {
        let ghost before = self.notifications@;
        let ghost nv = notification@;
        push_bounded(&mut self.notifications, notification, self.max_size);
        proof {
            let pushed = before.push(notification);
            assert(pushed.map_values(|n: Notification| n@) =~= old(self).held().push(nv));
            if pushed.len() > self.max_size {
                assert(self.held() =~= keep_last(old(self).held().push(nv), self.max_size as nat));
            } else {
                assert(self.held() =~= old(self).held().push(nv));
            }
        }
    }

    /// Copies of all notifications, oldest first.
    pub fn list(&self) -> (r: Vec<Notification>)
        ensures
            r@.map_values(|n: Notification| n@) == self.held(),
    {
        let mut r: Vec<Notification> = Vec::new();
        let mut i: usize = 0;
        while i < self.notifications.len()
            invariant
                i <= self.notifications@.len(),
                r@.len() == i,
                forall|j: int| 0 <= j < i ==> (#[trigger] r@[j])@ == self.held()[j],
            decreases self.notifications@.len() - i,
        {
            let n = &self.notifications[i];
            r.push(Notification {
                id: n.id.clone(),
                level: n.level,
                message: n.message.clone(),
                source: n.source.clone(),
            });
            i = i + 1;
        }
        assert(r@.map_values(|n: Notification| n@) =~= self.held());
        r
    }

    /// Removes every notification.
    pub fn clear(&mut self)
        ensures
            final(self).held().len() == 0,
            final(self).capacity() == old(self).capacity(),
    {
        self.notifications.clear();
    }
}

/// Law: after a push the list is within its capacity, and when the capacity is positive the
/// pushed notification is the newest one held.
pub proof fn lemma_push_keeps_newest(held: Seq<NotificationView>, n: NotificationView, max: nat)
    ensures
        keep_last(held.push(n), max).len() <= max || keep_last(held.push(n), max) == held.push(n),
        held.len() < max ==> keep_last(held.push(n), max) == held.push(n),
        max > 0 ==> keep_last(held.push(n), max).last() == n,
{
}

} // verus!
