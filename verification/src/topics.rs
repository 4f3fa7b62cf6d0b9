use vstd::prelude::*;

use crate::card::TopicID;
use crate::keys::MyKey;

verus! {

/// Where the selection cursor of a topic list stands after one key:
/// `j` moves down, `k` moves up, either one enters the list at its first
/// entry when nothing is selected yet, and both stop at the ends. Every
/// other key leaves the selection alone. An empty list never has a
/// selection.
pub open spec fn spec_sel_after_key(len: nat, sel: Option<usize>, key: MyKey) -> Option<usize> {
    match key {
        MyKey::Char(c) => if c == 'j' {
            spec_next_sel(len, sel)
        } else if c == 'k' {
            spec_prev_sel(len, sel)
        } else {
            sel
        },
        _ => sel,
    }
}

/// The selection one step down: enters at the first entry, then moves
/// towards the last and stays there.
pub open spec fn spec_next_sel(len: nat, sel: Option<usize>) -> Option<usize> {
    if len == 0 {
        None
    } else {
        match sel {
            None => Some(0usize),
            Some(i) => if i + 1 < len {
                Some((i + 1) as usize)
            } else {
                Some(i)
            },
        }
    }
}

/// The selection one step up: enters at the first entry, then moves
/// towards the first and stays there.
pub open spec fn spec_prev_sel(len: nat, sel: Option<usize>) -> Option<usize> {
    if len == 0 {
        None
    } else {
        match sel {
            None => Some(0usize),
            Some(i) => if i > 0 {
                Some((i - 1) as usize)
            } else {
                Some(i)
            },
        }
    }
}

/// The navigable list of topics the user can file a plain card under.
/// It holds the topic ids the store knows and an optional selection cursor.
pub struct TopicList {
    topics: Vec<TopicID>,
    selected: Option<usize>,
}

impl TopicList {
    /// The topic ids, in list order.
    pub closed spec fn spec_topics(&self) -> Seq<TopicID> {
        self.topics@
    }

    /// The selection cursor.
    pub closed spec fn spec_selected(&self) -> Option<usize> {
        self.selected
    }

    /// A selection, when there is one, points into the list.
    pub open spec fn wf(&self) -> bool {
        match self.spec_selected() {
            Some(i) => i < self.spec_topics().len(),
            None => true,
        }
    }

    /// The id the selection stands on, if any.
    pub open spec fn spec_selected_id(&self) -> Option<TopicID> {
        match self.spec_selected() {
            Some(i) => Some(self.spec_topics()[i as int]),
            None => None,
        }
    }

    /// A fresh list over the given ids, with nothing selected yet.
    pub fn new(topics: Vec<TopicID>) -> (r: TopicList)
        ensures
            r.spec_topics() == topics@,
            r.spec_selected() is None,
            r.wf(),
    {
        TopicList { topics, selected: None }
    }

    /// How many topics the list holds.
    pub fn len(&self) -> (r: usize)
        ensures
            r as nat == self.spec_topics().len(),
    {
        self.topics.len()
    }

    /// Moves the selection one step down (see `spec_next_sel`).
    pub fn next(&mut self)
        requires
            old(self).wf(),
        ensures
            final(self).wf(),
            final(self).spec_topics() == old(self).spec_topics(),
            final(self).spec_selected() == spec_next_sel(
                old(self).spec_topics().len(),
                old(self).spec_selected(),
            ),
    {
        if self.topics.len() == 0 {
            self.selected = None;
        } else {
            self.selected = match self.selected {
                None => Some(0),
                Some(i) => if i + 1 < self.topics.len() {
                    Some(i + 1)
                } else {
                    Some(i)
                },
            };
        }
    }

    /// Moves the selection one step up (see `spec_prev_sel`).
    pub fn prev(&mut self)
        requires
            old(self).wf(),
        ensures
            final(self).wf(),
            final(self).spec_topics() == old(self).spec_topics(),
            final(self).spec_selected() == spec_prev_sel(
                old(self).spec_topics().len(),
                old(self).spec_selected(),
            ),
    {
        if self.topics.len() == 0 {
            self.selected = None;
        } else {
            self.selected = match self.selected {
                None => Some(0),
                Some(i) => if i > 0 {
                    Some(i - 1)
                } else {
                    Some(i)
                },
            };
        }
    }

    /// The currently selected topic id, or `None` when nothing is selected.
    pub fn get_selected_id(&self) -> (r: Option<TopicID>)
        requires
            self.wf(),
        ensures
            r == self.spec_selected_id(),
    {
        match self.selected {
            Some(i) => Some(self.topics[i]),
            None => None,
        }
    }

    /// Applies one key to the list: exactly `spec_sel_after_key`. This is
    /// a selection move only; the topics themselves never change.
    pub fn keyhandler(&mut self, key: MyKey)
        requires
            old(self).wf(),
        ensures
            final(self).wf(),
            final(self).spec_topics() == old(self).spec_topics(),
            final(self).spec_selected() == spec_sel_after_key(
                old(self).spec_topics().len(),
                old(self).spec_selected(),
                key,
            ),
    {
        match key {
            MyKey::Char(c) => {
                if c == 'j' {
                    self.next();
                } else if c == 'k' {
                    self.prev();
                }
            },
            _ => {},
        }
    }
}

} // verus!
