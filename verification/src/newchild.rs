use vstd::prelude::*;

use vstd::string::StringExecFns;

use crate::card::CardID;
use crate::card::CardType;
use crate::card::Edge;
use crate::card::EdgeKind;
use crate::card::IncID;
use crate::card::PendingCard;
use crate::card::TopicID;
use crate::card::edge_seq;
use crate::card::make_edges;
use crate::card::spec_cardtype;
use crate::errors::ConstructionError;
use crate::errors::StorageError;
use crate::errors::SubmitError;
use crate::keys::MyKey;
use crate::prompt::compose_prompt;
use crate::prompt::is_match_at;
use crate::prompt::lemma_concat_prefix;
use crate::prompt::lemma_prompt_contains_reference_once;
use crate::store::fetch_card_question;
use crate::store::get_topic_of_card;
use crate::store::get_topic_of_inc;
use crate::store::load_inc_title;
use crate::store::write_pending;
use crate::textinput::Field;

verus! {

/// Why the popup's card is being made: as a child of a source reading
/// item, or linked to a whole list of existing cards at once.
#[derive(Clone, PartialEq, Eq, Debug)]
pub enum Purpose {
    Source(IncID),
    Dependency(Vec<CardID>),
    Dependent(Vec<CardID>),
}

/// A linking purpose always references at least one card.
pub open spec fn purpose_wf(p: Purpose) -> bool {
    match p {
        Purpose::Dependency(ids) => ids@.len() > 0,
        Purpose::Dependent(ids) => ids@.len() > 0,
        Purpose::Source(_) => true,
    }
}

/// The fixed part of the popup's header each purpose carries.
pub open spec fn spec_purpose_prefix(p: Purpose) -> Seq<char> {
    match p {
        Purpose::Source(_) => "Add new child of source: "@,
        Purpose::Dependency(_) => "Add new dependency for "@,
        Purpose::Dependent(_) => "Add new dependent of: "@,
    }
}

/// The construction error a purpose's dangling reference gives rise to.
pub open spec fn spec_purpose_missing(p: Purpose) -> ConstructionError {
    match p {
        Purpose::Source(id) => ConstructionError::MissingSource(id),
        Purpose::Dependency(ids) => ConstructionError::MissingCard(ids[0]),
        Purpose::Dependent(ids) => ConstructionError::MissingCard(ids[0]),
    }
}

/// The graph edges one purpose gives rise to: one edge per referenced
/// card, of the matching kind, in the order the purpose lists them.
pub open spec fn spec_purpose_edges(p: Purpose) -> Seq<Edge> {
    match p {
        Purpose::Source(_) => Seq::empty(),
        Purpose::Dependency(ids) => edge_seq(EdgeKind::Dependency, ids@),
        Purpose::Dependent(ids) => edge_seq(EdgeKind::Dependent, ids@),
    }
}

/// The source item one purpose derives the card from.
pub open spec fn spec_purpose_source(p: Purpose) -> Option<IncID> {
    match p {
        Purpose::Source(id) => Some(id),
        _ => None,
    }
}

/// A purpose's full label contains the looked-up reference text exactly
/// once — right after the fixed part, and nowhere else — as long as the
/// text does not also occur in the label starting earlier.
pub proof fn lemma_popup_label_contains_reference_once(p: Purpose, text: Seq<char>)
    requires
        text.len() > 0,
        forall|j: int|
            0 <= j < spec_purpose_prefix(p).len() ==> !is_match_at(
                spec_purpose_prefix(p) + text,
                text,
                j,
            ),
    ensures
        is_match_at(spec_purpose_prefix(p) + text, text, spec_purpose_prefix(p).len() as int),
        forall|j: int|
            is_match_at(spec_purpose_prefix(p) + text, text, j) ==> j == spec_purpose_prefix(
                p,
            ).len(),
{
    lemma_prompt_contains_reference_once(spec_purpose_prefix(p), text);
}

/// A linked submission yields exactly one edge of the purpose's kind per
/// referenced card, in order.
pub proof fn lemma_linked_edges(kind: EdgeKind, ids: Seq<CardID>)
    ensures
        edge_seq(kind, ids).len() == ids.len(),
        forall|i: int|
            0 <= i < ids.len() ==> edge_seq(kind, ids)[i] == (Edge { kind, target: ids[i] }),
{
}

/// Derives the popup's header from the purpose and the looked-up reference
/// text (the first referenced card's question, or the source's truncated
/// title). Every purpose references something, so it fails exactly when
/// the lookup found nothing.
pub fn add_prompt(purpose: &Purpose, looked: Option<&String>) -> (r: Result<
    String,
    ConstructionError,
>)
    requires
        purpose_wf(*purpose),
    ensures
        (r is Err) <==> looked is None,
        r matches Err(e) ==> e == spec_purpose_missing(*purpose),
        r matches Ok(p) ==> looked matches Some(t) && p@ == spec_purpose_prefix(*purpose) + t@,
{
    match looked {
        Some(t) => match purpose {
            Purpose::Source(_) => Ok(compose_prompt("Add new child of source: ", t.as_str())),
            Purpose::Dependency(_) => Ok(compose_prompt("Add new dependency for ", t.as_str())),
            Purpose::Dependent(_) => Ok(compose_prompt("Add new dependent of: ", t.as_str())),
        },
        None => match purpose {
            Purpose::Source(id) => Err(ConstructionError::MissingSource(*id)),
            Purpose::Dependency(ids) => Err(ConstructionError::MissingCard(ids[0])),
            Purpose::Dependent(ids) => Err(ConstructionError::MissingCard(ids[0])),
        },
    }
}

/// Assembles the record one linked submission persists: the entered texts,
/// the inherited topic, and the source and edges the purpose dictates.
pub fn assemble_linked_card(
    question: String,
    answer: String,
    topic: TopicID,
    purpose: &Purpose,
    isfinished: bool,
) -> (r: PendingCard)
    ensures
        r.question == question,
        r.answer == answer,
        r.topic == topic,
        r.source == spec_purpose_source(*purpose),
        r.edges@ == spec_purpose_edges(*purpose),
        r.cardtype == spec_cardtype(isfinished),
        r.wf(),
{
    let source = match purpose {
        Purpose::Source(id) => Some(*id),
        _ => None,
    };
    let edges: Vec<Edge> = match purpose {
        Purpose::Dependency(ids) => make_edges(EdgeKind::Dependency, ids),
        Purpose::Dependent(ids) => make_edges(EdgeKind::Dependent, ids),
        Purpose::Source(_) => Vec::new(),
    };
    let cardtype = if isfinished {
        CardType::Finished
    } else {
        CardType::Unfinished
    };
    proof {
        assert(edges@ =~= spec_purpose_edges(*purpose));
    }
    PendingCard { question, answer, topic, source, cardtype, edges }
}

/// The popup for authoring a card that is linked from birth: to a source
/// reading item, or to a list of existing cards.
pub struct AddChildWidget {
    pub prompt: String,
    pub question: Field,
    pub answer: Field,
    pub purpose: Purpose,
}

impl AddChildWidget {
    /// A fresh popup for the given purpose. The purpose's reference is
    /// looked up for the header; a dangling reference fails construction
    /// before any editing can happen.
    pub fn new(conn: &rusqlite::Connection, purpose: Purpose) -> (r: Result<
        AddChildWidget,
        ConstructionError,
    >)
        requires
            purpose_wf(purpose),
        ensures
            r matches Ok(w) ==> w.question@.len() == 0 && w.answer@.len() == 0 && w.purpose
                == purpose && spec_purpose_prefix(purpose).is_prefix_of(w.prompt@),
            r matches Err(e) ==> e == spec_purpose_missing(purpose),
    {
        let looked: Option<String> = match &purpose {
            Purpose::Source(id) => load_inc_title(conn, *id, 15),
            Purpose::Dependency(ids) => fetch_card_question(conn, ids[0]),
            Purpose::Dependent(ids) => fetch_card_question(conn, ids[0]),
        };
        let prompt = match add_prompt(&purpose, looked.as_ref()) {
            Ok(p) => p,
            Err(e) => {
                return Err(e);
            },
        };
        proof {
            lemma_concat_prefix(spec_purpose_prefix(purpose), looked->Some_0@);
        }
        Ok(AddChildWidget { prompt, question: Field::new(), answer: Field::new(), purpose })
    }

    /// Submits the linked card. The topic is always inherited — from the
    /// source item, or from the first referenced card — never taken from
    /// any interactive selection, so a `NoTopicSelected` error can never
    /// come back; a dangling reference or a failed write is reported as a
    /// storage error, and the entered text is left untouched either way.
    pub fn submit_card(&self, conn: &rusqlite::Connection, isfinished: bool) -> (r: Result<
        (),
        SubmitError,
    >)
        requires
            purpose_wf(self.purpose),
        ensures
            r != Err::<(), SubmitError>(SubmitError::NoTopicSelected),
            r is Err ==> r == Err::<(), SubmitError>(
                SubmitError::Storage(StorageError::MissingReference),
            ) || r == Err::<(), SubmitError>(SubmitError::Storage(StorageError::WriteFailed)),
    {
        let inherited: Option<TopicID> = match &self.purpose {
            Purpose::Source(id) => get_topic_of_inc(conn, *id),
            Purpose::Dependency(ids) => get_topic_of_card(conn, ids[0]),
            Purpose::Dependent(ids) => get_topic_of_card(conn, ids[0]),
        };
        let topic = match inherited {
            Some(t) => t,
            None => {
                return Err(SubmitError::Storage(StorageError::MissingReference));
            },
        };
        let question = self.question.return_text();
        let answer = self.answer.return_text();
        let card = assemble_linked_card(question, answer, topic, &self.purpose, isfinished);
        match write_pending(conn, &card) {
            Ok(_) => Ok(()),
            Err(e) => Err(SubmitError::Storage(e)),
        }
    }

    /// The popup's title in the hosting screen.
    pub fn get_title(&self) -> (r: String)
        ensures
            r@ == "Add card"@,
    {
        String::from_str("Add card")
    }

    /// Routes one key: the submission shortcuts submit the card (finished
    /// for Alt+f, unfinished for Alt+u, leaving the popup itself alone);
    /// every other key goes to the field the hosting screen's layout points
    /// at, exactly as `field_key` says.
    pub fn keyhandler(&mut self, conn: &rusqlite::Connection, to_answer: bool, key: MyKey) -> (r:
        Result<(), SubmitError>)
        requires
            purpose_wf(old(self).purpose),
        ensures
            key == MyKey::Alt('f') || key == MyKey::Alt('u') ==> *final(self) == *old(self) && r
                != Err::<(), SubmitError>(SubmitError::NoTopicSelected),
            !(key == MyKey::Alt('f')) && !(key == MyKey::Alt('u')) ==> {
                &&& r is Ok
                &&& final(self).purpose == old(self).purpose
                &&& final(self).prompt == old(self).prompt
                &&& final(self).question@ == (if to_answer {
                    old(self).question@
                } else {
                    crate::textinput::spec_field_after_key(old(self).question@, key)
                })
                &&& final(self).answer@ == (if to_answer {
                    crate::textinput::spec_field_after_key(old(self).answer@, key)
                } else {
                    old(self).answer@
                })
            },
    {
        match key {
            MyKey::Alt('f') => self.submit_card(conn, true),
            MyKey::Alt('u') => self.submit_card(conn, false),
            k => {
                self.field_key(to_answer, k);
                Ok(())
            },
        }
    }

    /// Applies one key to the given field of the popup. Which field a key
    /// lands in is decided by the hosting screen's layout, so the caller
    /// names it; the submission shortcuts are the caller's to route to
    /// `submit_card` (or through `keyhandler`, which does both).
    pub fn field_key(&mut self, to_answer: bool, key: MyKey)
        ensures
            final(self).purpose == old(self).purpose,
            final(self).prompt == old(self).prompt,
            to_answer ==> final(self).answer@ == crate::textinput::spec_field_after_key(
                old(self).answer@,
                key,
            ) && final(self).question == old(self).question,
            !to_answer ==> final(self).question@ == crate::textinput::spec_field_after_key(
                old(self).question@,
                key,
            ) && final(self).answer == old(self).answer,
    {
        if to_answer {
            self.answer.keyhandler(key);
        } else {
            self.question.keyhandler(key);
        }
    }
}

} // verus!
