use vstd::prelude::*;

use vstd::string::StringExecFns;

use crate::card::CardID;
use crate::card::CardType;
use crate::card::Edge;
use crate::card::EdgeKind;
use crate::card::IncID;
use crate::card::PendingCard;
use crate::card::TopicID;
use crate::card::spec_cardtype;
use crate::errors::ConstructionError;
use crate::errors::StorageError;
use crate::errors::SubmitError;
use crate::keys::Direction;
use crate::keys::MyKey;
use crate::prompt::compose_prompt;
use crate::prompt::is_match_at;
use crate::prompt::lemma_concat_prefix;
use crate::prompt::lemma_prompt_contains_reference_once;
use crate::prompt::lemma_self_prefix;
use crate::store::fetch_card_question;
use crate::store::get_topic_of_card;
use crate::store::get_topic_of_inc;
use crate::store::load_inc_title;
use crate::store::load_topic_ids;
use crate::store::write_pending;
use crate::textinput::Field;
use crate::textinput::spec_field_after_key;
use crate::topics::TopicList;
use crate::topics::spec_next_sel;
use crate::topics::spec_sel_after_key;

verus! {

/// Why the card being edited is created: on its own, as a dependent or a
/// dependency of an existing card, or as a child of a source reading item.
/// The context decides the screen's header, where the topic comes from at
/// submission, and which graph edge is written.
#[derive(Clone, Copy, PartialEq, Eq, Structural, Debug)]
pub enum DepState {
    Plain,
    NewDependent(CardID),
    NewDependency(CardID),
    NewChild(IncID),
}

/// Which of the editor's regions currently receives key input.
#[derive(Clone, Copy, PartialEq, Eq, Structural, Debug)]
pub enum TextSelect {
    Question,
    Answer,
    Topic,
    ChooseCard,
}

/// The focus transition table. Five pairs move the focus; every other
/// (focus, direction) pair leaves it where it is.
pub open spec fn next_focus(sel: TextSelect, dir: Direction) -> TextSelect {
    match (sel, dir) {
        (TextSelect::Question, Direction::Right) => TextSelect::Topic,
        (TextSelect::Question, Direction::Down) => TextSelect::Answer,
        (TextSelect::Answer, Direction::Up) => TextSelect::Question,
        (TextSelect::Answer, Direction::Right) => TextSelect::Topic,
        (TextSelect::Topic, Direction::Left) => TextSelect::Question,
        _ => sel,
    }
}

/// Any (focus, direction) pair outside the five listed transitions leaves
/// the focus unchanged.
pub proof fn lemma_navigation_noop(sel: TextSelect, dir: Direction)
    requires
        !(sel is Question && dir is Right),
        !(sel is Question && dir is Down),
        !(sel is Answer && dir is Up),
        !(sel is Answer && dir is Right),
        !(sel is Topic && dir is Left),
    ensures
        next_focus(sel, dir) == sel,
{
}

/// The fixed part of the screen header each context carries.
pub open spec fn spec_prompt_prefix(state: DepState) -> Seq<char> {
    match state {
        DepState::Plain => "Add new card"@,
        DepState::NewDependency(_) => "Add new dependency for "@,
        DepState::NewDependent(_) => "Add new dependent of: "@,
        DepState::NewChild(_) => "Add new child of source: "@,
    }
}

/// The construction error a context's dangling reference gives rise to.
pub open spec fn spec_missing_error(state: DepState) -> ConstructionError {
    match state {
        DepState::NewDependency(id) => ConstructionError::MissingCard(id),
        DepState::NewDependent(id) => ConstructionError::MissingCard(id),
        DepState::NewChild(id) => ConstructionError::MissingSource(id),
        DepState::Plain => ConstructionError::MissingCard(0),
    }
}

/// Derives the screen header from the context and the looked-up reference
/// text (the referenced card's question, or the source's truncated title).
/// It fails exactly when the context references something and the lookup
/// found nothing: the workflow is never entered around a dangling
/// reference.
pub fn build_prompt(state: &DepState, looked: Option<&String>) -> (r: Result<
    String,
    ConstructionError,
>)
    ensures
        (r is Err) <==> (!(state is Plain) && looked is None),
        r matches Err(e) ==> e == spec_missing_error(*state),
        r matches Ok(p) ==> match *state {
            DepState::Plain => p@ == spec_prompt_prefix(*state),
            _ => looked matches Some(t) && p@ == spec_prompt_prefix(*state) + t@,
        },
{
    match state {
        DepState::Plain => Ok(String::from_str("Add new card")),
        DepState::NewDependency(idx) => match looked {
            Some(t) => Ok(compose_prompt("Add new dependency for ", t.as_str())),
            None => Err(ConstructionError::MissingCard(*idx)),
        },
        DepState::NewDependent(idx) => match looked {
            Some(t) => Ok(compose_prompt("Add new dependent of: ", t.as_str())),
            None => Err(ConstructionError::MissingCard(*idx)),
        },
        DepState::NewChild(id) => match looked {
            Some(t) => Ok(compose_prompt("Add new child of source: ", t.as_str())),
            None => Err(ConstructionError::MissingSource(*id)),
        },
    }
}

/// A context's full label contains the looked-up reference text exactly
/// once — right after the fixed part, and nowhere else — as long as the
/// text does not also occur in the label starting earlier (as a text such
/// as "for " would).
pub proof fn lemma_label_contains_reference_once(state: DepState, text: Seq<char>)
    requires
        !(state is Plain),
        text.len() > 0,
        forall|j: int|
            0 <= j < spec_prompt_prefix(state).len() ==> !is_match_at(
                spec_prompt_prefix(state) + text,
                text,
                j,
            ),
    ensures
        is_match_at(
            spec_prompt_prefix(state) + text,
            text,
            spec_prompt_prefix(state).len() as int,
        ),
        forall|j: int|
            is_match_at(spec_prompt_prefix(state) + text, text, j) ==> j == spec_prompt_prefix(
                state,
            ).len(),
{
    lemma_prompt_contains_reference_once(spec_prompt_prefix(state), text);
}

/// Which topic one submission resolves to: a context that inherits a topic
/// uses the inherited one and ignores the selector, so graph-linked cards
/// stay co-located with their parent; only a plain card uses the selector's
/// current selection.
pub open spec fn spec_resolved_topic(
    state: DepState,
    inherited: Option<TopicID>,
    selected: Option<TopicID>,
) -> Option<TopicID> {
    match state {
        DepState::Plain => selected,
        _ => inherited,
    }
}

/// The resolved topic of a submission: exactly `spec_resolved_topic`.
pub fn resolve_topic(
    state: &DepState,
    inherited: Option<TopicID>,
    selected: Option<TopicID>,
) -> (r: Option<TopicID>)
    ensures
        r == spec_resolved_topic(*state, inherited, selected),
{
    match state {
        DepState::Plain => selected,
        _ => inherited,
    }
}

/// For a context that references other material, the resolved topic is the
/// inherited one, whatever the selector shows — two submissions that differ
/// only in the selection resolve alike.
pub proof fn lemma_inherited_topic_overrides_selector(
    state: DepState,
    inherited: Option<TopicID>,
    s1: Option<TopicID>,
    s2: Option<TopicID>,
)
    requires
        !(state is Plain),
    ensures
        spec_resolved_topic(state, inherited, s1) == inherited,
        spec_resolved_topic(state, inherited, s1) == spec_resolved_topic(state, inherited, s2),
{
}

/// The graph edges one context gives rise to.
pub open spec fn spec_edges_of(state: DepState) -> Seq<Edge> {
    match state {
        DepState::NewDependency(id) => seq![Edge { kind: EdgeKind::Dependency, target: id }],
        DepState::NewDependent(id) => seq![Edge { kind: EdgeKind::Dependent, target: id }],
        _ => Seq::empty(),
    }
}

/// The source item one context derives the card from.
pub open spec fn spec_source_of(state: DepState) -> Option<IncID> {
    match state {
        DepState::NewChild(id) => Some(id),
        _ => None,
    }
}

/// Assembles the record one submission persists: the entered texts, the
/// resolved topic, and the source and edges the context dictates.
pub fn assemble_card(
    question: String,
    answer: String,
    topic: TopicID,
    state: &DepState,
    iscompleted: bool,
) -> (r: PendingCard)
    ensures
        r.question == question,
        r.answer == answer,
        r.topic == topic,
        r.source == spec_source_of(*state),
        r.edges@ == spec_edges_of(*state),
        r.cardtype == spec_cardtype(iscompleted),
        r.wf(),
{
    let source = match state {
        DepState::NewChild(id) => Some(*id),
        _ => None,
    };
    let mut edges: Vec<Edge> = Vec::new();
    match state {
        DepState::NewDependency(id) => edges.push(Edge { kind: EdgeKind::Dependency, target: *id }),
        DepState::NewDependent(id) => edges.push(Edge { kind: EdgeKind::Dependent, target: *id }),
        _ => {},
    }
    let cardtype = if iscompleted {
        CardType::Finished
    } else {
        CardType::Unfinished
    };
    proof {
        assert(edges@ =~= spec_edges_of(*state));
    }
    PendingCard { question, answer, topic, source, cardtype, edges }
}

/// The interactive card editor: a screen header, the question and answer
/// fields, the creation context, the topic selector, and the focus cursor.
pub struct NewCard {
    pub prompt: String,
    pub question: Field,
    pub answer: Field,
    pub state: DepState,
    pub topics: TopicList,
    pub selection: TextSelect,
}

impl NewCard {
    /// The editor is well formed when its topic selector is.
    pub open spec fn wf(&self) -> bool {
        self.topics.wf()
    }

    /// A freshly constructed editor: empty fields, focus on the question,
    /// the topic list at its default selection (its first entry, when it
    /// has one), and the context's header — exactly the fixed label for a
    /// plain context, which references nothing.
    pub open spec fn is_fresh_for(&self, state: DepState) -> bool {
        &&& self.question@.len() == 0
        &&& self.answer@.len() == 0
        &&& self.state == state
        &&& self.selection is Question
        &&& self.topics.spec_selected() == spec_next_sel(self.topics.spec_topics().len(), None)
        &&& spec_prompt_prefix(state).is_prefix_of(self.prompt@)
        &&& state is Plain ==> self.prompt@ == spec_prompt_prefix(state)
    }

    /// A brand-new editor for the given context. The context's reference is
    /// looked up for the header; a dangling reference fails construction,
    /// before any editing can happen. A plain context references nothing
    /// and always constructs.
    pub fn new(conn: &rusqlite::Connection, state: DepState) -> (r: Result<
        NewCard,
        ConstructionError,
    >)
        ensures
            r matches Ok(ed) ==> ed.wf() && ed.is_fresh_for(state),
            r matches Err(e) ==> !(state is Plain) && e == spec_missing_error(state),
            state is Plain ==> r is Ok,
    {
        let looked: Option<String> = match &state {
            DepState::Plain => None,
            DepState::NewDependency(idx) => fetch_card_question(conn, *idx),
            DepState::NewDependent(idx) => fetch_card_question(conn, *idx),
            DepState::NewChild(id) => load_inc_title(conn, *id, 15),
        };
        let prompt = match build_prompt(&state, looked.as_ref()) {
            Ok(p) => p,
            Err(e) => {
                return Err(e);
            },
        };
        proof {
            if state is Plain {
                lemma_self_prefix(spec_prompt_prefix(state));
            } else {
                lemma_concat_prefix(spec_prompt_prefix(state), looked->Some_0@);
            }
        }
        let mut topics = TopicList::new(load_topic_ids(conn));
        topics.next();
        Ok(
            NewCard {
                prompt,
                question: Field::new(),
                answer: Field::new(),
                state,
                topics,
                selection: TextSelect::Question,
            },
        )
    }

    /// Moves the focus by one directional key: exactly `next_focus`.
    /// Nothing else about the editor changes.
    pub fn navigate(&mut self, dir: Direction)
        ensures
            final(self).selection == next_focus(old(self).selection, dir),
            final(self).prompt == old(self).prompt,
            final(self).question == old(self).question,
            final(self).answer == old(self).answer,
            final(self).state == old(self).state,
            final(self).topics == old(self).topics,
    {
        match (self.selection, dir) {
            (TextSelect::Question, Direction::Right) => self.selection = TextSelect::Topic,
            (TextSelect::Question, Direction::Down) => self.selection = TextSelect::Answer,
            (TextSelect::Answer, Direction::Up) => self.selection = TextSelect::Question,
            (TextSelect::Answer, Direction::Right) => self.selection = TextSelect::Topic,
            (TextSelect::Topic, Direction::Left) => self.selection = TextSelect::Question,
            (_, _) => {},
        }
    }

    /// Submits the edited card. The topic is the selector's choice for a
    /// plain card and the inherited one for every other context; the card
    /// and its edges are written as one unit. On success the editor is
    /// replaced wholesale by a fresh plain-context one, so no text leaks
    /// into the next card; on any failure it is left untouched.
    pub fn submit_card(&mut self, conn: &rusqlite::Connection, iscompleted: bool) -> (r: Result<
        (),
        SubmitError,
    >)
        requires
            old(self).wf(),
        ensures
            final(self).wf(),
            (r == Err::<(), SubmitError>(SubmitError::NoTopicSelected)) <==> (old(self).state
                is Plain && old(self).topics.spec_selected_id() is None),
            r matches Err(SubmitError::Storage(c)) ==> c is MissingReference || c is WriteFailed,
            old(self).state is Plain ==> !(r == Err::<(), SubmitError>(
                SubmitError::Storage(StorageError::MissingReference),
            )),
            r is Err ==> *final(self) == *old(self),
            r is Ok ==> final(self).is_fresh_for(DepState::Plain),
    {
        let inherited: Option<TopicID> = match &self.state {
            DepState::Plain => None,
            DepState::NewDependency(id) => get_topic_of_card(conn, *id),
            DepState::NewDependent(id) => get_topic_of_card(conn, *id),
            DepState::NewChild(id) => get_topic_of_inc(conn, *id),
        };
        let selected = self.topics.get_selected_id();
        let topic = match resolve_topic(&self.state, inherited, selected) {
            Some(t) => t,
            None => {
                if matches!(self.state, DepState::Plain) {
                    return Err(SubmitError::NoTopicSelected);
                } else {
                    return Err(SubmitError::Storage(StorageError::MissingReference));
                }
            },
        };
        let question = self.question.return_text();
        let answer = self.answer.return_text();
        let card = assemble_card(question, answer, topic, &self.state, iscompleted);
        match write_pending(conn, &card) {
            Ok(_) => {},
            Err(e) => {
                return Err(SubmitError::Storage(e));
            },
        }
        *self = NewCard::fresh_plain(conn);
        Ok(())
    }

    /// A brand-new plain-context editor: what every successful submission
    /// resets to.
    pub fn fresh_plain(conn: &rusqlite::Connection) -> (r: NewCard)
        ensures
            r.wf(),
            r.is_fresh_for(DepState::Plain),
    {
        let prompt = String::from_str("Add new card");
        proof {
            lemma_self_prefix(spec_prompt_prefix(DepState::Plain));
        }
        let mut topics = TopicList::new(load_topic_ids(conn));
        topics.next();
        NewCard {
            prompt,
            question: Field::new(),
            answer: Field::new(),
            state: DepState::Plain,
            topics,
            selection: TextSelect::Question,
        }
    }

    /// Routes one key: a directional key moves the focus, the submission
    /// shortcuts submit, and every other key goes to whichever region owns
    /// the focus — a dispatch that never moves the focus itself.
    pub fn keyhandler(&mut self, conn: &rusqlite::Connection, key: MyKey) -> (r: Result<
        (),
        SubmitError,
    >)
        requires
            old(self).wf(),
        ensures
            final(self).wf(),
            key matches MyKey::Nav(dir) ==> r is Ok && final(self).selection == next_focus(
                old(self).selection,
                dir,
            ),
            !(key is Nav) && !(key == MyKey::Alt('f')) && !(key == MyKey::Alt('u')) ==> {
                &&& r is Ok
                &&& final(self).selection == old(self).selection
                &&& final(self).state == old(self).state
                &&& final(self).prompt == old(self).prompt
                &&& final(self).question@ == (if old(self).selection is Question {
                    spec_field_after_key(old(self).question@, key)
                } else {
                    old(self).question@
                })
                &&& final(self).answer@ == (if old(self).selection is Answer {
                    spec_field_after_key(old(self).answer@, key)
                } else {
                    old(self).answer@
                })
                &&& final(self).topics.spec_topics() == old(self).topics.spec_topics()
                &&& final(self).topics.spec_selected() == (if old(self).selection is Topic {
                    spec_sel_after_key(
                        old(self).topics.spec_topics().len(),
                        old(self).topics.spec_selected(),
                        key,
                    )
                } else {
                    old(self).topics.spec_selected()
                })
            },
            key == MyKey::Alt('f') || key == MyKey::Alt('u') ==> {
                &&& (r == Err::<(), SubmitError>(SubmitError::NoTopicSelected) <==> (old(
                    self,
                ).state is Plain && old(self).topics.spec_selected_id() is None))
                &&& (r is Err ==> *final(self) == *old(self))
                &&& (r is Ok ==> final(self).is_fresh_for(DepState::Plain))
            },
    {
        match (self.selection, key) {
            (_, MyKey::Nav(dir)) => {
                self.navigate(dir);
                Ok(())
            },
            (_, MyKey::Alt('f')) => self.submit_card(conn, true),
            (_, MyKey::Alt('u')) => self.submit_card(conn, false),
            (TextSelect::Question, k) => {
                self.question.keyhandler(k);
                Ok(())
            },
            (TextSelect::Answer, k) => {
                self.answer.keyhandler(k);
                Ok(())
            },
            (TextSelect::Topic, k) => {
                self.topics.keyhandler(k);
                Ok(())
            },
            (_, _) => Ok(()),
        }
    }

    /// The tab's title in the hosting screen's tab bar.
    pub fn get_title(&self) -> (r: String)
        ensures
            r@ == "Add card"@,
    {
        String::from_str("Add card")
    }

    /// The tab's help text.
    pub fn get_manual(&self) -> (r: String)
        ensures
            r@.len() > 0,
    {
        proof {
            reveal_strlit(
                "Topic of card is as selected in the topic widget. Upper textbox is question, lower is answer. Add card as finished: Alt+f. Add card as unfinished: Alt+u.",
            );
        }
        String::from_str(
            "Topic of card is as selected in the topic widget. Upper textbox is question, lower is answer. Add card as finished: Alt+f. Add card as unfinished: Alt+u.",
        )
    }

    /// Cursor movement within a line is owned by the text widget, not by
    /// this workflow; these four are part of the tab's key surface and
    /// deliberately do nothing.
    pub fn uprow(&mut self)
        ensures
            *final(self) == *old(self),
    {
    }

    /// See `uprow`.
    pub fn downrow(&mut self)
        ensures
            *final(self) == *old(self),
    {
    }

    /// See `uprow`.
    pub fn home(&mut self)
        ensures
            *final(self) == *old(self),
    {
    }

    /// See `uprow`.
    pub fn end(&mut self)
        ensures
            *final(self) == *old(self),
    {
    }
}

} // verus!
