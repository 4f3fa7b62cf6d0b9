use vstd::prelude::*;

verus! {

/// Identifier of a persisted card.
pub type CardID = u64;

/// Identifier of a source reading item a card can be derived from.
pub type IncID = u64;

/// Identifier of a topic, the category a card is filed under.
pub type TopicID = u64;

/// Completion status of a card: a finished card enters review with default
/// scheduling metadata, an unfinished one carries none.
#[derive(Clone, Copy, PartialEq, Eq, Structural, Debug)]
pub enum CardType {
    Finished,
    Unfinished,
}

/// The kind of a graph edge written alongside a new card.
#[derive(Clone, Copy, PartialEq, Eq, Structural, Debug)]
pub enum EdgeKind {
    Dependency,
    Dependent,
}

/// A directed relation from the card being created to an existing card.
#[derive(Clone, Copy, PartialEq, Eq, Structural, Debug)]
pub struct Edge {
    pub kind: EdgeKind,
    pub target: CardID,
}

/// Everything one submission persists: the card row and its graph edges.
/// Built only at submission time and handed to the store as one unit.
pub struct PendingCard {
    pub question: String,
    pub answer: String,
    pub topic: TopicID,
    pub source: Option<IncID>,
    pub cardtype: CardType,
    pub edges: Vec<Edge>,
}

impl PendingCard {
    /// One submission derives the card either from a source item or from
    /// sibling cards, never from both.
    pub open spec fn wf(&self) -> bool {
        !(self.source is Some && self.edges@.len() > 0)
    }
}

/// The edges a list of referenced card ids gives rise to: one edge of the
/// given kind per id, in the order of the list.
pub open spec fn edge_seq(kind: EdgeKind, ids: Seq<CardID>) -> Seq<Edge> {
    Seq::new(ids.len(), |i: int| Edge { kind, target: ids[i] })
}

/// Builds one edge of the given kind per referenced id, in order.
pub fn make_edges(kind: EdgeKind, ids: &Vec<CardID>) -> (r: Vec<Edge>)
    ensures
        r@ == edge_seq(kind, ids@),
{
    let mut out: Vec<Edge> = Vec::new();
    let mut i: usize = 0;
    while i < ids.len()
        invariant
            i <= ids@.len(),
            out@.len() == i as nat,
            forall|j: int| 0 <= j < i ==> out@[j] == (Edge { kind, target: ids@[j] }),
        decreases ids@.len() - i,
    {
        out.push(Edge { kind, target: ids[i] });
        i = i + 1;
    }
    proof {
        assert(out@ =~= edge_seq(kind, ids@));
    }
    out
}

/// The completion status that a submission flag selects.
pub open spec fn spec_cardtype(iscompleted: bool) -> CardType {
    if iscompleted {
        CardType::Finished
    } else {
        CardType::Unfinished
    }
}

} // verus!
