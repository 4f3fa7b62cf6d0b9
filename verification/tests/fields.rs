use cardauthor::card::CardType;
use cardauthor::card::Edge;
use cardauthor::card::EdgeKind;
use cardauthor::card::make_edges;
use cardauthor::errors::ConstructionError;
use cardauthor::keys::MyKey;
use cardauthor::logic::DepState;
use cardauthor::logic::assemble_card;
use cardauthor::logic::build_prompt;
use cardauthor::logic::resolve_topic;
use cardauthor::newchild::Purpose;
use cardauthor::newchild::add_prompt;
use cardauthor::newchild::assemble_linked_card;
use cardauthor::textinput::Field;
use cardauthor::topics::TopicList;

#[test]
fn field_editing_appends_and_removes() {
    let mut f = Field::new();
    assert_eq!(f.return_text(), "");
    f.keyhandler(MyKey::Char('h'));
    f.keyhandler(MyKey::Char('i'));
    assert_eq!(f.return_text(), "hi");
    f.keyhandler(MyKey::Backspace);
    assert_eq!(f.return_text(), "h");
    f.keyhandler(MyKey::Backspace);
    f.keyhandler(MyKey::Backspace);
    assert_eq!(f.return_text(), "");
    f.keyhandler(MyKey::Alt('f'));
    assert_eq!(f.return_text(), "");
    f.replace_text("whole".to_string());
    assert_eq!(f.return_text(), "whole");
}

#[test]
fn empty_topic_list_never_selects() {
    let mut l = TopicList::new(Vec::new());
    assert_eq!(l.get_selected_id(), None);
    l.next();
    assert_eq!(l.get_selected_id(), None);
    l.prev();
    assert_eq!(l.get_selected_id(), None);
    assert_eq!(l.len(), 0);
}

#[test]
fn topic_list_enters_at_the_first_entry() {
    let mut l = TopicList::new(vec![4, 5, 6]);
    assert_eq!(l.get_selected_id(), None);
    l.prev();
    assert_eq!(l.get_selected_id(), Some(4));
    let mut l = TopicList::new(vec![4, 5, 6]);
    l.next();
    assert_eq!(l.get_selected_id(), Some(4));
    l.next();
    assert_eq!(l.get_selected_id(), Some(5));
    l.prev();
    assert_eq!(l.get_selected_id(), Some(4));
}

#[test]
fn make_edges_builds_one_edge_per_id_in_order() {
    assert_eq!(make_edges(EdgeKind::Dependency, &Vec::new()), Vec::new());
    let e = make_edges(EdgeKind::Dependent, &vec![3, 1, 3]);
    assert_eq!(
        e,
        vec![
            Edge { kind: EdgeKind::Dependent, target: 3 },
            Edge { kind: EdgeKind::Dependent, target: 1 },
            Edge { kind: EdgeKind::Dependent, target: 3 },
        ]
    );
}

#[test]
fn resolve_topic_prefers_the_inherited_topic() {
    assert_eq!(resolve_topic(&DepState::Plain, None, Some(3)), Some(3));
    assert_eq!(resolve_topic(&DepState::Plain, Some(9), None), None);
    assert_eq!(resolve_topic(&DepState::NewChild(5), Some(9), Some(3)), Some(9));
    assert_eq!(resolve_topic(&DepState::NewDependency(5), None, Some(3)), None);
}

#[test]
fn build_prompt_composes_or_refuses() {
    let p = build_prompt(&DepState::Plain, None).unwrap();
    assert_eq!(p, "Add new card");
    let q = "Q?".to_string();
    let p = build_prompt(&DepState::NewDependency(8), Some(&q)).unwrap();
    assert_eq!(p, "Add new dependency for Q?");
    let r = build_prompt(&DepState::NewChild(8), None);
    assert_eq!(r, Err(ConstructionError::MissingSource(8)));
}

#[test]
fn add_prompt_composes_or_refuses() {
    let t = "title".to_string();
    let p = add_prompt(&Purpose::Source(2), Some(&t)).unwrap();
    assert_eq!(p, "Add new child of source: title");
    let r = add_prompt(&Purpose::Dependent(vec![6, 7]), None);
    assert_eq!(r, Err(ConstructionError::MissingCard(6)));
}

#[test]
fn assemble_card_carries_exactly_the_context() {
    let c = assemble_card("q".to_string(), "a".to_string(), 3, &DepState::Plain, true);
    assert_eq!(c.question, "q");
    assert_eq!(c.answer, "a");
    assert_eq!(c.topic, 3);
    assert_eq!(c.source, None);
    assert_eq!(c.cardtype, CardType::Finished);
    assert_eq!(c.edges, Vec::new());

    let c = assemble_card("q".to_string(), "a".to_string(), 7, &DepState::NewChild(5), false);
    assert_eq!(c.source, Some(5));
    assert_eq!(c.cardtype, CardType::Unfinished);
    assert_eq!(c.edges, Vec::new());

    let c = assemble_card("q".to_string(), "a".to_string(), 7, &DepState::NewDependent(42), true);
    assert_eq!(c.source, None);
    assert_eq!(c.edges, vec![Edge { kind: EdgeKind::Dependent, target: 42 }]);
}

#[test]
fn assemble_linked_card_carries_exactly_the_purpose() {
    let c = assemble_linked_card(
        "q".to_string(),
        "a".to_string(),
        6,
        &Purpose::Dependency(vec![11, 12]),
        true,
    );
    assert_eq!(c.topic, 6);
    assert_eq!(c.source, None);
    assert_eq!(
        c.edges,
        vec![
            Edge { kind: EdgeKind::Dependency, target: 11 },
            Edge { kind: EdgeKind::Dependency, target: 12 },
        ]
    );

    let c = assemble_linked_card("q".to_string(), "a".to_string(), 6, &Purpose::Source(5), false);
    assert_eq!(c.source, Some(5));
    assert_eq!(c.edges, Vec::new());
}
