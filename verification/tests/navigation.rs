use cardauthor::keys::Direction;
use cardauthor::keys::MyKey;
use cardauthor::logic::DepState;
use cardauthor::logic::NewCard;
use cardauthor::logic::TextSelect;
use cardauthor::store::setup_schema;

fn fresh_editor() -> (rusqlite::Connection, NewCard) {
    let conn = rusqlite::Connection::open_in_memory().unwrap();
    setup_schema(&conn).unwrap();
    let ed = NewCard::new(&conn, DepState::Plain).unwrap();
    (conn, ed)
}

fn focus_after(start: TextSelect, dir: Direction) -> TextSelect {
    let (_conn, mut ed) = fresh_editor();
    ed.selection = start;
    ed.navigate(dir);
    ed.selection
}

#[test]
fn initial_focus_is_question() {
    let (_conn, ed) = fresh_editor();
    assert_eq!(ed.selection, TextSelect::Question);
}

#[test]
fn listed_transitions_move_focus() {
    assert_eq!(focus_after(TextSelect::Question, Direction::Right), TextSelect::Topic);
    assert_eq!(focus_after(TextSelect::Question, Direction::Down), TextSelect::Answer);
    assert_eq!(focus_after(TextSelect::Answer, Direction::Up), TextSelect::Question);
    assert_eq!(focus_after(TextSelect::Answer, Direction::Right), TextSelect::Topic);
    assert_eq!(focus_after(TextSelect::Topic, Direction::Left), TextSelect::Question);
}

#[test]
fn every_other_pair_is_a_noop() {
    let all_states = [
        TextSelect::Question,
        TextSelect::Answer,
        TextSelect::Topic,
        TextSelect::ChooseCard,
    ];
    let all_dirs = [Direction::Up, Direction::Down, Direction::Left, Direction::Right];
    for s in all_states {
        for d in all_dirs {
            let moved = matches!(
                (s, d),
                (TextSelect::Question, Direction::Right)
                    | (TextSelect::Question, Direction::Down)
                    | (TextSelect::Answer, Direction::Up)
                    | (TextSelect::Answer, Direction::Right)
                    | (TextSelect::Topic, Direction::Left)
            );
            if !moved {
                assert_eq!(focus_after(s, d), s, "pair {:?} {:?} must not move", s, d);
            }
        }
    }
}

#[test]
fn plain_keys_do_not_move_focus() {
    let (conn, mut ed) = fresh_editor();
    ed.keyhandler(&conn, MyKey::Char('x')).unwrap();
    assert_eq!(ed.selection, TextSelect::Question);
    assert_eq!(ed.question.return_text(), "x");
    ed.navigate(Direction::Down);
    ed.keyhandler(&conn, MyKey::Char('y')).unwrap();
    assert_eq!(ed.selection, TextSelect::Answer);
    assert_eq!(ed.answer.return_text(), "y");
    ed.keyhandler(&conn, MyKey::Backspace).unwrap();
    assert_eq!(ed.answer.return_text(), "");
}

#[test]
fn row_and_line_keys_do_nothing() {
    let (_conn, mut ed) = fresh_editor();
    ed.question.replace_text("kept".to_string());
    ed.uprow();
    ed.downrow();
    ed.home();
    ed.end();
    assert_eq!(ed.question.return_text(), "kept");
    assert_eq!(ed.selection, TextSelect::Question);
}

#[test]
fn topic_selector_steps_and_stops_at_the_ends() {
    let conn = rusqlite::Connection::open_in_memory().unwrap();
    setup_schema(&conn).unwrap();
    conn.execute("INSERT INTO topics (id, name) VALUES (?1, ?2)", (1i64, "a")).unwrap();
    conn.execute("INSERT INTO topics (id, name) VALUES (?1, ?2)", (2i64, "b")).unwrap();
    let mut ed = NewCard::new(&conn, DepState::Plain).unwrap();
    assert_eq!(ed.topics.get_selected_id(), Some(1));
    ed.navigate(Direction::Right);
    ed.keyhandler(&conn, MyKey::Char('j')).unwrap();
    assert_eq!(ed.topics.get_selected_id(), Some(2));
    ed.keyhandler(&conn, MyKey::Char('j')).unwrap();
    assert_eq!(ed.topics.get_selected_id(), Some(2));
    ed.keyhandler(&conn, MyKey::Char('k')).unwrap();
    assert_eq!(ed.topics.get_selected_id(), Some(1));
    ed.keyhandler(&conn, MyKey::Char('k')).unwrap();
    assert_eq!(ed.topics.get_selected_id(), Some(1));
}
