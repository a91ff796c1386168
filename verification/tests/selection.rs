use db_dashboard::app::App;
use db_dashboard::rows::Row;

fn three_rows() -> Vec<Row> {
    vec![
        Row {
            name: String::from("a"),
            user: String::from("b"),
            engine: String::from("c"),
        },
        Row {
            name: String::from("d"),
            user: String::from("e"),
            engine: String::from("f"),
        },
        Row {
            name: String::from("g"),
            user: String::from("h"),
            engine: String::from("i"),
        },
    ]
}

#[test]
fn new_selects_first_row() {
    let app = App::new();
    assert_eq!(app.items.len(), 3);
    assert_eq!(app.selected, Some(0));
    assert_eq!(app.items[0].name, "Banco de Dados 1");
    assert_eq!(app.items[0].user, "Usuario 1");
    assert_eq!(app.items[0].engine, "MySQL");
    assert_eq!(app.items[1].name, "Banco de Dados 2");
    assert_eq!(app.items[1].user, "Usuario 2");
    assert_eq!(app.items[1].engine, "PostgreSQL");
    assert_eq!(app.items[2].name, "Banco de Dados 3");
    assert_eq!(app.items[2].user, "Usuario 3");
    assert_eq!(app.items[2].engine, "Sqlite");
}

#[test]
fn retreat_from_start_wraps_to_last() {
    let mut app = App::new();
    app.previous();
    assert_eq!(app.selected, Some(2));
}

#[test]
fn advance_from_last_wraps_to_start() {
    let mut app = App {
        items: three_rows(),
        selected: Some(2),
    };
    app.next();
    assert_eq!(app.selected, Some(0));
}

#[test]
fn advance_three_times_returns_to_start() {
    let mut app = App::new();
    app.next();
    app.next();
    app.next();
    assert_eq!(app.selected, Some(0));
}

#[test]
fn advance_then_retreat_returns() {
    let mut app = App {
        items: three_rows(),
        selected: Some(1),
    };
    app.next();
    app.previous();
    assert_eq!(app.selected, Some(1));
    app.previous();
    app.next();
    assert_eq!(app.selected, Some(1));
}

#[test]
fn next_from_unset_selects_first() {
    let mut app = App {
        items: three_rows(),
        selected: None,
    };
    app.next();
    assert_eq!(app.selected, Some(0));
}

#[test]
fn previous_from_unset_selects_first() {
    let mut app = App {
        items: three_rows(),
        selected: None,
    };
    app.previous();
    assert_eq!(app.selected, Some(0));
}

#[test]
fn action_reports_without_mutation() {
    let mut app = App::new();
    app.next();
    app.previous();
    app.next();
    let before = app.selected;
    assert_eq!(app.action(), before);
    assert_eq!(app.selected, before);
    assert_eq!(app.action(), before);
    assert_eq!(app.selected, before);
}

#[test]
fn action_with_no_selection() {
    let mut app = App {
        items: three_rows(),
        selected: None,
    };
    assert_eq!(app.action(), None);
    assert_eq!(app.selected, None);
}

#[test]
fn check_wf_accepts_fresh_state() {
    let app = App::new();
    assert!(app.check_wf());
}

#[test]
fn check_wf_rejects_empty_or_out_of_range() {
    let empty = App {
        items: Vec::new(),
        selected: None,
    };
    assert!(!empty.check_wf());
    let out_of_range = App {
        items: three_rows(),
        selected: Some(3),
    };
    assert!(!out_of_range.check_wf());
}
