use monsoon::dashboard::{cell, App, Cell, Effect, Key, ResponseStatus};
use monsoon::{Client, Exchange, Header, Params, Reply};

#[test]
fn a_new_dashboard_shows_the_first_tab() {
    let app = App::new(2);
    assert_eq!(app.locations(), 2);
    assert_eq!(app.current_location_idx(), 0);
    assert!(!app.should_quit());
    assert!(app.use_images());
}

#[test]
fn the_tabs_end_on_both_sides() {
    let mut app = App::new(3);
    assert_eq!(app.on_left(), 0);
    assert_eq!(app.on_right(), 1);
    assert_eq!(app.on_right(), 2);
    assert_eq!(app.on_right(), 2);
    assert_eq!(app.current_location_idx(), 2);
    assert_eq!(app.on_left(), 1);
    assert_eq!(app.on_left(), 0);
    assert_eq!(app.on_left(), 0);
    let mut single = App::new(1);
    assert_eq!(single.on_right(), 0);
    assert_eq!(single.on_left(), 0);
}

#[test]
fn q_quits_and_i_turns_the_images() {
    let mut app = App::new(2);
    app.on_key('x');
    assert_eq!(app, App::new(2));
    app.on_key('i');
    assert!(!app.use_images());
    app.on_key('i');
    assert!(app.use_images());
    app.on_key('Q');
    assert!(!app.should_quit());
    app.on_key('q');
    assert!(app.should_quit());
    app.on_key('q');
    assert!(app.should_quit());
    assert_eq!(app.current_location_idx(), 0);
}

#[test]
fn each_key_has_its_effect() {
    let mut app = App::new(2);
    assert_eq!(app.on_input(Key::Right), Effect { clear: true, load: Some(1) });
    assert_eq!(app.on_input(Key::Right), Effect { clear: true, load: Some(1) });
    assert_eq!(app.on_input(Key::Left), Effect { clear: true, load: Some(0) });
    assert_eq!(app.on_input(Key::Char('i')), Effect { clear: true, load: None });
    assert!(!app.use_images());
    assert_eq!(app.on_input(Key::Char('z')), Effect { clear: true, load: None });
    assert_eq!(app.on_input(Key::Other), Effect { clear: false, load: None });
    assert!(!app.should_quit());
    assert_eq!(app.on_input(Key::Char('q')), Effect { clear: true, load: None });
    assert!(app.should_quit());
}

#[test]
fn symbols_are_images_where_there_is_one() {
    for column in 1..=4 {
        assert_eq!(cell(true, 1, column, true), Cell::Image);
        assert_eq!(cell(true, 7, column, false), Cell::Plain);
        assert_eq!(cell(false, 1, column, true), Cell::Styled { bold: false });
        assert_eq!(cell(true, 0, column, true), Cell::Styled { bold: true });
    }
}

#[test]
fn headings_are_bold() {
    for use_images in [true, false] {
        for has_image in [true, false] {
            assert_eq!(cell(use_images, 0, 0, has_image), Cell::Styled { bold: true });
            assert_eq!(cell(use_images, 3, 0, has_image), Cell::Styled { bold: true });
            assert_eq!(cell(use_images, 0, 5, has_image), Cell::Styled { bold: true });
            assert_eq!(cell(use_images, 3, 5, has_image), Cell::Styled { bold: false });
            assert_eq!(cell(use_images, 3, 7, has_image), Cell::Styled { bold: false });
        }
    }
}

#[test]
fn a_fetch_settles_the_status() {
    assert!(!ResponseStatus::NotLoaded.is_loaded());
    assert!(!ResponseStatus::NotLoaded.is_settled());

    let failed = ResponseStatus::settled(Err("no route".to_string()));
    assert_eq!(failed, ResponseStatus::Error("no route".to_string()));
    assert!(!failed.is_loaded());
    assert!(failed.is_settled());

    let reply = Reply {
        status: 200,
        reason: String::new(),
        headers: vec![
            Header::new("expires", "Tue, 1 Jul 2003 10:52:37 +0200"),
            Header::new("last-modified", "Tue, 01 Jul 2003 08:22:37 GMT"),
        ],
        body: Some("{}".to_string()),
    };
    let params = Params::new(50.0f64.to_bits(), 14.0f64.to_bits(), None).unwrap();
    let record = Client::dispatch(params, Exchange::Replied(reply)).unwrap();
    let loaded = ResponseStatus::settled(Ok(record.clone()));
    assert_eq!(loaded, ResponseStatus::Loaded(record));
    assert!(loaded.is_loaded());
    assert!(loaded.is_settled());
}
