use card_search::{
    card_matches, cards_list, contains_chars, filter_cards, folded_name_matches, seed_cards, App,
    Card, SearchBox, MAX_LENGTH, STATUS_PREFIX,
};

fn names(cards: &[Card]) -> Vec<String> {
    cards.iter().map(|c| c.name.clone()).collect()
}

fn ids(cards: &[Card]) -> Vec<usize> {
    cards.iter().map(|c| c.id).collect()
}

#[test]
fn seed_list_holds_three_cards() {
    let cards = seed_cards();
    assert_eq!(ids(&cards), vec![0, 1, 2]);
    assert_eq!(names(&cards), vec!["Alexis", "Camille", "Jérémy"]);
}

#[test]
fn before_input_everything_is_shown() {
    let app = App::new(seed_cards());
    assert_eq!(app.items(), &seed_cards());
    assert_eq!(app.status_text(), None);
    assert_eq!(app.typed(), None);
}

#[test]
fn type_a_shows_alexis_and_camille() {
    let mut app = App::new(seed_cards());
    app.on_type("a".to_string());
    assert_eq!(names(app.items()), vec!["Alexis", "Camille"]);
    assert_eq!(ids(app.items()), vec![0, 1]);
    assert_eq!(app.status_text(), Some("Searching for: a".to_string()));
}

#[test]
fn type_xyz_shows_nothing() {
    let mut app = App::new(seed_cards());
    app.on_type("a".to_string());
    app.on_type("xyz".to_string());
    assert!(app.items().is_empty());
    assert_eq!(app.status_text(), Some("Searching for: xyz".to_string()));
}

#[test]
fn clear_field_shows_all() {
    let mut app = App::new(seed_cards());
    app.on_type("xyz".to_string());
    app.on_type(String::new());
    assert_eq!(app.items(), &seed_cards());
    assert_eq!(app.status_text(), Some("Searching for: ".to_string()));
    assert_eq!(app.typed(), Some(&String::new()));
}

#[test]
fn uppercase_query_does_not_match_jeremy() {
    let mut app = App::new(seed_cards());
    app.on_type("JÉRÉMY".to_string());
    assert!(app.items().is_empty());
    assert_eq!(app.status_text(), Some("Searching for: JÉRÉMY".to_string()));
    let jeremy = Card::new(2, "Jérémy".to_string());
    assert!(!card_matches(&jeremy, "JÉRÉMY"));
}

#[test]
fn lower_case_full_name_finds_that_card() {
    let found = filter_cards(&seed_cards(), "camille");
    assert_eq!(ids(&found), vec![1]);
    let found = filter_cards(&seed_cards(), "jérémy");
    assert_eq!(ids(&found), vec![2]);
}

#[test]
fn accented_letters_match_literally() {
    let found = filter_cards(&seed_cards(), "é");
    assert_eq!(ids(&found), vec![2]);
    let found = filter_cards(&seed_cards(), "jeremy");
    assert!(found.is_empty());
}

#[test]
fn empty_query_keeps_every_card() {
    let found = filter_cards(&seed_cards(), "");
    assert_eq!(found, seed_cards());
    assert!(filter_cards(&Vec::new(), "").is_empty());
}

#[test]
fn query_shared_by_no_card_gives_nothing() {
    assert!(filter_cards(&seed_cards(), "zz").is_empty());
}

#[test]
fn same_query_twice_shows_same_list() {
    let mut app = App::new(seed_cards());
    app.on_type("m".to_string());
    let first = app.items().clone();
    let first_status = app.status_text();
    app.on_type("m".to_string());
    assert_eq!(app.items(), &first);
    assert_eq!(app.status_text(), first_status);
    assert_eq!(ids(&first), vec![1, 2]);
}

#[test]
fn filtered_cards_keep_seed_order() {
    let cards = vec![
        Card::new(7, "Zoe".to_string()),
        Card::new(3, "Anna".to_string()),
        Card::new(5, "Bob".to_string()),
        Card::new(1, "Ozzy".to_string()),
    ];
    let found = filter_cards(&cards, "o");
    assert_eq!(ids(&found), vec![7, 5, 1]);
}

#[test]
fn name_is_folded_before_matching() {
    let card = Card::new(4, "ALEXIS".to_string());
    assert!(card_matches(&card, "alexis"));
    assert!(card_matches(&card, "lex"));
    assert!(!card_matches(&card, "LEX"));
    let card = Card::new(5, "ÉLODIE".to_string());
    assert!(card_matches(&card, "élo"));
}

#[test]
fn folded_name_matching_is_literal() {
    assert!(folded_name_matches("jérémy", "rém"));
    assert!(!folded_name_matches("jérémy", "Rém"));
    assert!(folded_name_matches("camille", ""));
}

#[test]
fn containment_edge_cases() {
    assert!(contains_chars("", ""));
    assert!(!contains_chars("", "a"));
    assert!(contains_chars("abc", "abc"));
    assert!(!contains_chars("ab", "abc"));
    assert!(contains_chars("abc", "c"));
    assert!(contains_chars("aab", "ab"));
    assert!(!contains_chars("acb", "ab"));
}

#[test]
fn list_rows_follow_cards() {
    let rows = cards_list(&seed_cards());
    assert_eq!(
        rows,
        vec![
            (0, "Alexis".to_string()),
            (1, "Camille".to_string()),
            (2, "Jérémy".to_string())
        ]
    );
    assert!(cards_list(&Vec::new()).is_empty());
}

#[test]
fn card_label_and_copy() {
    let card = Card::new(9, "Camille".to_string());
    assert_eq!(card.label(), "Camille");
    assert_eq!(card.duplicate(), card);
}

#[test]
fn search_box_mirrors_and_emits() {
    let mut search = SearchBox::new();
    assert_eq!(search.value(), "");
    let emitted = search.on_input("Jé".to_string());
    assert_eq!(emitted, "Jé");
    assert_eq!(search.value(), "Jé");
    assert_eq!(MAX_LENGTH, 20);
}

#[test]
fn app_keeps_full_list() {
    let mut app = App::new(seed_cards());
    app.on_type("x".to_string());
    assert_eq!(app.cards(), &seed_cards());
    assert_eq!(app.typed(), Some(&"x".to_string()));
    assert_eq!(STATUS_PREFIX, "Searching for: ");
}
