use formula_scanner::data_models::{Analysis, HistoryItem};
use formula_scanner::history::{
    delete_history_item, save_to_history, update_favorite_status, update_history_title,
    HistoryCache,
};

fn item(id: &str, title: &str) -> HistoryItem {
    HistoryItem {
        id: id.to_string(),
        latex: "x^2".to_string(),
        title: title.to_string(),
        analysis: Analysis { summary: String::new(), variables: vec![], terms: vec![], suggestions: vec![] },
        is_favorite: false,
        created_at: "2024-01-01T00:00:00+00:00".to_string(),
        confidence_score: 90,
        original_image: "img.png".to_string(),
        model_name: None,
        verification: None,
        verification_report: None,
    }
}

fn ids(h: &[HistoryItem]) -> Vec<String> {
    h.iter().map(|i| i.id.clone()).collect()
}

#[test]
fn save_puts_item_first() {
    let mut h = vec![item("a", "A"), item("b", "B")];
    save_to_history(&mut h, item("c", "C"));
    assert_eq!(ids(&h), vec!["c", "a", "b"]);
}

#[test]
fn delete_removes_every_match_in_order() {
    let mut h = vec![item("a", "A"), item("b", "B"), item("a", "A2"), item("c", "C")];
    assert!(delete_history_item(&mut h, &"a".to_string()).is_ok());
    assert_eq!(ids(&h), vec!["b", "c"]);
    // Deleting again fails and keeps the history.
    let err = delete_history_item(&mut h, &"a".to_string()).unwrap_err();
    assert_eq!(err, "Item with ID 'a' not found");
    assert_eq!(ids(&h), vec!["b", "c"]);
}

#[test]
fn save_then_delete_restores() {
    let mut h = vec![item("a", "A"), item("b", "B")];
    save_to_history(&mut h, item("n", "N"));
    delete_history_item(&mut h, &"n".to_string()).unwrap();
    assert_eq!(ids(&h), vec!["a", "b"]);
}

#[test]
fn rename_changes_first_match_only() {
    let mut h = vec![item("a", "A"), item("b", "B"), item("b", "B2")];
    update_history_title(&mut h, &"b".to_string(), "New".to_string()).unwrap();
    assert_eq!(h[1].title, "New");
    assert_eq!(h[2].title, "B2");
    assert_eq!(h[0].title, "A");
    assert_eq!(ids(&h), vec!["a", "b", "b"]);
    let err = update_history_title(&mut h, &"z".to_string(), "T".to_string()).unwrap_err();
    assert_eq!(err, "Item with ID 'z' not found");
}

#[test]
fn favorite_flag_spellings() {
    let mut h = vec![item("a", "A")];
    update_favorite_status(&mut h, &"a".to_string(), Some(true), None).unwrap();
    assert!(h[0].is_favorite);
    update_favorite_status(&mut h, &"a".to_string(), None, Some(false)).unwrap();
    assert!(!h[0].is_favorite);
    update_favorite_status(&mut h, &"a".to_string(), Some(true), Some(false)).unwrap();
    assert!(h[0].is_favorite);
    let err = update_favorite_status(&mut h, &"a".to_string(), None, None).unwrap_err();
    assert_eq!(err, "missing is_favorite/isFavorite");
    let err = update_favorite_status(&mut h, &"q".to_string(), Some(true), None).unwrap_err();
    assert_eq!(err, "Item with ID 'q' not found");
}

#[test]
fn favorite_changes_flag_only() {
    let mut h = vec![item("a", "A"), item("b", "B")];
    update_favorite_status(&mut h, &"b".to_string(), Some(true), None).unwrap();
    assert!(h[1].is_favorite);
    assert!(!h[0].is_favorite);
    assert_eq!((h[1].id.as_str(), h[1].title.as_str(), h[1].latex.as_str()), ("b", "B", "x^2"));
    assert_eq!(h[1].confidence_score, 90);
    assert_eq!(ids(&h), vec!["a", "b"]);
}

#[test]
fn cache_gives_back_what_it_remembered() {
    let mut cache = HistoryCache::new();
    assert!(cache.lookup(0).is_none());
    cache.remember(Some(42), vec![item("a", "A"), item("b", "B")]);
    assert_eq!(ids(cache.lookup(42).unwrap()), vec!["a", "b"]);
    assert!(cache.lookup(43).is_none());
    // A write whose modification time could not be read is never served.
    cache.remember(None, vec![item("c", "C")]);
    assert!(cache.lookup(42).is_none());
    assert!(cache.lookup(0).is_none());
    cache.remember(Some(7), vec![]);
    assert!(cache.lookup(7).unwrap().is_empty());
}
