use tether_artnet_controller::text::{fixtures_list_contains, list_contains, list_contains_match};

fn labels(items: &[&str]) -> Vec<String> {
    items.iter().map(|s| s.to_string()).collect()
}

#[test]
fn no_filter_admits_every_label() {
    assert!(fixtures_list_contains(&None, "anything"));
    assert!(fixtures_list_contains(&None, ""));
}

#[test]
fn filter_matches_without_regard_to_ascii_case() {
    let filter = Some(labels(&["Spot Left", "wash"]));
    assert!(fixtures_list_contains(&filter, "spot left"));
    assert!(fixtures_list_contains(&filter, "SPOT LEFT"));
    assert!(fixtures_list_contains(&filter, "Wash"));
    assert!(!fixtures_list_contains(&filter, "Spot Right"));
    assert!(!fixtures_list_contains(&filter, "Spot Lef"));
    assert!(!fixtures_list_contains(&filter, "Spot Left "));
}

#[test]
fn empty_filter_admits_nothing() {
    assert!(!fixtures_list_contains(&Some(Vec::new()), "a"));
}

#[test]
fn case_is_folded_for_ascii_letters_only() {
    let filter = labels(&["Bühne", "[one]"]);
    assert!(list_contains_match(&filter, "bühne"));
    assert!(!list_contains_match(&filter, "BÜHNE"));
    assert!(!list_contains_match(&filter, "{one}"));
    assert!(list_contains_match(&filter, "[ONE]"));
}

#[test]
fn exact_search_regards_case() {
    let list = labels(&["Spot", "wash"]);
    assert!(list_contains(&list, &"Spot".to_string()));
    assert!(!list_contains(&list, &"spot".to_string()));
    assert!(!list_contains(&list, &String::new()));
}
