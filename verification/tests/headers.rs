use http_bridge::headers::Headers;

fn pair(name: &str, value: &str) -> (String, String) {
    (name.to_string(), value.to_string())
}

#[test]
fn new_headers_hold_nothing() {
    let headers = Headers::new();
    assert!(headers.entries().is_empty());
    assert_eq!(headers.get("Accept"), None);
}

#[test]
fn inserted_headers_are_found_by_name() {
    let mut headers = Headers::new();
    headers.insert("X-Test".to_string(), "1".to_string());
    headers.insert("Accept".to_string(), "application/json".to_string());
    assert_eq!(headers.get("X-Test").map(String::as_str), Some("1"));
    assert_eq!(headers.get("Accept").map(String::as_str), Some("application/json"));
    assert_eq!(headers.get("Content-Type"), None);
    assert_eq!(headers.entries().len(), 2);
}

#[test]
fn names_are_told_apart_by_case() {
    let mut headers = Headers::new();
    headers.insert("X-Test".to_string(), "1".to_string());
    headers.insert("x-test".to_string(), "2".to_string());
    assert_eq!(headers.entries().len(), 2);
    assert_eq!(headers.get("X-Test").map(String::as_str), Some("1"));
    assert_eq!(headers.get("x-test").map(String::as_str), Some("2"));
    assert_eq!(headers.get("X-TEST"), None);
}

#[test]
fn inserting_a_held_name_replaces_its_value() {
    let mut headers = Headers::new();
    headers.insert("Accept".to_string(), "text/plain".to_string());
    headers.insert("X-Test".to_string(), "1".to_string());
    headers.insert("Accept".to_string(), "application/json".to_string());
    assert_eq!(headers.entries().len(), 2);
    assert_eq!(headers.get("Accept").map(String::as_str), Some("application/json"));
    assert_eq!(headers.get("X-Test").map(String::as_str), Some("1"));
}

#[test]
fn of_two_pairs_with_one_name_the_later_counts() {
    let headers = Headers::from_pairs(vec![
        pair("Accept", "text/plain"),
        pair("X-Test", "1"),
        pair("Accept", "application/json"),
    ]);
    assert_eq!(headers.entries().len(), 2);
    assert_eq!(headers.get("Accept").map(String::as_str), Some("application/json"));
}

#[test]
fn entries_list_each_name_once() {
    let headers = Headers::from_pairs(vec![
        pair("a", "1"),
        pair("b", "2"),
        pair("a", "3"),
        pair("c", "4"),
        pair("b", "5"),
    ]);
    let mut listed: Vec<(String, String)> = headers.entries().clone();
    listed.sort();
    assert_eq!(listed, vec![pair("a", "3"), pair("b", "5"), pair("c", "4")]);
}

#[test]
fn order_of_insertion_does_not_matter() {
    let one = Headers::from_pairs(vec![pair("X-Test", "1"), pair("Accept", "application/json")]);
    let other = Headers::from_pairs(vec![pair("Accept", "application/json"), pair("X-Test", "1")]);
    assert_eq!(one, other);
    assert_eq!(other, one);
}

#[test]
fn headers_differ_by_a_name_or_by_a_value() {
    let base = Headers::from_pairs(vec![pair("X-Test", "1"), pair("Accept", "application/json")]);
    let fewer = Headers::from_pairs(vec![pair("X-Test", "1")]);
    let changed = Headers::from_pairs(vec![pair("X-Test", "2"), pair("Accept", "application/json")]);
    let renamed = Headers::from_pairs(vec![pair("X-Tset", "1"), pair("Accept", "application/json")]);
    assert_ne!(base, fewer);
    assert_ne!(fewer, base);
    assert_ne!(base, changed);
    assert_ne!(base, renamed);
    assert_eq!(Headers::new(), Headers::from_pairs(Vec::new()));
    assert_ne!(Headers::new(), fewer);
}

#[test]
fn empty_names_and_values_are_headers_too() {
    let mut headers = Headers::new();
    headers.insert(String::new(), String::new());
    assert_eq!(headers.get("").map(String::as_str), Some(""));
    assert_eq!(headers.entries().len(), 1);
}

#[test]
fn a_copy_holds_the_same_headers() {
    let headers = Headers::from_pairs(vec![pair("X-Test", "1"), pair("Accept", "application/json")]);
    let copy = headers.clone();
    assert_eq!(copy, headers);
    assert_eq!(copy.get("X-Test").map(String::as_str), Some("1"));
    assert_eq!(copy.entries().len(), 2);
}
