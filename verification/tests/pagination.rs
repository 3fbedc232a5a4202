use bevy_brp_mcp::json::{JsonNumber, JsonValue, SingleText};
use bevy_brp_mcp::pagination::paginate_if_needed;

fn parse(text: &str) -> serde_json::Value {
    serde_json::from_str(text).unwrap()
}

fn to_model(v: &serde_json::Value) -> JsonValue {
    match v {
        serde_json::Value::Null => JsonValue::Null,
        serde_json::Value::Bool(b) => JsonValue::Bool(*b),
        serde_json::Value::Number(n) => {
            let narrowed = serde_json::Value::from(n.as_f64().unwrap_or(0.0) as f32);
            let single = match narrowed {
                serde_json::Value::Number(m) => SingleText::Text(m.to_string()),
                _ => SingleText::NotFinite,
            };
            JsonValue::Number(JsonNumber { text: n.to_string(), single })
        }
        serde_json::Value::String(s) => JsonValue::String(s.clone()),
        serde_json::Value::Array(a) => JsonValue::Array(a.iter().map(to_model).collect()),
        serde_json::Value::Object(m) => {
            JsonValue::Object(m.iter().map(|(k, v)| (k.clone(), to_model(v))).collect())
        }
    }
}

fn from_model(v: &JsonValue) -> serde_json::Value {
    match v {
        JsonValue::Null => serde_json::Value::Null,
        JsonValue::Bool(b) => serde_json::Value::Bool(*b),
        JsonValue::Number(n) => serde_json::from_str(&n.text).unwrap(),
        JsonValue::String(s) => serde_json::Value::String(s.clone()),
        JsonValue::Array(a) => serde_json::Value::Array(a.iter().map(from_model).collect()),
        JsonValue::Object(m) => serde_json::Value::Object(
            m.iter().map(|(k, v)| (k.clone(), from_model(v))).collect(),
        ),
    }
}



#[test]
fn test_small_response_not_paginated() {
    let data = parse(r#"{"small": "data"}"#);
    let result = paginate_if_needed(to_model(&data), 0).unwrap();
    assert_eq!(from_model(&result.data), data);
    assert!(!result.has_more);
    assert_eq!(result.page, 0);
    assert_eq!(result.total_pages, 1);
}

fn large_item(i: usize) -> serde_json::Value {
    let mut m = serde_json::Map::new();
    m.insert("id".to_string(), serde_json::Value::from(i));
    m.insert("data".to_string(), serde_json::Value::String("x".repeat(1000)));
    serde_json::Value::Object(m)
}

#[test]
fn test_array_pagination() {
    let large_array: Vec<serde_json::Value> = (0..100).map(large_item).collect();
    let result = paginate_if_needed(to_model(&serde_json::Value::Array(large_array)), 0).unwrap();
    assert!(result.has_more);
    assert_eq!(result.page, 0);
    assert!(result.total_pages > 1);
    if let JsonValue::Array(page_data) = result.data {
        assert!(!page_data.is_empty());
    } else {
        panic!("Expected array data");
    }
}

#[test]
fn test_object_pagination() {
    let mut large_obj = serde_json::Map::new();
    for i in 0..100 {
        large_obj.insert(format!("key_{i:03}"), large_item(i));
    }
    let result = paginate_if_needed(to_model(&serde_json::Value::Object(large_obj)), 0).unwrap();
    assert!(result.has_more);
    assert_eq!(result.page, 0);
    assert!(result.total_pages > 1);
    if let JsonValue::Object(page_data) = result.data {
        assert!(!page_data.is_empty());
    } else {
        panic!("Expected object data");
    }
}

#[test]
fn test_page_bounds() {
    let data = parse("[1, 2, 3]");
    let result = paginate_if_needed(to_model(&data), 0);
    assert!(result.is_ok());
    let result = paginate_if_needed(to_model(&data), 999);
    assert!(result.is_err());
    assert!(result.err().unwrap().contains("Page 999 not found. Total pages: 1"));
}

#[test]
fn test_empty_array() {
    let data = parse("[]");
    let result = paginate_if_needed(to_model(&data), 0).unwrap();
    assert_eq!(from_model(&result.data), data);
    assert!(!result.has_more);
}

#[test]
fn pages_of_an_array_cover_it_in_order() {
    let items: Vec<serde_json::Value> = (0..100).map(large_item).collect();
    let first = paginate_if_needed(to_model(&serde_json::Value::Array(items.clone())), 0).unwrap();
    let total = first.total_pages;
    let mut gathered = Vec::new();
    for page in 0..total {
        let p = paginate_if_needed(to_model(&serde_json::Value::Array(items.clone())), page).unwrap();
        assert_eq!(p.page, page);
        assert_eq!(p.total_pages, total);
        assert_eq!(p.has_more, page + 1 < total);
        match from_model(&p.data) {
            serde_json::Value::Array(chunk) => {
                let text = serde_json::to_string(&chunk).unwrap();
                assert!(text.len() / 3 <= 20000);
                gathered.extend(chunk);
            }
            _ => panic!("Expected array data"),
        }
    }
    assert_eq!(gathered, items);
    let past = paginate_if_needed(to_model(&serde_json::Value::Array(items)), total);
    assert_eq!(past.err().unwrap(), format!("Page {total} not found. Total pages: {total}"));
}

#[test]
fn large_strings_are_returned_whole() {
    let data = serde_json::Value::String("y".repeat(100_000));
    let result = paginate_if_needed(to_model(&data), 0).unwrap();
    assert_eq!(from_model(&result.data), data);
    assert_eq!(result.total_pages, 1);
}

#[test]
fn pages_of_a_large_array_give_it_back_in_order() {
    let items: Vec<serde_json::Value> = (0..100)
        .map(|i| parse(&format!(r#"{{"id": {i}, "data": "{}"}}"#, "x".repeat(1000))))
        .collect();
    let data = serde_json::Value::Array(items.clone());
    let first = paginate_if_needed(to_model(&data), 0).ok().unwrap();
    let n = first.total_pages;
    assert!(n > 1);
    let mut back = Vec::new();
    for p in 0..n {
        let page = paginate_if_needed(to_model(&data), p).ok().unwrap();
        assert_eq!(page.page, p);
        assert_eq!(page.total_pages, n);
        assert_eq!(page.has_more, p < n - 1);
        match from_model(&page.data) {
            serde_json::Value::Array(a) => {
                assert!(!a.is_empty());
                back.extend(a);
            }
            _ => panic!("a page of an array is an array"),
        }
    }
    assert_eq!(back, items);
    match paginate_if_needed(to_model(&data), n) {
        Err(e) => assert_eq!(e, format!("Page {n} not found. Total pages: {n}")),
        Ok(_) => panic!("a page past the last was given"),
    }
}
