use radio_ondemand::listing::format_listing;
use radio_ondemand::model::Corner;

fn corner(title: &str, corner_name: &str, series_site_id: &str, corner_site_id: &str) -> Corner {
    Corner {
        title: title.to_owned(),
        corner_name: corner_name.to_owned(),
        series_site_id: series_site_id.to_owned(),
        corner_site_id: corner_site_id.to_owned(),
    }
}

#[test]
fn listing_round_trip() {
    let corners = vec![corner("A", "a", "1", "2")];
    let text = format_listing(&corners);
    let value: serde_json::Value = serde_json::from_str(&text).unwrap();
    let arr = value.as_array().unwrap();
    assert_eq!(arr.len(), 1);
    let obj = arr[0].as_object().unwrap();
    assert_eq!(obj.len(), 4);
    assert_eq!(obj.get("title").unwrap().as_str().unwrap(), "A");
    assert_eq!(obj.get("corner_name").unwrap().as_str().unwrap(), "a");
    assert_eq!(obj.get("series_site_id").unwrap().as_str().unwrap(), "1");
    assert_eq!(obj.get("corner_site_id").unwrap().as_str().unwrap(), "2");
}

#[test]
fn listing_exact_text() {
    let corners = vec![corner("A", "a", "1", "2")];
    let text = format_listing(&corners);
    assert_eq!(
        text,
        "[\n{\"title\": \"A\",\"corner_name\": \"a\",\"series_site_id\": \"1\",\"corner_site_id\": \"2\"}\n]\n"
    );
}

#[test]
fn listing_separates_lines_with_commas() {
    let corners = vec![corner("A", "a", "1", "2"), corner("B", "b", "3", "4")];
    let text = format_listing(&corners);
    assert_eq!(
        text,
        "[\n{\"title\": \"A\",\"corner_name\": \"a\",\"series_site_id\": \"1\",\"corner_site_id\": \"2\"},\n{\"title\": \"B\",\"corner_name\": \"b\",\"series_site_id\": \"3\",\"corner_site_id\": \"4\"}\n]\n"
    );
}

#[test]
fn listing_keeps_source_order() {
    let corners = vec![corner("B", "b", "3", "4"), corner("A", "a", "1", "2")];
    let text = format_listing(&corners);
    let value: serde_json::Value = serde_json::from_str(&text).unwrap();
    let arr = value.as_array().unwrap();
    assert_eq!(arr[0].get("title").unwrap().as_str().unwrap(), "B");
    assert_eq!(arr[1].get("title").unwrap().as_str().unwrap(), "A");
}

#[test]
fn listing_of_nothing_is_an_empty_array() {
    let corners: Vec<Corner> = Vec::new();
    let text = format_listing(&corners);
    assert_eq!(text, "[\n]\n");
    let value: serde_json::Value = serde_json::from_str(&text).unwrap();
    assert_eq!(value.as_array().unwrap().len(), 0);
}

#[test]
fn listing_escapes_special_characters() {
    let corners = vec![corner("he said \"hi\"\\", "a\nb", "1", "2")];
    let text = format_listing(&corners);
    let value: serde_json::Value = serde_json::from_str(&text).unwrap();
    let arr = value.as_array().unwrap();
    assert_eq!(arr[0].get("title").unwrap().as_str().unwrap(), "he said \"hi\"\\");
    assert_eq!(arr[0].get("corner_name").unwrap().as_str().unwrap(), "a\nb");
}

#[test]
fn listing_escape_exact_text() {
    let corners = vec![corner("a\"b", "c\\d", "e\nf", "\u{1}")];
    let text = format_listing(&corners);
    assert_eq!(
        text,
        "[\n{\"title\": \"a\\\"b\",\"corner_name\": \"c\\\\d\",\"series_site_id\": \"e\\nf\",\"corner_site_id\": \"\\u0001\"}\n]\n"
    );
}

#[test]
fn listing_with_newline_in_a_value_stays_one_object_per_line() {
    let corners = vec![corner("x\ny", "a", "1", "2"), corner("B", "b", "3", "4")];
    let text = format_listing(&corners);
    let lines: Vec<&str> = text.lines().collect();
    assert_eq!(lines.len(), 4);
    assert_eq!(lines[0], "[");
    assert!(lines[1].starts_with('{') && lines[1].ends_with("},"));
    assert!(lines[2].starts_with('{') && lines[2].ends_with('}'));
    assert_eq!(lines[3], "]");
}
