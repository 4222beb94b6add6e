use skin_trader::json_fields::{get_fields, get_json_type, JsonField, JsonKind};

fn field(name: &str, kind: JsonKind) -> JsonField {
    JsonField { name: name.to_string(), kind }
}

#[test]
fn json_type_names() {
    assert_eq!(get_json_type(JsonKind::Null), "Null");
    assert_eq!(get_json_type(JsonKind::Bool), "Bool");
    assert_eq!(get_json_type(JsonKind::Number), "Number");
    assert_eq!(get_json_type(JsonKind::String), "String");
    assert_eq!(get_json_type(JsonKind::Array), "Array");
    assert_eq!(get_json_type(JsonKind::Object), "Object");
}

#[test]
fn fields_of_no_values() {
    assert!(get_fields(&vec![]).is_empty());
    assert!(get_fields(&vec![None, None]).is_empty());
}

#[test]
fn missing_fields_are_optional_and_last_kind_wins() {
    let values = vec![
        Some(vec![field("price", JsonKind::Number), field("title", JsonKind::String)]),
        None,
        Some(vec![field("price", JsonKind::Null), field("tags", JsonKind::Array)]),
    ];
    let fields = get_fields(&values);
    assert_eq!(
        fields,
        vec![
            ("price".to_string(), "Null".to_string()),
            ("tags".to_string(), "Array (Optional)".to_string()),
            ("title".to_string(), "String (Optional)".to_string()),
        ]
    );
}

#[test]
fn non_objects_do_not_make_fields_optional() {
    let values = vec![None, Some(vec![field("id", JsonKind::Number)]), None];
    assert_eq!(get_fields(&values), vec![("id".to_string(), "Number".to_string())]);
}

#[test]
fn repeated_name_within_one_object_counts_once() {
    let values = vec![
        Some(vec![field("a", JsonKind::Bool), field("a", JsonKind::Object)]),
        Some(vec![field("a", JsonKind::Number)]),
    ];
    assert_eq!(get_fields(&values), vec![("a".to_string(), "Number".to_string())]);
}

#[test]
fn names_come_in_str_order() {
    let values = vec![Some(vec![
        field("ab", JsonKind::Bool),
        field("a", JsonKind::Bool),
        field("B", JsonKind::Bool),
        field("é", JsonKind::Bool),
        field("z", JsonKind::Bool),
    ])];
    let names: Vec<String> = get_fields(&values).into_iter().map(|(name, _)| name).collect();
    assert_eq!(names, vec!["B", "a", "ab", "z", "é"]);
}
