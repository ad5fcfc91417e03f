use mushroom_password_manager::api::json::{Json, Member};

fn text(s: &str) -> String {
    s.to_string()
}

fn member(name: &str, value: Json) -> Member {
    Member { name: text(name), value }
}

#[test]
fn the_simple_documents_are_read() {
    assert_eq!(Json::parse("null"), Ok(Json::Null));
    assert_eq!(Json::parse("true"), Ok(Json::Bool(true)));
    assert_eq!(Json::parse("false"), Ok(Json::Bool(false)));
    assert_eq!(Json::parse("12"), Ok(Json::Number));
    assert_eq!(Json::parse("-1.5e3"), Ok(Json::Number));
    assert_eq!(Json::parse("\"a b\""), Ok(Json::Text(text("a b"))));
    assert_eq!(Json::parse(" \n [ ] "), Ok(Json::Array(Vec::new())));
    assert_eq!(Json::parse("{}"), Ok(Json::Object(Vec::new())));
}

#[test]
fn escapes_in_a_text_are_resolved() {
    assert_eq!(Json::parse(r#""a\"b\\c\né""#), Ok(Json::Text(text("a\"b\\c\n\u{e9}"))));
}

#[test]
fn arrays_keep_their_order_and_nest() {
    assert_eq!(
        Json::parse(r#"["b", 1, ["a", null], {"k": false}]"#),
        Ok(Json::Array(vec![
            Json::Text(text("b")),
            Json::Number,
            Json::Array(vec![Json::Text(text("a")), Json::Null]),
            Json::Object(vec![member("k", Json::Bool(false))]),
        ]))
    );
}

#[test]
fn the_members_of_an_object_come_sorted_by_name() {
    assert_eq!(
        Json::parse(r#"{"b": 1, "a": "x", "c": {"z": null, "y": []}}"#),
        Ok(Json::Object(vec![
            member("a", Json::Text(text("x"))),
            member("b", Json::Number),
            member("c", Json::Object(vec![member("y", Json::Array(Vec::new())), member("z", Json::Null)])),
        ]))
    );
}

#[test]
fn a_text_that_is_no_document_is_refused_with_the_place() {
    assert_eq!(Json::parse("oops"), Err(text("expected value at line 1 column 1")));
    assert_eq!(Json::parse("[1, 2"), Err(text("EOF while parsing a list at line 1 column 5")));
    assert_eq!(Json::parse("{\"a\" 1}"), Err(text("expected `:` at line 1 column 6")));
    assert_eq!(Json::parse(""), Err(text("EOF while parsing a value at line 1 column 0")));
}

#[test]
fn a_member_is_found_by_its_name() {
    let object = Json::Object(vec![member("a", Json::Number), member("b", Json::Text(text("x")))]);
    assert_eq!(object.member("a"), Some(&Json::Number));
    assert_eq!(object.member("b"), Some(&Json::Text(text("x"))));
    assert_eq!(object.member("c"), None);
    assert_eq!(object.member(""), None);
}

#[test]
fn of_members_with_one_name_the_first_is_found() {
    let object = Json::Object(vec![member("a", Json::Null), member("a", Json::Number)]);
    assert_eq!(object.member("a"), Some(&Json::Null));
}

#[test]
fn only_an_object_has_members() {
    assert_eq!(Json::Null.member("a"), None);
    assert_eq!(Json::Text(text("a")).member("a"), None);
    assert_eq!(Json::Array(vec![Json::Text(text("a"))]).member("a"), None);
}

#[test]
fn a_text_member_is_a_member_that_is_a_text() {
    let object = Json::Object(vec![
        member("name", Json::Text(text("x"))),
        member("count", Json::Number),
        member("none", Json::Null),
    ]);
    assert_eq!(object.text_member("name"), Some(text("x")));
    assert_eq!(object.text_member("count"), None);
    assert_eq!(object.text_member("none"), None);
    assert_eq!(object.text_member("absent"), None);
    assert_eq!(Json::Text(text("name")).text_member("name"), None);
}

#[test]
fn a_text_list_is_an_array_of_texts_only() {
    let texts = Json::Array(vec![Json::Text(text("a")), Json::Text(text("")), Json::Text(text("c"))]);
    assert_eq!(texts.text_list(), Some(vec![text("a"), text(""), text("c")]));
    assert_eq!(Json::Array(Vec::new()).text_list(), Some(Vec::new()));
    assert_eq!(Json::Array(vec![Json::Text(text("a")), Json::Null]).text_list(), None);
    assert_eq!(Json::Array(vec![Json::Number]).text_list(), None);
    assert_eq!(Json::Text(text("a")).text_list(), None);
    assert_eq!(Json::Object(Vec::new()).text_list(), None);
    assert_eq!(Json::Null.text_list(), None);
}
