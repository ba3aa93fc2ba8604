//! The document model: lookup order, typed accessors, and decimal
//! formatting.

use gfycat::error::DecodeError;
use gfycat::json::{
    bool_field, num_text_field, opt_str_field, opt_u32_field, parse_json, str_arr_field,
    str_field, u32_field, u64_field, Json,
};
use gfycat::text::format_u64;

fn obj(fields: Vec<(&str, Json)>) -> Json {
    Json::Obj(fields.into_iter().map(|(k, v)| (k.to_string(), v)).collect())
}

#[test]
fn lookup_takes_the_first_binding() {
    let j = obj(vec![
        ("a", Json::Num(Some(1), "1".to_string())),
        ("a", Json::Num(Some(2), "2".to_string())),
    ]);
    assert_eq!(u64_field(&j, "a"), Ok(1));
}

#[test]
fn accessors_check_the_shape() {
    let j = obj(vec![
        ("s", Json::Str("hello".to_string())),
        ("n", Json::Num(Some(7), "7".to_string())),
        ("f", Json::Num(None, "1.5".to_string())),
        ("b", Json::Bool(true)),
        ("a", Json::Arr(vec![Json::Str("x".to_string())])),
    ]);
    assert_eq!(str_field(&j, "s"), Ok("hello".to_string()));
    assert_eq!(u64_field(&j, "n"), Ok(7));
    assert_eq!(u32_field(&j, "n"), Ok(7));
    assert_eq!(num_text_field(&j, "f"), Ok("1.5".to_string()));
    assert_eq!(bool_field(&j, "b"), Ok(true));
    assert_eq!(str_arr_field(&j, "a"), Ok(vec!["x".to_string()]));

    assert_eq!(
        str_field(&j, "n"),
        Err(DecodeError::Field("n".to_string()))
    );
    assert_eq!(
        u64_field(&j, "f"),
        Err(DecodeError::Field("f".to_string()))
    );
    assert_eq!(
        u64_field(&j, "missing"),
        Err(DecodeError::Field("missing".to_string()))
    );
}

#[test]
fn u32_accessor_rejects_an_oversized_value() {
    let j = obj(vec![(
        "n",
        Json::Num(Some(4294967296), "4294967296".to_string()),
    )]);
    assert_eq!(u32_field(&j, "n"), Err(DecodeError::Field("n".to_string())));
    assert_eq!(
        opt_u32_field(&j, "n"),
        Err(DecodeError::Field("n".to_string()))
    );
}

#[test]
fn optional_accessors_treat_null_and_absence_alike() {
    let j = obj(vec![("present", Json::Null)]);
    assert_eq!(opt_str_field(&j, "present"), Ok(None));
    assert_eq!(opt_str_field(&j, "absent"), Ok(None));
    assert_eq!(opt_u32_field(&j, "absent"), Ok(None));
}

#[test]
fn parser_builds_the_document() {
    let j = parse_json(r#"{"a":[1,true,null,"s",-2,0.5],"b":{"c":"d"}}"#)
        .expect("well-formed text must parse");
    let Json::Obj(fields) = j else {
        panic!("top level must be an object");
    };
    assert_eq!(fields.len(), 2);
    assert_eq!(fields[0].0, "a");
    let Json::Arr(items) = &fields[0].1 else {
        panic!("a must be an array");
    };
    assert_eq!(items[0], Json::Num(Some(1), "1".to_string()));
    assert_eq!(items[1], Json::Bool(true));
    assert_eq!(items[2], Json::Null);
    assert_eq!(items[3], Json::Str("s".to_string()));
    assert_eq!(items[4], Json::Num(None, "-2".to_string()));
    assert_eq!(items[5], Json::Num(None, "0.5".to_string()));
    let Json::Obj(inner) = &fields[1].1 else {
        panic!("b must be an object");
    };
    assert_eq!(inner[0], ("c".to_string(), Json::Str("d".to_string())));
}

#[test]
fn parser_rejects_malformed_text() {
    assert_eq!(parse_json("{"), Err(DecodeError::Syntax));
    assert_eq!(parse_json(""), Err(DecodeError::Syntax));
    assert_eq!(parse_json("{\"a\":}"), Err(DecodeError::Syntax));
}

#[test]
fn decimal_formatting() {
    assert_eq!(format_u64(0), "0");
    assert_eq!(format_u64(7), "7");
    assert_eq!(format_u64(10), "10");
    assert_eq!(format_u64(1234567890), "1234567890");
    assert_eq!(format_u64(u64::MAX), "18446744073709551615");
}
