use iio_niri::json::{parse_json_text, JsonValue};
use iio_niri::transform::{
    LengthExpected, MappingError, MappingField, Transform, TransformAction, TransformMapping,
    Unexpected,
};

fn text(s: &str) -> JsonValue {
    JsonValue::String(s.to_string())
}

fn object(members: Vec<(&str, JsonValue)>) -> JsonValue {
    JsonValue::Object(members.into_iter().map(|(k, v)| (k.to_string(), v)).collect())
}

fn mapping(normal: Transform, left_up: Transform, bottom_up: Transform, right_up: Transform) -> TransformMapping {
    TransformMapping { normal, left_up, bottom_up, right_up }
}

#[test]
fn default_mapping_turns_each_way_round() {
    let m = TransformMapping::from_transform_vec(None);
    assert_eq!(m, mapping(Transform::Normal, Transform::_90, Transform::_180, Transform::_270));
}

#[test]
fn documented_mapping_example() {
    // 90,normal,180,270: normal -> 90, left-up -> normal, bottom-up -> 180, right-up -> 270
    let m = TransformMapping::from_transform_vec(Some(vec![
        Transform::_90,
        Transform::Normal,
        Transform::_180,
        Transform::_270,
    ]));
    assert_eq!(m.parse_orientation("normal"), TransformAction::SetTo(Transform::_90));
    assert_eq!(m.parse_orientation("left-up"), TransformAction::SetTo(Transform::Normal));
    assert_eq!(m.parse_orientation("bottom-up"), TransformAction::SetTo(Transform::_180));
    assert_eq!(m.parse_orientation("right-up"), TransformAction::SetTo(Transform::_270));
}

#[test]
fn unknown_orientation_keeps_previous() {
    let m = TransformMapping::from_transform_vec(None);
    assert_eq!(m.parse_orientation("undefined"), TransformAction::KeepPrevious);
    assert_eq!(m.parse_orientation(""), TransformAction::KeepPrevious);
    assert_eq!(m.parse_orientation("Normal"), TransformAction::KeepPrevious);
}

#[test]
fn transform_names_round_trip() {
    let all = [
        Transform::Normal,
        Transform::_90,
        Transform::_180,
        Transform::_270,
        Transform::Flipped,
        Transform::Flipped90,
        Transform::Flipped180,
        Transform::Flipped270,
    ];
    let names = ["Normal", "90", "180", "270", "Flipped", "Flipped90", "Flipped180", "Flipped270"];
    for (t, n) in all.iter().zip(names.iter()) {
        assert_eq!(t.name(), *n);
        assert_eq!(Transform::from_name(n), Some(*t));
        assert_eq!(Transform::from_json(&t.to_json()), Ok(*t));
    }
    assert_eq!(Transform::from_name("normal"), None);
    assert_eq!(Transform::from_name("flipped-90"), None);
}

fn json(text: &str) -> JsonValue {
    parse_json_text(text).unwrap()
}

#[test]
fn transform_from_single_key_object() {
    assert_eq!(Transform::from_json(&object(vec![("180", JsonValue::Null)])), Ok(Transform::_180));
    assert_eq!(
        Transform::from_json(&object(vec![("180", JsonValue::Bool(true))])),
        Err(MappingError::TransformValue("invalid type: boolean `true`, expected unit".to_string()))
    );
    assert_eq!(
        Transform::from_json(&object(vec![("180", JsonValue::Null), ("90", JsonValue::Null)])),
        Err(MappingError::TransformValue("invalid value: map, expected map with a single key".to_string()))
    );
    assert_eq!(
        Transform::from_json(&object(vec![("181", JsonValue::Null)])),
        Err(MappingError::TransformValue("unknown variant `181`, expected one of `Normal`, `90`, `180`, `270`, `Flipped`, `Flipped90`, `Flipped180`, `Flipped270`".to_string()))
    );
    assert_eq!(
        Transform::from_json(&json("90")),
        Err(MappingError::TransformValue("invalid type: integer `90`, expected string or map".to_string()))
    );
    assert_eq!(
        Transform::from_json(&json("1.5")),
        Err(MappingError::TransformValue("invalid type: floating point `1.5`, expected string or map".to_string()))
    );
}

#[test]
fn request_mapping_json_is_sorted() {
    let m = mapping(Transform::_90, Transform::Normal, Transform::_180, Transform::Flipped270);
    let expected = object(vec![
        ("bottom_up", text("180")),
        ("left_up", text("Normal")),
        ("normal", text("90")),
        ("right_up", text("Flipped270")),
    ]);
    assert_eq!(m.to_request_json(), expected);
    assert_eq!(TransformMapping::from_json(&m.to_request_json()), Ok(m));
}

#[test]
fn mapping_json_is_ordered_object() {
    let m = mapping(Transform::_90, Transform::Normal, Transform::_180, Transform::Flipped270);
    let expected = object(vec![
        ("normal", text("90")),
        ("left_up", text("Normal")),
        ("bottom_up", text("180")),
        ("right_up", text("Flipped270")),
    ]);
    assert_eq!(m.to_json(), expected);
    assert_eq!(TransformMapping::from_json(&m.to_json()), Ok(m));
}

#[test]
fn mapping_from_object_in_any_order_with_extra_members() {
    let j = object(vec![
        ("right_up", text("270")),
        ("extra", json("1")),
        ("bottom_up", text("180")),
        ("left_up", text("90")),
        ("normal", text("Normal")),
    ]);
    assert_eq!(TransformMapping::from_json(&j), Ok(TransformMapping::from_transform_vec(None)));
}

#[test]
fn mapping_from_array_of_four() {
    let j = JsonValue::Array(vec![text("Flipped"), text("90"), text("180"), text("270")]);
    assert_eq!(
        TransformMapping::from_json(&j),
        Ok(mapping(Transform::Flipped, Transform::_90, Transform::_180, Transform::_270))
    );
    let short = JsonValue::Array(vec![text("Flipped"), text("90"), text("180")]);
    assert_eq!(
        TransformMapping::from_json(&short),
        Err(MappingError::InvalidLength(3, LengthExpected::MappingOfFour))
    );
    let long = json(r#"["Flipped", "90", "180", "270", "90"]"#);
    assert_eq!(
        TransformMapping::from_json(&long),
        Err(MappingError::InvalidLength(5, LengthExpected::FewerElements))
    );
    let bad = JsonValue::Array(vec![text("Flipped"), text("90"), text("181")]);
    assert_eq!(
        TransformMapping::from_json(&bad),
        Err(MappingError::TransformValue("unknown variant `181`, expected one of `Normal`, `90`, `180`, `270`, `Flipped`, `Flipped90`, `Flipped180`, `Flipped270`".to_string()))
    );
}

#[test]
fn mapping_errors() {
    assert_eq!(
        TransformMapping::from_json(&JsonValue::Null),
        Err(MappingError::InvalidType(Unexpected::Unit))
    );
    assert_eq!(
        TransformMapping::from_json(&text("Normal")),
        Err(MappingError::InvalidType(Unexpected::Str("Normal".to_string())))
    );
    let missing = object(vec![("normal", text("Normal")), ("left_up", text("90")), ("bottom_up", text("180"))]);
    assert_eq!(
        TransformMapping::from_json(&missing),
        Err(MappingError::MissingField(MappingField::RightUp))
    );
    // Members are read in order: a bad member is reported before a missing one.
    assert_eq!(
        TransformMapping::from_json(&object(vec![("left_up", text("bad"))])),
        Err(MappingError::TransformValue("unknown variant `bad`, expected one of `Normal`, `90`, `180`, `270`, `Flipped`, `Flipped90`, `Flipped180`, `Flipped270`".to_string()))
    );
    // serde_json's map walks its keys in sorted order: `bottom_up` is read
    // before `normal`, whatever the order of the text.
    let two_bad = json(r#"{"normal": "bad1", "bottom_up": "bad2"}"#);
    assert_eq!(
        TransformMapping::from_json(&two_bad).unwrap_err().message(),
        serde_transform_message(r#""bad2""#)
    );
}

#[test]
fn mapping_error_messages() {
    assert_eq!(
        MappingError::MissingField(MappingField::RightUp).message(),
        "missing field `right_up`"
    );
    assert_eq!(MappingError::TransformValue("x".to_string()).message(), "x");
    assert_eq!(
        MappingError::InvalidType(Unexpected::Str("a\"b".to_string())).message(),
        "invalid type: string \"a\\\"b\", expected struct TransformMapping"
    );
    assert_eq!(
        MappingError::InvalidType(Unexpected::Unit).message(),
        "invalid type: null, expected struct TransformMapping"
    );
    assert_eq!(
        MappingError::InvalidType(Unexpected::Bool(false)).message(),
        "invalid type: boolean `false`, expected struct TransformMapping"
    );
    assert_eq!(
        MappingError::InvalidType(Unexpected::Integer("-7".to_string())).message(),
        "invalid type: integer `-7`, expected struct TransformMapping"
    );
    assert_eq!(
        MappingError::InvalidLength(3, LengthExpected::MappingOfFour).message(),
        "invalid length 3, expected struct TransformMapping with 4 elements"
    );
    assert_eq!(
        MappingError::InvalidLength(12345, LengthExpected::FewerElements).message(),
        "invalid length 12345, expected fewer elements in array"
    );
}

fn serde_transform_message(text: &str) -> String {
    let v: serde_json::Value = serde_json::from_str(text).unwrap();
    serde_json::from_value::<niri_ipc::Transform>(v).unwrap_err().to_string()
}

#[test]
fn transform_errors_are_serde_json_errors() {
    for text in [r#""181""#, r#"{"180": true}"#, r#"{}"#, "null", "-12", "[1, 2]", "2.5e10"] {
        let ours = Transform::from_json(&json(text)).unwrap_err().message();
        assert_eq!(ours, serde_transform_message(text), "for {}", text);
    }
    for text in [r#""Flipped90""#, r#"{"270": null}"#] {
        let v: serde_json::Value = serde_json::from_str(text).unwrap();
        let theirs = serde_json::from_value::<niri_ipc::Transform>(v).unwrap();
        let ours = Transform::from_json(&json(text)).unwrap();
        assert_eq!(ours.name(), serde_json::to_value(theirs).unwrap().as_str().unwrap());
    }
}

/// serde_json names a value that is no mapping the way it names a value
/// that is no transform: only what was expected differs.
#[test]
fn mapping_type_errors_name_values_as_serde_json_does() {
    for text in ["null", "true", "-12", "7", "2.5e10", "1e20", "1e-7", "0.1"] {
        let ours = TransformMapping::from_json(&json(text)).unwrap_err().message();
        let theirs = serde_transform_message(text).replace("expected string or map", "expected struct TransformMapping");
        assert_eq!(ours, theirs, "for {}", text);
    }
    // A string is read as a transform's name; as the value of a transform
    // written as an object, serde_json names it as it does for a mapping.
    for text in [r#""a\"b\u00e9\n""#, r#""Normal""#, r#""""#] {
        let ours = TransformMapping::from_json(&json(text)).unwrap_err().message();
        let theirs = serde_transform_message(&format!(r#"{{"Normal": {}}}"#, text))
            .replace("expected unit", "expected struct TransformMapping");
        assert_eq!(ours, theirs, "for {}", text);
    }
}
