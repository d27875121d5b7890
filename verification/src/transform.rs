use vstd::prelude::*;
use vstd::string::*;

use crate::json::{
    debug_quoted, debug_text, decimal, decimal_text, find_member, is_text, json_to_value, lookup,
    number_string, same_text, JsonValue, JsonView,
};

verus! {

/// An output transform of Niri, which goes counter-clockwise.
#[derive(Clone, Copy, Debug, PartialEq, Eq, Structural)]
pub enum Transform {
    /// Untransformed.
    Normal,
    /// Rotated by 90°.
    _90,
    /// Rotated by 180°.
    _180,
    /// Rotated by 270°.
    _270,
    /// Flipped horizontally.
    Flipped,
    /// Rotated by 90° and flipped horizontally.
    Flipped90,
    /// Flipped vertically.
    Flipped180,
    /// Rotated by 270° and flipped horizontally.
    Flipped270,
}

/// The name a transform has in JSON.
pub open spec fn transform_name(t: Transform) -> Seq<char> {
    match t {
        Transform::Normal => "Normal"@,
        Transform::_90 => "90"@,
        Transform::_180 => "180"@,
        Transform::_270 => "270"@,
        Transform::Flipped => "Flipped"@,
        Transform::Flipped90 => "Flipped90"@,
        Transform::Flipped180 => "Flipped180"@,
        Transform::Flipped270 => "Flipped270"@,
    }
}

/// The transform that has the JSON name `s`, if any.
pub open spec fn transform_named(s: Seq<char>) -> Option<Transform> {
    if s == "Normal"@ {
        Some(Transform::Normal)
    } else if s == "90"@ {
        Some(Transform::_90)
    } else if s == "180"@ {
        Some(Transform::_180)
    } else if s == "270"@ {
        Some(Transform::_270)
    } else if s == "Flipped"@ {
        Some(Transform::Flipped)
    } else if s == "Flipped90"@ {
        Some(Transform::Flipped90)
    } else if s == "Flipped180"@ {
        Some(Transform::Flipped180)
    } else if s == "Flipped270"@ {
        Some(Transform::Flipped270)
    } else {
        None
    }
}

/// Every transform is found again from its JSON name.
pub proof fn lemma_transform_name_round_trip(t: Transform)
    ensures
        transform_named(transform_name(t)) == Some(t),
{
    reveal_strlit("Normal");
    reveal_strlit("90");
    reveal_strlit("180");
    reveal_strlit("270");
    reveal_strlit("Flipped");
    reveal_strlit("Flipped90");
    reveal_strlit("Flipped180");
    reveal_strlit("Flipped270");
    assert("180"@[0] == '1' && "270"@[0] == '2');
    assert("Flipped180"@[7] == '1' && "Flipped270"@[7] == '2');
    assert("Normal"@.len() == 6 && "90"@.len() == 2 && "180"@.len() == 3 && "270"@.len() == 3);
    assert("Flipped"@.len() == 7 && "Flipped90"@.len() == 9 && "Flipped180"@.len() == 10
        && "Flipped270"@.len() == 10);
}

impl Transform {
    /// The name of this transform in JSON.
    pub fn name(&self) -> (r: &'static str)
        ensures
            r@ == transform_name(*self),
    {
        match self {
            Transform::Normal => "Normal",
            Transform::_90 => "90",
            Transform::_180 => "180",
            Transform::_270 => "270",
            Transform::Flipped => "Flipped",
            Transform::Flipped90 => "Flipped90",
            Transform::Flipped180 => "Flipped180",
            Transform::Flipped270 => "Flipped270",
        }
    }

    /// The transform whose JSON name is `s`.
    pub fn from_name(s: &str) -> (r: Option<Transform>)
        ensures
            r == transform_named(s@),
    {
        if same_text(s, "Normal") {
            Some(Transform::Normal)
        } else if same_text(s, "90") {
            Some(Transform::_90)
        } else if same_text(s, "180") {
            Some(Transform::_180)
        } else if same_text(s, "270") {
            Some(Transform::_270)
        } else if same_text(s, "Flipped") {
            Some(Transform::Flipped)
        } else if same_text(s, "Flipped90") {
            Some(Transform::Flipped90)
        } else if same_text(s, "Flipped180") {
            Some(Transform::Flipped180)
        } else if same_text(s, "Flipped270") {
            Some(Transform::Flipped270)
        } else {
            None
        }
    }

    /// This transform as JSON: a string holding its name.
    pub fn to_json(&self) -> (r: JsonValue)
        ensures
            is_text(r, transform_name(*self)),
    {
        JsonValue::text(self.name())
    }
}

/// Maps the four accelerometer orientations to the transforms of Niri.
///
/// On some devices the accelerometer is not mounted the way the display is;
/// passing `90,normal,180,270` maps normal to 90, left-up to normal,
/// bottom-up to 180 and right-up to 270.
#[derive(Clone, Copy, Debug, PartialEq, Eq, Structural)]
pub struct TransformMapping {
    pub normal: Transform,
    pub left_up: Transform,
    pub bottom_up: Transform,
    pub right_up: Transform,
}

/// What an accelerometer orientation asks of the screen.
#[derive(Clone, Copy, Debug, PartialEq, Eq, Structural)]
pub enum TransformAction {
    /// The orientation names no rotation: the screen stays as it is.
    KeepPrevious,
    /// The screen is to take this transform.
    SetTo(Transform),
}

/// A member of the JSON form of a [`TransformMapping`].
#[derive(Clone, Copy, Debug, PartialEq, Eq, Structural)]
pub enum MappingField {
    Normal,
    LeftUp,
    BottomUp,
    RightUp,
}

/// What a JSON value was found to be where it did not fit, in the words of
/// serde_json's error messages.
#[derive(Clone, Debug, PartialEq, Eq)]
pub enum Unexpected {
    /// `null`.
    Unit,
    Bool(bool),
    /// A number written without a fraction or an exponent, with its text.
    Integer(String),
    /// Any other number, with its text.
    Float(String),
    Str(String),
    Sequence,
    Object,
}

/// What an array of the wrong length was expected to be.
#[derive(Clone, Copy, Debug, PartialEq, Eq, Structural)]
pub enum LengthExpected {
    /// An array that is too short: four elements.
    MappingOfFour,
    /// An array that is too long: fewer elements.
    FewerElements,
}

/// Why a JSON value is no [`TransformMapping`], as serde's derived reading of
/// a struct with four transforms reports it.
#[derive(Clone, Debug, PartialEq, Eq)]
pub enum MappingError {
    /// Neither an object nor an array.
    InvalidType(Unexpected),
    /// A member, or an element, that serde_json does not read as a transform:
    /// serde_json's message.
    TransformValue(String),
    /// An object without this member.
    MissingField(MappingField),
    /// An array of the wrong length: the length found.
    InvalidLength(usize, LengthExpected),
}

/// The members read so far of a mapping written as an object.
#[derive(Clone, Copy, Debug, PartialEq, Eq)]
pub struct PartialMapping {
    pub normal: Option<Transform>,
    pub left_up: Option<Transform>,
    pub bottom_up: Option<Transform>,
    pub right_up: Option<Transform>,
}

/// The mapping used when none is given: each orientation turns the screen
/// the same way round.
pub open spec fn default_mapping() -> TransformMapping {
    TransformMapping {
        normal: Transform::Normal,
        left_up: Transform::_90,
        bottom_up: Transform::_180,
        right_up: Transform::_270,
    }
}

/// The mapping made of the first four transforms of `v`, in the order
/// normal, left-up, bottom-up, right-up.
pub open spec fn mapping_of_seq(v: Seq<Transform>) -> TransformMapping {
    TransformMapping { normal: v[0], left_up: v[1], bottom_up: v[2], right_up: v[3] }
}

/// What the accelerometer orientation named `o` asks for under `m`.
pub open spec fn orientation_action(m: TransformMapping, o: Seq<char>) -> TransformAction {
    if o == "normal"@ {
        TransformAction::SetTo(m.normal)
    } else if o == "left-up"@ {
        TransformAction::SetTo(m.left_up)
    } else if o == "bottom-up"@ {
        TransformAction::SetTo(m.bottom_up)
    } else if o == "right-up"@ {
        TransformAction::SetTo(m.right_up)
    } else {
        TransformAction::KeepPrevious
    }
}

/// `o` is one of the orientations iio-sensor-proxy names for a screen turned
/// some way: `normal`, `left-up`, `bottom-up` or `right-up`.
pub open spec fn is_orientation_name(o: Seq<char>) -> bool {
    o == "normal"@ || o == "left-up"@ || o == "bottom-up"@ || o == "right-up"@
}

/// Each of the four accelerometer orientations asks for the transform that
/// the mapping gives for it, and any other orientation (such as `undefined`)
/// leaves the screen as it is.
pub proof fn lemma_orientation_follows_mapping(m: TransformMapping)
    ensures
        orientation_action(m, "normal"@) == TransformAction::SetTo(m.normal),
        orientation_action(m, "left-up"@) == TransformAction::SetTo(m.left_up),
        orientation_action(m, "bottom-up"@) == TransformAction::SetTo(m.bottom_up),
        orientation_action(m, "right-up"@) == TransformAction::SetTo(m.right_up),
        forall|o: Seq<char>|
            !is_orientation_name(o) ==> #[trigger] orientation_action(m, o)
                == TransformAction::KeepPrevious,
{
    reveal_strlit("normal");
    reveal_strlit("left-up");
    reveal_strlit("bottom-up");
    reveal_strlit("right-up");
    assert("normal"@.len() == 6 && "left-up"@.len() == 7 && "bottom-up"@.len() == 9
        && "right-up"@.len() == 8);
}

/// The key of a member in JSON.
pub open spec fn field_key(f: MappingField) -> Seq<char> {
    match f {
        MappingField::Normal => "normal"@,
        MappingField::LeftUp => "left_up"@,
        MappingField::BottomUp => "bottom_up"@,
        MappingField::RightUp => "right_up"@,
    }
}

/// Whether the text of a number has a fraction or an exponent.
pub open spec fn is_float_text(s: Seq<char>) -> bool {
    exists|i: int| 0 <= i < s.len() && (s[i] == '.' || s[i] == 'e' || s[i] == 'E')
}

/// What a value is, for an error message.
pub open spec fn unexpected_of(j: JsonValue) -> Unexpected {
    match j {
        JsonValue::Null => Unexpected::Unit,
        JsonValue::Bool(b) => Unexpected::Bool(b),
        JsonValue::Number(n) => if is_float_text(number_string(n)@) {
            Unexpected::Float(number_string(n))
        } else {
            Unexpected::Integer(number_string(n))
        },
        JsonValue::String(s) => Unexpected::Str(s),
        JsonValue::Array(_) => Unexpected::Sequence,
        JsonValue::Object(_) => Unexpected::Object,
    }
}

/// What `serde_json::from_value::<niri_ipc::Transform>` makes of a value:
/// the transform, or the message of its error.
pub uninterp spec fn transform_read(v: JsonView) -> Result<Transform, Seq<char>>;

/// The transform a JSON value names, as serde_json reads a
/// `niri_ipc::Transform`: a string holding a transform's name gives that
/// transform; anything else is left to serde_json.
pub open spec fn transform_from_json(j: JsonValue) -> Result<Transform, Seq<char>> {
    match j {
        JsonValue::String(s) => match transform_named(s@) {
            Some(t) => Ok(t),
            None => transform_read(j@),
        },
        _ => transform_read(j@),
    }
}

/// `j` is a string holding a transform's name.
pub open spec fn names_transform(j: JsonValue) -> bool {
    j matches JsonValue::String(s) && transform_named(s@) is Some
}

/// A result with its error message taken by its characters.
pub open spec fn text_err(r: Result<Transform, String>) -> Result<Transform, Seq<char>> {
    match r {
        Ok(t) => Ok(t),
        Err(e) => Err(e@),
    }
}

/// A result with its error taken by its message.
pub open spec fn errs<T>(r: Result<T, MappingError>) -> Result<T, Seq<char>> {
    match r {
        Ok(t) => Ok(t),
        Err(e) => Err(mapping_error_message(e)),
    }
}

/// The mapping once every member is read; the first missing member, in the
/// order normal, left_up, bottom_up, right_up, is an error.
pub open spec fn finish_partial(p: PartialMapping) -> Result<TransformMapping, Seq<char>> {
    match p.normal {
        None => Err(mapping_error_message(MappingError::MissingField(MappingField::Normal))),
        Some(n) => match p.left_up {
            None => Err(mapping_error_message(MappingError::MissingField(MappingField::LeftUp))),
            Some(l) => match p.bottom_up {
                None => Err(mapping_error_message(MappingError::MissingField(MappingField::BottomUp))),
                Some(b) => match p.right_up {
                    None => Err(mapping_error_message(MappingError::MissingField(MappingField::RightUp))),
                    Some(r) => Ok(TransformMapping { normal: n, left_up: l, bottom_up: b, right_up: r }),
                },
            },
        },
    }
}

/// The member `f` of an object: absent, or the transform its value names.
pub open spec fn member_transform(fields: Seq<(String, JsonValue)>, f: MappingField) -> Result<
    Option<Transform>,
    Seq<char>,
> {
    match lookup(fields, field_key(f)) {
        None => Ok(None),
        Some(v) => match transform_from_json(v) {
            Ok(t) => Ok(Some(t)),
            Err(e) => Err(e),
        },
    }
}

/// Reads the members of an object as serde's derived `visit_map` reads a
/// `serde_json::Map`. With serde_json's default features (the daemon asks for
/// no other), that map walks its keys in sorted order: `bottom_up`,
/// `left_up`, `normal`, `right_up`. Other keys are skipped, a member that
/// names no transform is an error at once, and missing members are an error
/// at the end, in the order of the struct's fields.
pub open spec fn read_members(fields: Seq<(String, JsonValue)>) -> Result<TransformMapping, Seq<char>> {
    match member_transform(fields, MappingField::BottomUp) {
        Err(e) => Err(e),
        Ok(b) => match member_transform(fields, MappingField::LeftUp) {
            Err(e) => Err(e),
            Ok(l) => match member_transform(fields, MappingField::Normal) {
                Err(e) => Err(e),
                Ok(n) => match member_transform(fields, MappingField::RightUp) {
                    Err(e) => Err(e),
                    Ok(r) => finish_partial(
                        PartialMapping { normal: n, left_up: l, bottom_up: b, right_up: r },
                    ),
                },
            },
        },
    }
}

/// The element `i` of an array read as the `i`-th member of a mapping.
pub open spec fn element_transform(items: Seq<JsonValue>, i: int) -> Result<Transform, Seq<char>> {
    if i < items.len() {
        transform_from_json(items[i])
    } else {
        Err(mapping_error_message(MappingError::InvalidLength(i as usize, LengthExpected::MappingOfFour)))
    }
}

/// Builds a mapping from four results, the first error winning.
pub open spec fn mapping_of_results(
    n: Result<Transform, Seq<char>>,
    l: Result<Transform, Seq<char>>,
    b: Result<Transform, Seq<char>>,
    r: Result<Transform, Seq<char>>,
) -> Result<TransformMapping, Seq<char>> {
    match n {
        Err(e) => Err(e),
        Ok(n) => match l {
            Err(e) => Err(e),
            Ok(l) => match b {
                Err(e) => Err(e),
                Ok(b) => match r {
                    Err(e) => Err(e),
                    Ok(r) => Ok(TransformMapping { normal: n, left_up: l, bottom_up: b, right_up: r }),
                },
            },
        },
    }
}

/// The mapping a JSON value describes, read as serde reads a struct from a
/// `serde_json::Value`: an object whose members `normal`, `left_up`,
/// `bottom_up` and `right_up` name transforms (other members are ignored),
/// or an array of exactly four transforms in that order.
pub open spec fn mapping_from_json(j: JsonValue) -> Result<TransformMapping, Seq<char>> {
    match j {
        JsonValue::Object(fields) => read_members(fields@),
        JsonValue::Array(items) => match mapping_of_results(
            element_transform(items@, 0),
            element_transform(items@, 1),
            element_transform(items@, 2),
            element_transform(items@, 3),
        ) {
            Err(e) => Err(e),
            Ok(m) => if items@.len() > 4 {
                Err(
                    mapping_error_message(
                        MappingError::InvalidLength(items@.len() as usize, LengthExpected::FewerElements),
                    ),
                )
            } else {
                Ok(m)
            },
        },
        _ => Err(mapping_error_message(MappingError::InvalidType(unexpected_of(j)))),
    }
}

/// `j` is the JSON that [`TransformMapping::to_json`] writes for `m`.
pub open spec fn is_mapping_json(m: TransformMapping, j: JsonValue) -> bool {
    &&& j matches JsonValue::Object(fields)
    &&& fields@.len() == 4
    &&& fields@[0].0@ == "normal"@ && is_text(fields@[0].1, transform_name(m.normal))
    &&& fields@[1].0@ == "left_up"@ && is_text(fields@[1].1, transform_name(m.left_up))
    &&& fields@[2].0@ == "bottom_up"@ && is_text(fields@[2].1, transform_name(m.bottom_up))
    &&& fields@[3].0@ == "right_up"@ && is_text(fields@[3].1, transform_name(m.right_up))
}

/// `j` is the JSON that [`TransformMapping::to_request_json`] writes for `m`.
pub open spec fn is_request_mapping_json(m: TransformMapping, j: JsonValue) -> bool {
    &&& j matches JsonValue::Object(fields)
    &&& fields@.len() == 4
    &&& fields@[0].0@ == "bottom_up"@ && is_text(fields@[0].1, transform_name(m.bottom_up))
    &&& fields@[1].0@ == "left_up"@ && is_text(fields@[1].1, transform_name(m.left_up))
    &&& fields@[2].0@ == "normal"@ && is_text(fields@[2].1, transform_name(m.normal))
    &&& fields@[3].0@ == "right_up"@ && is_text(fields@[3].1, transform_name(m.right_up))
}

/// How serde names what it found.
pub open spec fn unexpected_message(u: Unexpected) -> Seq<char> {
    match u {
        Unexpected::Unit => "null"@,
        Unexpected::Bool(b) => if b {
            "boolean `true`"@
        } else {
            "boolean `false`"@
        },
        Unexpected::Integer(t) => "integer `"@ + t@ + "`"@,
        Unexpected::Float(t) => "floating point `"@ + t@ + "`"@,
        Unexpected::Str(s) => "string "@ + debug_quoted(s@),
        Unexpected::Sequence => "sequence"@,
        Unexpected::Object => "map"@,
    }
}

/// How serde names the length it expected.
pub open spec fn length_expected_message(e: LengthExpected) -> Seq<char> {
    match e {
        LengthExpected::MappingOfFour => "struct TransformMapping with 4 elements"@,
        LengthExpected::FewerElements => "fewer elements in array"@,
    }
}

/// The message of a mapping error, in serde's words.
pub open spec fn mapping_error_message(e: MappingError) -> Seq<char> {
    match e {
        MappingError::InvalidType(u) => "invalid type: "@ + unexpected_message(u)
            + ", expected struct TransformMapping"@,
        MappingError::TransformValue(m) => m@,
        MappingError::MissingField(f) => "missing field `"@ + field_key(f) + "`"@,
        MappingError::InvalidLength(n, x) => "invalid length "@ + decimal_text(n as nat)
            + ", expected "@ + length_expected_message(x),
    }
}

impl MappingField {
    /// The key of this member in JSON.
    pub fn key(&self) -> (r: &'static str)
        ensures
            r@ == field_key(*self),
    {
        match self {
            MappingField::Normal => "normal",
            MappingField::LeftUp => "left_up",
            MappingField::BottomUp => "bottom_up",
            MappingField::RightUp => "right_up",
        }
    }
}

/// Whether the text of a number has a fraction or an exponent.
fn has_float_mark(s: &String) -> (r: bool)
    ensures
        r == is_float_text(s@),
{
    let text = s.as_str();
    let n = text.unicode_len();
    let mut i: usize = 0;
    while i < n
        invariant
            n == text@.len(),
            text@ == s@,
            i <= n,
            forall|k: int| 0 <= k < i ==> !(text@[k] == '.' || text@[k] == 'e' || text@[k] == 'E'),
        decreases n - i,
    {
        let c = text.get_char(i);
        if c == '.' || c == 'e' || c == 'E' {
            return true;
        }
        i = i + 1;
    }
    false
}

impl Unexpected {
    /// What a value is, for an error message.
    pub fn of(j: &JsonValue) -> (r: Unexpected)
        ensures
            r == unexpected_of(*j),
    {
        match j {
            JsonValue::Null => Unexpected::Unit,
            JsonValue::Bool(b) => Unexpected::Bool(*b),
            JsonValue::Number(n) => {
                let t = n.text();
                if has_float_mark(t) {
                    Unexpected::Float(t.clone())
                } else {
                    Unexpected::Integer(t.clone())
                }
            },
            JsonValue::String(s) => Unexpected::Str(s.clone()),
            JsonValue::Array(_) => Unexpected::Sequence,
            JsonValue::Object(_) => Unexpected::Object,
        }
    }

    /// `j` is the JSON that [`TransformMapping::to_request_json`] writes for `m`.
pub open spec fn is_request_mapping_json(m: TransformMapping, j: JsonValue) -> bool {
    &&& j matches JsonValue::Object(fields)
    &&& fields@.len() == 4
    &&& fields@[0].0@ == "bottom_up"@ && is_text(fields@[0].1, transform_name(m.bottom_up))
    &&& fields@[1].0@ == "left_up"@ && is_text(fields@[1].1, transform_name(m.left_up))
    &&& fields@[2].0@ == "normal"@ && is_text(fields@[2].1, transform_name(m.normal))
    &&& fields@[3].0@ == "right_up"@ && is_text(fields@[3].1, transform_name(m.right_up))
}

/// How serde names what it found.
    pub fn message(&self) -> (r: String)
        ensures
            r@ == unexpected_message(*self),
    {
        match self {
            Unexpected::Unit => String::from_str("null"),
            Unexpected::Bool(b) => if *b {
                String::from_str("boolean `true`")
            } else {
                String::from_str("boolean `false`")
            },
            Unexpected::Integer(t) => {
                let mut s = String::from_str("integer `");
                s.append(t.as_str());
                s.append("`");
                s
            },
            Unexpected::Float(t) => {
                let mut s = String::from_str("floating point `");
                s.append(t.as_str());
                s.append("`");
                s
            },
            Unexpected::Str(t) => {
                let mut s = String::from_str("string ");
                let quoted = debug_text(t.as_str());
                s.append(quoted.as_str());
                s
            },
            Unexpected::Sequence => String::from_str("sequence"),
            Unexpected::Object => String::from_str("map"),
        }
    }
}

impl LengthExpected {
    /// How serde names the length it expected.
    pub fn message(&self) -> (r: &'static str)
        ensures
            r@ == length_expected_message(*self),
    {
        match self {
            LengthExpected::MappingOfFour => "struct TransformMapping with 4 elements",
            LengthExpected::FewerElements => "fewer elements in array",
        }
    }
}

impl MappingError {
    /// The message that tells what is wrong, in serde's words.
    pub fn message(&self) -> (r: String)
        ensures
            r@ == mapping_error_message(*self),
    {
        match self {
            MappingError::InvalidType(u) => {
                let mut s = String::from_str("invalid type: ");
                let found = u.message();
                s.append(found.as_str());
                s.append(", expected struct TransformMapping");
                s
            },
            MappingError::TransformValue(m) => m.clone(),
            MappingError::MissingField(f) => {
                let mut s = String::from_str("missing field `");
                s.append(f.key());
                s.append("`");
                s
            },
            MappingError::InvalidLength(n, x) => {
                let mut s = String::from_str("invalid length ");
                let digits = decimal(*n);
                s.append(digits.as_str());
                s.append(", expected ");
                s.append(x.message());
                s
            },
        }
    }
}

/// Reads a transform with `serde_json::from_value::<niri_ipc::Transform>`.
///
/// The contract claims that a string holding a transform's name (the names
/// niri_ipc's `Deserialize` takes: `Normal`, `90`, …) gives that transform,
/// and otherwise only that the outcome is a function of the value (named
/// [`transform_read`]); which other values serde_json accepts, and its
/// messages, are serde_json's.
#[verifier::external_body]
fn read_transform(v: &JsonValue) -> (r: Result<Transform, String>)
    ensures
        text_err(r) == if names_transform(*v) {
            Ok(transform_named(v->String_0@)->0)
        } else {
            transform_read(v@)
        },
{
    match serde_json::from_value::<niri_ipc::Transform>(json_to_value(v)) {
        Ok(niri_ipc::Transform::Normal) => Ok(Transform::Normal),
        Ok(niri_ipc::Transform::_90) => Ok(Transform::_90),
        Ok(niri_ipc::Transform::_180) => Ok(Transform::_180),
        Ok(niri_ipc::Transform::_270) => Ok(Transform::_270),
        Ok(niri_ipc::Transform::Flipped) => Ok(Transform::Flipped),
        Ok(niri_ipc::Transform::Flipped90) => Ok(Transform::Flipped90),
        Ok(niri_ipc::Transform::Flipped180) => Ok(Transform::Flipped180),
        Ok(niri_ipc::Transform::Flipped270) => Ok(Transform::Flipped270),
        Err(e) => Err(e.to_string()),
    }
}

impl Transform {
    /// The transform that a JSON value names, as serde_json reads it.
    pub fn from_json(j: &JsonValue) -> (r: Result<Transform, MappingError>)
        ensures
            errs(r) == transform_from_json(*j),
    {
        match read_transform(j) {
            Ok(t) => Ok(t),
            Err(e) => Err(MappingError::TransformValue(e)),
        }
    }
}

impl PartialMapping {
    /// The mapping once every member is read.
    pub fn finish(&self) -> (r: Result<TransformMapping, MappingError>)
        ensures
            errs(r) == finish_partial(*self),
    {
        let n = match self.normal {
            Some(t) => t,
            None => return Err(MappingError::MissingField(MappingField::Normal)),
        };
        let l = match self.left_up {
            Some(t) => t,
            None => return Err(MappingError::MissingField(MappingField::LeftUp)),
        };
        let b = match self.bottom_up {
            Some(t) => t,
            None => return Err(MappingError::MissingField(MappingField::BottomUp)),
        };
        let r = match self.right_up {
            Some(t) => t,
            None => return Err(MappingError::MissingField(MappingField::RightUp)),
        };
        Ok(TransformMapping { normal: n, left_up: l, bottom_up: b, right_up: r })
    }
}

fn member_from_json(fields: &Vec<(String, JsonValue)>, f: MappingField) -> (r: Result<
    Option<Transform>,
    MappingError,
>)
    ensures
        errs(r) == member_transform(fields@, f),
{
    match find_member(fields, f.key()) {
        None => Ok(None),
        Some(v) => match Transform::from_json(v) {
            Ok(t) => Ok(Some(t)),
            Err(e) => Err(e),
        },
    }
}

fn read_object(fields: &Vec<(String, JsonValue)>) -> (r: Result<TransformMapping, MappingError>)
    ensures
        errs(r) == read_members(fields@),
{
    let b = member_from_json(fields, MappingField::BottomUp)?;
    let l = member_from_json(fields, MappingField::LeftUp)?;
    let n = member_from_json(fields, MappingField::Normal)?;
    let r = member_from_json(fields, MappingField::RightUp)?;
    let p = PartialMapping { normal: n, left_up: l, bottom_up: b, right_up: r };
    p.finish()
}

fn element_from_json(items: &Vec<JsonValue>, i: usize) -> (r: Result<Transform, MappingError>)
    ensures
        errs(r) == element_transform(items@, i as int),
{
    if i < items.len() {
        Transform::from_json(&items[i])
    } else {
        Err(MappingError::InvalidLength(i, LengthExpected::MappingOfFour))
    }
}

fn mapping_from_results(
    n: Result<Transform, MappingError>,
    l: Result<Transform, MappingError>,
    b: Result<Transform, MappingError>,
    r: Result<Transform, MappingError>,
) -> (m: Result<TransformMapping, MappingError>)
    ensures
        errs(m) == mapping_of_results(errs(n), errs(l), errs(b), errs(r)),
{
    let n = n?;
    let l = l?;
    let b = b?;
    let r = r?;
    Ok(TransformMapping { normal: n, left_up: l, bottom_up: b, right_up: r })
}

impl TransformMapping {
    /// The mapping given on the command line, or the default mapping when
    /// none is given.
    pub fn from_transform_vec(transform: Option<Vec<Transform>>) -> (r: TransformMapping)
        requires
            transform matches Some(v) ==> v.len() >= 4,
        ensures
            r == match transform {
                Some(v) => mapping_of_seq(v@),
                None => default_mapping(),
            },
    {
        match transform {
            Some(vec) => TransformMapping {
                normal: vec[0],
                left_up: vec[1],
                bottom_up: vec[2],
                right_up: vec[3],
            },
            None => TransformMapping {
                normal: Transform::Normal,
                left_up: Transform::_90,
                bottom_up: Transform::_180,
                right_up: Transform::_270,
            },
        }
    }

    /// What the accelerometer orientation `orientation` (as iio-sensor-proxy
    /// names it) asks for: the mapped transform for `normal`, `left-up`,
    /// `bottom-up` and `right-up`, and no change for anything else, such as
    /// `undefined`.
    pub fn parse_orientation(&self, orientation: &str) -> (r: TransformAction)
        ensures
            r == orientation_action(*self, orientation@),
            orientation@ == "normal"@ ==> r == TransformAction::SetTo(self.normal),
            orientation@ == "left-up"@ ==> r == TransformAction::SetTo(self.left_up),
            orientation@ == "bottom-up"@ ==> r == TransformAction::SetTo(self.bottom_up),
            orientation@ == "right-up"@ ==> r == TransformAction::SetTo(self.right_up),
            !is_orientation_name(orientation@) ==> r == TransformAction::KeepPrevious,
    {
        let r = if same_text(orientation, "normal") {
            TransformAction::SetTo(self.normal)
        } else if same_text(orientation, "left-up") {
            TransformAction::SetTo(self.left_up)
        } else if same_text(orientation, "bottom-up") {
            TransformAction::SetTo(self.bottom_up)
        } else if same_text(orientation, "right-up") {
            TransformAction::SetTo(self.right_up)
        } else {
            TransformAction::KeepPrevious
        };
        proof {
            lemma_orientation_follows_mapping(*self);
        }
        r
    }

    /// This mapping as JSON: an object with the members `normal`, `left_up`,
    /// `bottom_up` and `right_up`, in that order.
    pub fn to_json(&self) -> (r: JsonValue)
        ensures
            is_mapping_json(*self, r),
    {
        let mut fields: Vec<(String, JsonValue)> = Vec::new();
        fields.push((String::from_str("normal"), self.normal.to_json()));
        fields.push((String::from_str("left_up"), self.left_up.to_json()));
        fields.push((String::from_str("bottom_up"), self.bottom_up.to_json()));
        fields.push((String::from_str("right_up"), self.right_up.to_json()));
        JsonValue::Object(fields)
    }

    /// This mapping as the argument of a request: the members in sorted
    /// order (`bottom_up`, `left_up`, `normal`, `right_up`), as a mapping put
    /// into a `serde_json::Value` is written.
    pub fn to_request_json(&self) -> (r: JsonValue)
        ensures
            is_request_mapping_json(*self, r),
    {
        let mut fields: Vec<(String, JsonValue)> = Vec::new();
        fields.push((String::from_str("bottom_up"), self.bottom_up.to_json()));
        fields.push((String::from_str("left_up"), self.left_up.to_json()));
        fields.push((String::from_str("normal"), self.normal.to_json()));
        fields.push((String::from_str("right_up"), self.right_up.to_json()));
        JsonValue::Object(fields)
    }

    /// The mapping that a JSON value describes, with serde's errors.
    pub fn from_json(j: &JsonValue) -> (r: Result<TransformMapping, MappingError>)
        ensures
            errs(r) == mapping_from_json(*j),
    {
        match j {
            JsonValue::Object(fields) => read_object(fields),
            JsonValue::Array(items) => {
                let m = mapping_from_results(
                    element_from_json(items, 0),
                    element_from_json(items, 1),
                    element_from_json(items, 2),
                    element_from_json(items, 3),
                )?;
                if items.len() > 4 {
                    Err(MappingError::InvalidLength(items.len(), LengthExpected::FewerElements))
                } else {
                    Ok(m)
                }
            },
            _ => Err(MappingError::InvalidType(Unexpected::of(j))),
        }
    }
}

/// An object whose four members each hold a transform's name is read as the
/// mapping of those transforms, whatever the order of its members.
pub proof fn lemma_mapping_members_read_back(m: TransformMapping, j: JsonValue)
    requires
        j is Object,
        lookup(j->Object_0@, "normal"@) matches Some(v) && is_text(v, transform_name(m.normal)),
        lookup(j->Object_0@, "left_up"@) matches Some(v) && is_text(v, transform_name(m.left_up)),
        lookup(j->Object_0@, "bottom_up"@) matches Some(v) && is_text(v, transform_name(m.bottom_up)),
        lookup(j->Object_0@, "right_up"@) matches Some(v) && is_text(v, transform_name(m.right_up)),
    ensures
        mapping_from_json(j) == Ok::<TransformMapping, Seq<char>>(m),
{
    lemma_transform_name_round_trip(m.normal);
    lemma_transform_name_round_trip(m.left_up);
    lemma_transform_name_round_trip(m.bottom_up);
    lemma_transform_name_round_trip(m.right_up);
}

/// What [`TransformMapping::to_json`] writes, [`TransformMapping::from_json`]
/// reads back as the same mapping.
pub proof fn lemma_mapping_json_round_trip(m: TransformMapping, j: JsonValue)
    requires
        is_mapping_json(m, j),
    ensures
        mapping_from_json(j) == Ok::<TransformMapping, Seq<char>>(m),
{
    reveal_strlit("normal");
    reveal_strlit("left_up");
    reveal_strlit("bottom_up");
    reveal_strlit("right_up");
    reveal_with_fuel(lookup, 5);
    let fields = j->Object_0@;
    assert("normal"@.len() == 6 && "left_up"@.len() == 7 && "bottom_up"@.len() == 9
        && "right_up"@.len() == 8);
    assert(fields.drop_first()[0] == fields[1]);
    assert(fields.drop_first().drop_first()[0] == fields[2]);
    assert(fields.drop_first().drop_first().drop_first()[0] == fields[3]);
    assert(lookup(fields, "normal"@) == Some(fields[0].1));
    assert(lookup(fields, "left_up"@) == Some(fields[1].1));
    assert(lookup(fields, "bottom_up"@) == Some(fields[2].1));
    assert(lookup(fields, "right_up"@) == Some(fields[3].1));
    lemma_mapping_members_read_back(m, j);
}

/// What [`TransformMapping::to_request_json`] writes,
/// [`TransformMapping::from_json`] reads back as the same mapping.
pub proof fn lemma_request_mapping_round_trip(m: TransformMapping, j: JsonValue)
    requires
        is_request_mapping_json(m, j),
    ensures
        mapping_from_json(j) == Ok::<TransformMapping, Seq<char>>(m),
{
    reveal_strlit("normal");
    reveal_strlit("left_up");
    reveal_strlit("bottom_up");
    reveal_strlit("right_up");
    reveal_with_fuel(lookup, 5);
    let fields = j->Object_0@;
    assert("normal"@.len() == 6 && "left_up"@.len() == 7 && "bottom_up"@.len() == 9
        && "right_up"@.len() == 8);
    assert(fields.drop_first()[0] == fields[1]);
    assert(fields.drop_first().drop_first()[0] == fields[2]);
    assert(fields.drop_first().drop_first().drop_first()[0] == fields[3]);
    assert(lookup(fields, "bottom_up"@) == Some(fields[0].1));
    assert(lookup(fields, "left_up"@) == Some(fields[1].1));
    assert(lookup(fields, "normal"@) == Some(fields[2].1));
    assert(lookup(fields, "right_up"@) == Some(fields[3].1));
    lemma_mapping_members_read_back(m, j);
}

} // verus!
