use vstd::prelude::*;
use vstd::string::*;

use crate::args::ListenArgs;
use crate::json::{lookup, JsonValue};
use crate::monitor::{chosen_monitor, get_monitor, MonitorError};
use crate::transform::{
    default_mapping, is_mapping_json, lemma_mapping_json_round_trip,
    lemma_orientation_follows_mapping, mapping_from_json, mapping_of_seq, orientation_action,
    Transform, TransformAction, TransformMapping,
};

verus! {

/// The state of a running instance, which the control socket reads and
/// changes.
#[derive(Clone, Debug, PartialEq, Eq)]
pub struct State {
    /// Whether the rotation of the screen is locked.
    pub lock_rotation: bool,
    /// The monitor to rotate after the accelerometer.
    pub monitor: String,
    /// Maps the accelerometer orientations to the transforms of Niri.
    pub mapping: TransformMapping,
}

/// The mapping that the command line asks for.
pub open spec fn mapping_of_args(transform: Option<Vec<Transform>>) -> TransformMapping {
    match transform {
        Some(v) => mapping_of_seq(v@),
        None => default_mapping(),
    }
}

/// What an accelerometer orientation asks of the screen in state `s`: nothing
/// while the rotation is locked, else what the mapping says.
pub open spec fn orientation_target(s: State, orientation: Seq<char>) -> TransformAction {
    if s.lock_rotation {
        TransformAction::KeepPrevious
    } else {
        orientation_action(s.mapping, orientation)
    }
}

/// `j` is the JSON that [`State::to_json`] writes for `s`.
pub open spec fn is_state_json(s: State, j: JsonValue) -> bool {
    &&& j matches JsonValue::Object(fields)
    &&& fields@.len() == 3
    &&& fields@[0].0@ == "lock_rotation"@ && fields@[0].1 == JsonValue::Bool(s.lock_rotation)
    &&& fields@[1].0@ == "monitor"@ && fields@[1].1 == JsonValue::String(s.monitor)
    &&& fields@[2].0@ == "mapping"@ && is_mapping_json(s.mapping, fields@[2].1)
}

impl State {
    /// A copy of this state.
    pub fn copy(&self) -> (r: State)
        ensures
            r == *self,
    {
        State { lock_rotation: self.lock_rotation, monitor: self.monitor.clone(), mapping: self.mapping }
    }

    /// This state as JSON: an object with the members `lock_rotation`,
    /// `monitor` and `mapping`, in that order.
    pub fn to_json(&self) -> (r: JsonValue)
        ensures
            is_state_json(*self, r),
            r is Object,
            lookup(r->Object_0@, "lock_rotation"@) == Some(JsonValue::Bool(self.lock_rotation)),
            lookup(r->Object_0@, "monitor"@) == Some(JsonValue::String(self.monitor)),
            lookup(r->Object_0@, "mapping"@) matches Some(m) && mapping_from_json(m) == Ok::<
                TransformMapping,
                Seq<char>,
            >(self.mapping),
    {
        let mut fields: Vec<(String, JsonValue)> = Vec::new();
        fields.push((String::from_str("lock_rotation"), JsonValue::Bool(self.lock_rotation)));
        fields.push((String::from_str("monitor"), JsonValue::String(self.monitor.clone())));
        fields.push((String::from_str("mapping"), self.mapping.to_json()));
        let r = JsonValue::Object(fields);
        proof {
            lemma_state_json_reads_back(*self, r);
        }
        r
    }

    /// The first state of an instance: the rotation unlocked, the monitor
    /// chosen among the outputs `output_names` of Niri, and the mapping given
    /// on the command line.
    pub fn from_args(output_names: &Vec<String>, args: &ListenArgs) -> (r: Result<State, MonitorError>)
        requires
            args.transform matches Some(v) ==> v.len() >= 4,
        ensures
            r == match chosen_monitor(output_names@, args.monitor) {
                Ok(monitor) => Ok(
                    State {
                        lock_rotation: false,
                        monitor,
                        mapping: mapping_of_args(args.transform),
                    },
                ),
                Err(e) => Err(e),
            },
    {
        let arg_monitor = match &args.monitor {
            Some(m) => Some(m.clone()),
            None => None,
        };
        let monitor = get_monitor(output_names, arg_monitor)?;
        let transform = match &args.transform {
            Some(v) => Some(v.clone()),
            None => None,
        };
        let mapping = TransformMapping::from_transform_vec(transform);
        Ok(State { lock_rotation: false, monitor, mapping })
    }

    /// What the accelerometer orientation `orientation` asks of the screen.
    pub fn orientation_target(&self, orientation: &str) -> (r: TransformAction)
        ensures
            r == orientation_target(*self, orientation@),
            self.lock_rotation ==> r == TransformAction::KeepPrevious,
            !self.lock_rotation ==> r == orientation_action(self.mapping, orientation@),
    {
        if self.lock_rotation {
            TransformAction::KeepPrevious
        } else {
            self.mapping.parse_orientation(orientation)
        }
    }
}

/// While the rotation is locked, no accelerometer orientation turns the
/// screen.
pub proof fn lemma_locked_rotation_keeps_screen(s: State, orientation: Seq<char>)
    requires
        s.lock_rotation,
    ensures
        orientation_target(s, orientation) == TransformAction::KeepPrevious,
{
}

/// While the rotation is unlocked, each accelerometer orientation turns the
/// screen to the transform the state's mapping gives for it.
pub proof fn lemma_unlocked_rotation_follows_mapping(s: State)
    requires
        !s.lock_rotation,
    ensures
        orientation_target(s, "normal"@) == TransformAction::SetTo(s.mapping.normal),
        orientation_target(s, "left-up"@) == TransformAction::SetTo(s.mapping.left_up),
        orientation_target(s, "bottom-up"@) == TransformAction::SetTo(s.mapping.bottom_up),
        orientation_target(s, "right-up"@) == TransformAction::SetTo(s.mapping.right_up),
{
    lemma_orientation_follows_mapping(s.mapping);
}

/// The JSON of a state reads back as the state: its member `lock_rotation`
/// is the lock, `monitor` the monitor, and `mapping` reads back as the
/// mapping.
pub proof fn lemma_state_json_reads_back(s: State, j: JsonValue)
    requires
        is_state_json(s, j),
    ensures
        j is Object,
        lookup(j->Object_0@, "lock_rotation"@) == Some(JsonValue::Bool(s.lock_rotation)),
        lookup(j->Object_0@, "monitor"@) == Some(JsonValue::String(s.monitor)),
        lookup(j->Object_0@, "mapping"@) matches Some(m) && mapping_from_json(m) == Ok::<
            TransformMapping,
            Seq<char>,
        >(s.mapping),
{
    reveal_strlit("lock_rotation");
    reveal_strlit("monitor");
    reveal_strlit("mapping");
    reveal_with_fuel(lookup, 4);
    let fields = j->Object_0@;
    assert("lock_rotation"@.len() == 13 && "monitor"@.len() == 7 && "mapping"@.len() == 7);
    assert("monitor"@[1] == 'o' && "mapping"@[1] == 'a');
    assert(fields.drop_first()[0] == fields[1]);
    assert(fields.drop_first().drop_first()[0] == fields[2]);
    assert(lookup(fields, "lock_rotation"@) == Some(fields[0].1));
    assert(lookup(fields, "monitor"@) == Some(fields[1].1));
    assert(lookup(fields, "mapping"@) == Some(fields[2].1));
    lemma_mapping_json_round_trip(s.mapping, fields[2].1);
}

} // verus!
