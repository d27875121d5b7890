use vstd::prelude::*;
use vstd::string::*;

use crate::json::same_text;
use crate::transform::Transform;

verus! {

/// What the logic reads of an output that Niri reports.
#[derive(Clone, Debug, PartialEq, Eq)]
pub struct OutputInfo {
    /// The name of the output.
    pub name: String,
    /// The transform of the logical output, `None` when the output is not
    /// mapped to a logical output (for example when it is disabled).
    pub logical_transform: Option<Transform>,
}

/// What is to be done to the monitor.
#[derive(Clone, Copy, Debug, PartialEq, Eq, Structural)]
pub enum OrientationUpdate {
    /// The monitor already has the transform: nothing is sent to Niri.
    Unchanged,
    /// Niri is to turn the monitor from one transform to the other.
    Apply { from: Transform, to: Transform },
}

/// Why the monitor could not be turned.
#[derive(Clone, Debug, PartialEq, Eq)]
pub enum OrientationError {
    /// The monitor is not mapped to a logical output.
    MissingLogical(String),
    /// The monitor is not among the outputs.
    UnknownMonitor(String),
}

/// The first output in `outputs` named `name`.
pub open spec fn find_output(outputs: Seq<OutputInfo>, name: Seq<char>) -> Option<OutputInfo>
    decreases outputs.len(),
{
    if outputs.len() == 0 {
        None
    } else if outputs[0].name@ == name {
        Some(outputs[0])
    } else {
        find_output(outputs.drop_first(), name)
    }
}

/// The message of an orientation error.
pub open spec fn orientation_error_message(e: OrientationError) -> Seq<char> {
    match e {
        OrientationError::MissingLogical(m) => "Couldn't get the logical output information from the provided monitor ("@
            + m@ + ")."@,
        OrientationError::UnknownMonitor(m) => "Couldn't find the provided monitor ("@ + m@
            + ") in the list of outputs."@,
    }
}

impl OrientationError {
    /// The message that tells what is wrong.
    pub fn message(&self) -> (r: String)
        ensures
            r@ == orientation_error_message(*self),
    {
        match self {
            OrientationError::MissingLogical(m) => {
                let mut s = String::from_str(
                    "Couldn't get the logical output information from the provided monitor (",
                );
                s.append(m.as_str());
                s.append(").");
                s
            },
            OrientationError::UnknownMonitor(m) => {
                let mut s = String::from_str("Couldn't find the provided monitor (");
                s.append(m.as_str());
                s.append(") in the list of outputs.");
                s
            },
        }
    }
}

proof fn lemma_find_output_skip(outputs: Seq<OutputInfo>, name: Seq<char>, i: int)
    requires
        0 <= i < outputs.len(),
        outputs[i].name@ != name,
    ensures
        find_output(outputs.skip(i), name) == find_output(outputs.skip(i + 1), name),
{
    assert(outputs.skip(i).drop_first() =~= outputs.skip(i + 1));
}

/// The first output named `name`.
pub fn find_output_by_name<'a>(outputs: &'a Vec<OutputInfo>, name: &str) -> (r: Option<&'a OutputInfo>)
    ensures
        match r {
            Some(o) => find_output(outputs@, name@) == Some(*o),
            None => find_output(outputs@, name@) is None,
        },
{
    let mut i: usize = 0;
    assert(outputs@.skip(0) =~= outputs@);
    while i < outputs.len()
        invariant
            i <= outputs.len(),
            find_output(outputs@, name@) == find_output(outputs@.skip(i as int), name@),
        decreases outputs.len() - i,
    {
        if same_text(outputs[i].name.as_str(), name) {
            assert(outputs@.skip(i as int)[0] == outputs@[i as int]);
            return Some(&outputs[i]);
        }
        proof {
            lemma_find_output_skip(outputs@, name@, i as int);
        }
        i = i + 1;
    }
    None
}

/// Decides what to do so that `monitor` takes the transform `target`, given
/// the outputs that Niri reports.
///
/// A monitor that already has the transform is left alone; one that Niri
/// does not know, or that has no logical output, is an error.
pub fn plan_orientation_update(monitor: &str, target: Transform, outputs: &Vec<OutputInfo>) -> (r:
    Result<OrientationUpdate, OrientationError>)
    ensures
        match find_output(outputs@, monitor@) {
            None => r matches Err(OrientationError::UnknownMonitor(m)) && m@ == monitor@,
            Some(o) => match o.logical_transform {
                None => r matches Err(OrientationError::MissingLogical(m)) && m@ == monitor@,
                Some(old) => if old == target {
                    r == Ok::<OrientationUpdate, OrientationError>(OrientationUpdate::Unchanged)
                } else {
                    r == Ok::<OrientationUpdate, OrientationError>(
                        OrientationUpdate::Apply { from: old, to: target },
                    )
                },
            },
        },
{
    match find_output_by_name(outputs, monitor) {
        None => Err(OrientationError::UnknownMonitor(monitor.to_owned())),
        Some(output) => match output.logical_transform {
            None => Err(OrientationError::MissingLogical(monitor.to_owned())),
            Some(old) => {
                if old == target {
                    Ok(OrientationUpdate::Unchanged)
                } else {
                    Ok(OrientationUpdate::Apply { from: old, to: target })
                }
            },
        },
    }
}

} // verus!
