use vstd::prelude::*;
use vstd::string::*;

verus! {

/// Why no monitor could be chosen.
#[derive(Clone, Debug, PartialEq, Eq)]
pub enum MonitorError {
    /// The monitor asked for is not among the outputs of Niri.
    NotConnected(String),
    /// Niri has no output at all.
    NoMonitor,
}

/// Whether one of `names` reads `name`.
pub open spec fn names_contain(names: Seq<String>, name: Seq<char>) -> bool {
    exists|i: int| 0 <= i < names.len() && #[trigger] names[i]@ == name
}

/// The monitor chosen among the outputs `names` of Niri: the one asked for
/// if it is connected, else the first output when none is asked for.
pub open spec fn chosen_monitor(names: Seq<String>, arg_monitor: Option<String>) -> Result<
    String,
    MonitorError,
> {
    match arg_monitor {
        Some(mon) => if names_contain(names, mon@) {
            Ok(mon)
        } else {
            Err(MonitorError::NotConnected(mon))
        },
        None => if names.len() > 0 {
            Ok(names[0])
        } else {
            Err(MonitorError::NoMonitor)
        },
    }
}

/// A monitor that the user gives is chosen exactly when an output of Niri
/// has that very name, and then it is the monitor chosen; otherwise it is
/// reported as not connected.
pub proof fn lemma_given_monitor_kept_iff_connected(names: Seq<String>, arg_monitor: Option<String>)
    ensures
        arg_monitor matches Some(mon) ==> (chosen_monitor(names, arg_monitor) is Ok <==> exists|i: int|
            0 <= i < names.len() && (#[trigger] names[i])@ == mon@),
        arg_monitor matches Some(mon) ==> (chosen_monitor(names, arg_monitor) matches Ok(m) ==> m
            == mon),
        arg_monitor matches Some(mon) ==> (chosen_monitor(names, arg_monitor) matches Err(e) ==> e
            == MonitorError::NotConnected(mon)),
{
}

/// With no monitor given, the first output of Niri is chosen, and only an
/// empty list of outputs is an error.
pub proof fn lemma_default_monitor_is_first(names: Seq<String>)
    ensures
        chosen_monitor(names, None) is Ok <==> names.len() > 0,
        chosen_monitor(names, None) matches Ok(m) ==> m == names[0],
        chosen_monitor(names, None) matches Err(e) ==> e == MonitorError::NoMonitor,
{
}

/// The message of a monitor error.
pub open spec fn monitor_error_message(e: MonitorError) -> Seq<char> {
    match e {
        MonitorError::NotConnected(m) => "The provided monitor ("@ + m@ + ") is not connected."@,
        MonitorError::NoMonitor => "Couldn't select the monitor to rotate."@,
    }
}

impl MonitorError {
    /// The message that tells what is wrong.
    pub fn message(&self) -> (r: String)
        ensures
            r@ == monitor_error_message(*self),
    {
        match self {
            MonitorError::NotConnected(m) => {
                let mut s = String::from_str("The provided monitor (");
                s.append(m.as_str());
                s.append(") is not connected.");
                s
            },
            MonitorError::NoMonitor => String::from_str("Couldn't select the monitor to rotate."),
        }
    }
}

/// Chooses the monitor to rotate among the outputs that Niri reports, named
/// by `output_names` in the order Niri's list was walked.
///
/// A monitor given by the user is kept if Niri knows it; with none given,
/// the first output is taken.
pub fn get_monitor(output_names: &Vec<String>, arg_monitor: Option<String>) -> (r: Result<
    String,
    MonitorError,
>)
    ensures
        r == chosen_monitor(output_names@, arg_monitor),
        arg_monitor matches Some(mon) ==> (r is Ok <==> exists|i: int|
            0 <= i < output_names@.len() && (#[trigger] output_names@[i])@ == mon@),
        arg_monitor matches Some(mon) ==> (r matches Ok(m) ==> m == mon),
        arg_monitor is None ==> (r is Ok <==> output_names@.len() > 0),
        arg_monitor is None ==> (r matches Ok(m) ==> m == output_names@[0]),
{
    proof {
        lemma_given_monitor_kept_iff_connected(output_names@, arg_monitor);
        lemma_default_monitor_is_first(output_names@);
    }
    match arg_monitor {
        Some(mon) => {
            let mut i: usize = 0;
            while i < output_names.len()
                invariant
                    i <= output_names.len(),
                    arg_monitor == Some(mon),
                    forall|j: int| 0 <= j < i ==> output_names@[j]@ != mon@,
                decreases output_names.len() - i,
            {
                if output_names[i] == mon {
                    assert(output_names@[i as int]@ == mon@);
                    return Ok(mon);
                }
                i = i + 1;
            }
            Err(MonitorError::NotConnected(mon))
        },
        None => {
            if output_names.len() > 0 {
                Ok(output_names[0].clone())
            } else {
                Err(MonitorError::NoMonitor)
            }
        },
    }
}

} // verus!
