use crate::text::str_eq;
use vstd::prelude::*;

verus! {

/// The arguments of `win.set-label`: a position, `above` or `below`, and the
/// text to show there.
pub open spec fn label_args(items: Seq<Seq<char>>) -> Option<(Seq<char>, Seq<char>)> {
    if items.len() >= 2 && (items[0] == "above"@ || items[0] == "below"@) {
        Some((items[0], items[1]))
    } else {
        None
    }
}

/// The position and text that `win.set-label` was given, read from its
/// string array; `None` when the first item is neither `above` nor `below`
/// or there is no second item.
pub fn extract_str_array(items: &Vec<String>) -> (r: Option<(String, String)>)
    ensures
        r is None <==> label_args(items.deep_view()) is None,
        r matches Some((position, text)) ==> label_args(items.deep_view()) == Some(
            (position@, text@),
        ),
{
    if items.len() == 0 {
        return None;
    }
    let position = items[0].as_str();
    if !str_eq(position, "above") && !str_eq(position, "below") {
        return None;
    }
    if items.len() < 2 {
        return None;
    }
    Some((items[0].clone(), items[1].clone()))
}

/// What a D-Bus signal on the waylyrics interface asks of the window.
pub enum SignalAction {
    /// Show this text in the upper label.
    SetAboveLabel(String),
    /// Show this text in the lower label.
    SetBelowLabel(String),
    /// A label signal whose first argument is not a string.
    InvalidArguments,
    /// A signal that needs no action here.
    Ignore,
    /// A signal of another name.
    Unknown,
}

/// The action for D-Bus signal `signal_name`, given its first argument when
/// that is a string.
pub fn signal_action(signal_name: &str, text: Option<String>) -> (r: SignalAction)
    ensures
        signal_name@ == "SetAboveLabel"@ ==> match text {
            Some(t) => r == SignalAction::SetAboveLabel(t),
            None => r == SignalAction::InvalidArguments,
        },
        signal_name@ == "SetBelowLabel"@ ==> match text {
            Some(t) => r == SignalAction::SetBelowLabel(t),
            None => r == SignalAction::InvalidArguments,
        },
        signal_name@ == "LoadLyricCache"@ ==> r == SignalAction::Ignore,
        signal_name@ != "SetAboveLabel"@ && signal_name@ != "SetBelowLabel"@ && signal_name@
            != "LoadLyricCache"@ ==> r == SignalAction::Unknown,
{
    proof {
        reveal_strlit("SetAboveLabel");
        reveal_strlit("SetBelowLabel");
        reveal_strlit("LoadLyricCache");
        assert("SetAboveLabel"@[3] != "SetBelowLabel"@[3]);
        assert("SetAboveLabel"@.len() != "LoadLyricCache"@.len());
        assert("SetBelowLabel"@.len() != "LoadLyricCache"@.len());
    }
    if str_eq(signal_name, "SetAboveLabel") {
        match text {
            Some(t) => SignalAction::SetAboveLabel(t),
            None => SignalAction::InvalidArguments,
        }
    } else if str_eq(signal_name, "SetBelowLabel") {
        match text {
            Some(t) => SignalAction::SetBelowLabel(t),
            None => SignalAction::InvalidArguments,
        }
    } else if str_eq(signal_name, "LoadLyricCache") {
        SignalAction::Ignore
    } else {
        SignalAction::Unknown
    }
}

} // verus!
