//! The quick-connect panel: choosing a profile, the connect button and the
//! connection information under it.

use vstd::prelude::*;
use crate::gui::ConnectionStatus;
use crate::profile::{
    contains_id, find_profile, first_with_id, lemma_first_with_id_unique, profile_views, ProfileView,
    VpnProfile,
};
use crate::text::{append_str, str_eq, string_of};

verus! {

/// How a profile is listed for choosing: its name and, in brackets, its host.
pub open spec fn option_label(p: ProfileView) -> Seq<char> {
    p.name + " ("@ + p.host + ")"@
}

/// How a profile is listed for choosing.
pub fn profile_option_label(p: &VpnProfile) -> (s: String)
    ensures
        s@ == option_label(p@),
{
    let mut s = p.name.clone();
    append_str(&mut s, " (");
    append_str(&mut s, p.host.as_str());
    append_str(&mut s, ")");
    s
}

/// The choices the panel offers, one per profile, in order.
pub fn profile_options(profiles: &Vec<VpnProfile>) -> (r: Vec<String>)
    ensures
        r@.map_values(|s: String| s@) == profile_views(profiles@).map_values(|p: ProfileView| option_label(p)),
{
    let mut r: Vec<String> = Vec::new();
    let mut i: usize = 0;
    while i < profiles.len()
        invariant
            i <= profiles@.len(),
            r@.map_values(|s: String| s@) == profile_views(profiles@).take(i as int).map_values(
                |p: ProfileView| option_label(p),
            ),
        decreases profiles@.len() - i,
    {
        let l = profile_option_label(&profiles[i]);
        let ghost lv = l@;
        let ghost before = r@;
        r.push(l);
        assert(r@.map_values(|s: String| s@) =~= before.map_values(|s: String| s@).push(lv));
        assert(profile_views(profiles@).take(i + 1) =~= profile_views(profiles@).take(i as int).push(
            profiles@[i as int]@,
        ));
        i = i + 1;
    }
    assert(profile_views(profiles@).take(profiles@.len() as int) =~= profile_views(profiles@));
    r
}

/// Whether `i` is the first position in `s` of a profile listed as `label`.
pub open spec fn first_with_label(s: Seq<ProfileView>, label: Seq<char>, i: int) -> bool {
    &&& 0 <= i < s.len()
    &&& option_label(s[i]) == label
    &&& forall|j: int| 0 <= j < i ==> option_label(#[trigger] s[j]) != label
}

/// Whether some profile of `s` is listed as `label`.
pub open spec fn has_label(s: Seq<ProfileView>, label: Seq<char>) -> bool {
    exists|i: int| 0 <= i < s.len() && option_label(#[trigger] s[i]) == label
}

/// The choice shown as selected: the label of the first profile with the
/// selected identifier, if there is one.
pub fn current_selection(profiles: &Vec<VpnProfile>, selected: Option<&str>) -> (r: Option<String>)
    ensures
        match selected {
            None => r is None,
            Some(id) => (r is None <==> !contains_id(profile_views(profiles@), id@)) && forall|i: int|
                #[trigger] first_with_id(profile_views(profiles@), id@, i) ==> (r matches Some(l) && l@
                    == option_label(profile_views(profiles@)[i])),
        },
{
    match selected {
        None => None,
        Some(id) => match find_profile(profiles, id) {
            Some(i) => {
                proof {
                    assert forall|k: int| #[trigger] first_with_id(profile_views(profiles@), id@, k) implies k == i by {
                        lemma_first_with_id_unique(profile_views(profiles@), id@, i as int, k);
                    }
                }
                Some(profile_option_label(&profiles[i]))
            },
            None => None,
        },
    }
}

/// The identifier of the profile behind a chosen label: the first profile listed
/// under that label, or the empty text when none is.
pub fn profile_for_label(profiles: &Vec<VpnProfile>, label: &str) -> (r: String)
    ensures
        !has_label(profile_views(profiles@), label@) ==> r@.len() == 0,
        forall|i: int|
            #[trigger] first_with_label(profile_views(profiles@), label@, i) ==> r@ == profile_views(profiles@)[i].id,
{
    let ghost s = profile_views(profiles@);
    let mut i: usize = 0;
    while i < profiles.len()
        invariant
            i <= profiles@.len(),
            s == profile_views(profiles@),
            forall|j: int| 0 <= j < i ==> option_label(#[trigger] s[j]) != label@,
        decreases profiles@.len() - i,
    {
        let l = profile_option_label(&profiles[i]);
        if str_eq(l.as_str(), label) {
            proof {
                assert(option_label(s[i as int]) == label@);
                assert forall|k: int| #[trigger] first_with_label(s, label@, k) implies k == i by {
                    if k < i {
                        assert(option_label(s[k]) != label@);
                    }
                    if k > i {
                        assert(option_label(s[i as int]) != label@);
                    }
                }
            }
            return profiles[i].id.clone();
        }
        i = i + 1;
    }
    String::new()
}

/// The label of the connect button.
pub open spec fn button_label(connected: bool, connecting: bool) -> Seq<char> {
    if connected {
        if connecting { "Disconnecting..."@ } else { "Disconnect"@ }
    } else {
        if connecting { "Connecting..."@ } else { "Connect"@ }
    }
}

/// The label of the connect button.
pub fn connect_button_label(connected: bool, connecting: bool) -> (s: &'static str)
    ensures
        s@ == button_label(connected, connecting),
{
    if connected {
        if connecting { "Disconnecting..." } else { "Disconnect" }
    } else {
        if connecting { "Connecting..." } else { "Connect" }
    }
}

/// What pressing the connect button asks for.
#[derive(Debug)]
pub enum QuickAction {
    Connect(String),
    Disconnect,
}

/// What pressing the connect button asks for, if it can be pressed: while
/// connected it disconnects; otherwise it connects the selected profile, unless a
/// connection is being made or no profile is selected.
pub fn connect_button_action(connected: bool, connecting: bool, selected: Option<&str>) -> (r: Option<QuickAction>)
    ensures
        connected ==> r matches Some(QuickAction::Disconnect),
        !connected && (connecting || selected is None) ==> r is None,
        !connected && !connecting ==> match selected {
            Some(id) => r matches Some(QuickAction::Connect(i)) && i@ == id@,
            None => r is None,
        },
{
    if connected {
        Some(QuickAction::Disconnect)
    } else {
        match selected {
            Some(id) => if connecting { None } else { Some(QuickAction::Connect(string_of(id))) },
            None => None,
        }
    }
}

/// The tone in which connection information is shown.
#[derive(Debug, Clone, Copy, PartialEq, Eq, Structural)]
pub enum InfoTone {
    Plain,
    Highlighted,
    Alarming,
}

/// The lines of connection information under the button, and their tone.
pub open spec fn info_lines(connected: bool, name: Option<Seq<char>>, message: Seq<char>, connecting: bool) -> (Seq<Seq<char>>, InfoTone) {
    if connected {
        (
            seq![
                "Connected to: "@ + (match name {
                    Some(n) => n,
                    None => "Unknown"@,
                }),
                "Status: "@ + message,
            ],
            InfoTone::Plain,
        )
    } else if connecting {
        (seq!["Status: Connecting..."@], InfoTone::Highlighted)
    } else if message != "Disconnected"@ {
        (seq!["Status: "@ + message], InfoTone::Alarming)
    } else {
        (seq!["Status: Disconnected"@], InfoTone::Plain)
    }
}

/// The lines of connection information under the button, and their tone.
pub fn connection_info(status: &ConnectionStatus, connecting: bool) -> (r: (Vec<String>, InfoTone))
    ensures
        ({
            let expected = info_lines(
                status.connected,
                match status.profile_name {
                    Some(n) => Some(n@),
                    None => None,
                },
                status.status_message@,
                connecting,
            );
            r.0@.map_values(|s: String| s@) == expected.0 && r.1 == expected.1
        }),
{
    let mut lines: Vec<String> = Vec::new();
    if status.connected {
        let mut first = string_of("Connected to: ");
        match &status.profile_name {
            Some(n) => append_str(&mut first, n.as_str()),
            None => append_str(&mut first, "Unknown"),
        }
        let mut second = string_of("Status: ");
        append_str(&mut second, status.status_message.as_str());
        lines.push(first);
        lines.push(second);
        assert(lines@.map_values(|s: String| s@) =~= seq![lines@[0]@, lines@[1]@]);
        (lines, InfoTone::Plain)
    } else if connecting {
        lines.push(string_of("Status: Connecting..."));
        assert(lines@.map_values(|s: String| s@) =~= seq![lines@[0]@]);
        (lines, InfoTone::Highlighted)
    } else if !str_eq(status.status_message.as_str(), "Disconnected") {
        let mut line = string_of("Status: ");
        append_str(&mut line, status.status_message.as_str());
        lines.push(line);
        assert(lines@.map_values(|s: String| s@) =~= seq![lines@[0]@]);
        (lines, InfoTone::Alarming)
    } else {
        lines.push(string_of("Status: Disconnected"));
        assert(lines@.map_values(|s: String| s@) =~= seq![lines@[0]@]);
        (lines, InfoTone::Plain)
    }
}

} // verus!
