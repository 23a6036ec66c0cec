//! The profile panel: its title, which profiles it lists in each view, and the
//! texts shown for each profile.

use vstd::prelude::*;
use crate::gui::ViewMode;
use crate::profile::{
    first_in_order, is_recency_order, most_recent, profile_views, protocol_variant_name,
    used_profiles, ProfileView, VpnProfile,
};
use crate::text::{append_str, append_u64, decimal, string_of};
use crate::ui::modal::opt_text;

verus! {

/// The panel's title in a view.
pub open spec fn title_of(view: ViewMode) -> Seq<char> {
    match view {
        ViewMode::All => "VPN Profiles"@,
        ViewMode::Favorites => "⭐ Favorite VPN Profiles"@,
        ViewMode::Recent => "🕒 Recently Used VPN Profiles"@,
    }
}

/// The panel's title in a view.
pub fn view_title(view: ViewMode) -> (s: &'static str)
    ensures
        s@ == title_of(view),
{
    match view {
        ViewMode::All => "VPN Profiles",
        ViewMode::Favorites => "⭐ Favorite VPN Profiles",
        ViewMode::Recent => "🕒 Recently Used VPN Profiles",
    }
}

/// What the panel says when a view lists no profile.
pub open spec fn empty_text(view: ViewMode) -> Seq<char> {
    match view {
        ViewMode::All => "No VPN profiles configured yet.\nClick \"Add Profile\" to get started."@,
        ViewMode::Favorites => "No favorite profiles yet.\nMark profiles as favorites to see them here."@,
        ViewMode::Recent => "No recently used profiles yet.\nConnect to profiles to see them here."@,
    }
}

/// What the panel says when a view lists no profile.
pub fn empty_message(view: ViewMode) -> (s: &'static str)
    ensures
        s@ == empty_text(view),
{
    match view {
        ViewMode::All => "No VPN profiles configured yet.\nClick \"Add Profile\" to get started.",
        ViewMode::Favorites => "No favorite profiles yet.\nMark profiles as favorites to see them here.",
        ViewMode::Recent => "No recently used profiles yet.\nConnect to profiles to see them here.",
    }
}

/// How many profiles the recent view lists at most.
pub const RECENT_LIMIT: usize = 10;

/// Whether `r` is what a view lists of `s`: all profiles; the favorites, in
/// order; or at most ten used profiles, most recently used first.
pub open spec fn lists(view: ViewMode, s: Seq<ProfileView>, r: Seq<ProfileView>) -> bool {
    match view {
        ViewMode::All => r == s,
        ViewMode::Favorites => r == s.filter(|p: ProfileView| p.metadata.favorite),
        ViewMode::Recent => exists|perm: Seq<int>|
            #[trigger] is_recency_order(used_profiles(s), perm) && r == first_in_order(
                used_profiles(s),
                perm,
                RECENT_LIMIT as nat,
            ),
    }
}

/// The profiles a view lists.
pub fn visible_profiles(profiles: &Vec<VpnProfile>, view: ViewMode) -> (r: Vec<VpnProfile>)
    ensures
        lists(view, profile_views(profiles@), profile_views(r@)),
{
    match view {
        ViewMode::Recent => most_recent(profiles, RECENT_LIMIT),
        _ => {
            let ghost s = profile_views(profiles@);
            let ghost pred = |p: ProfileView| view == ViewMode::All || p.metadata.favorite;
            let mut r: Vec<VpnProfile> = Vec::new();
            let mut i: usize = 0;
            while i < profiles.len()
                invariant
                    i <= profiles@.len(),
                    s == profile_views(profiles@),
                    pred == (|p: ProfileView| view == ViewMode::All || p.metadata.favorite),
                    profile_views(r@) == s.take(i as int).filter(pred),
                decreases profiles@.len() - i,
            {
                proof {
                    crate::profile::lemma_filter_take_step(s, pred, i as int);
                }
                if view == ViewMode::All || profiles[i].metadata.favorite {
                    let c = profiles[i].clone();
                    let ghost before = r@;
                    r.push(c);
                    assert(profile_views(r@) =~= profile_views(before).push(s[i as int]));
                }
                i = i + 1;
            }
            assert(s.take(s.len() as int) =~= s);
            proof {
                if view == ViewMode::All {
                    assert(pred =~= (|p: ProfileView| true));
                    lemma_filter_all(s);
                } else {
                    assert(pred =~= (|p: ProfileView| p.metadata.favorite));
                }
            }
            r
        },
    }
}

proof fn lemma_filter_all(s: Seq<ProfileView>)
    ensures
        s.filter(|p: ProfileView| true) == s,
    decreases s.len(),
{
    reveal_with_fuel(Seq::<_>::filter, 1);
    if s.len() > 0 {
        lemma_filter_all(s.drop_last());
        assert(s.drop_last().push(s.last()) =~= s);
    } else {
        assert(s.filter(|p: ProfileView| true) =~= s);
    }
}

/// The favorite button's icon.
pub fn favorite_icon(favorite: bool) -> (s: &'static str)
    ensures
        s@ == (if favorite { "★"@ } else { "☆"@ }),
{
    if favorite { "★" } else { "☆" }
}

/// A profile's heading: its name, then a star for a favorite.
pub open spec fn heading_of(p: ProfileView) -> Seq<char> {
    p.name + " "@ + (if p.metadata.favorite { "⭐"@ } else { ""@ })
}

/// A profile's heading.
pub fn profile_heading(p: &VpnProfile) -> (s: String)
    ensures
        s@ == heading_of(p@),
{
    let mut s = p.name.clone();
    append_str(&mut s, " ");
    append_str(&mut s, if p.metadata.favorite { "⭐" } else { "" });
    s
}

/// The line under a profile's heading: its host and protocol.
pub open spec fn subtitle_of(p: ProfileView) -> Seq<char> {
    p.host + " • "@ + protocol_variant_name(p.protocol)
}

/// The line under a profile's heading.
pub fn profile_subtitle(p: &VpnProfile) -> (s: String)
    ensures
        s@ == subtitle_of(p@),
{
    let mut s = p.host.clone();
    append_str(&mut s, " • ");
    append_str(&mut s, p.protocol.variant_name());
    s
}

/// How often a profile has been used, in words.
pub open spec fn usage_of(count: u32) -> Seq<char> {
    "Used "@ + decimal(count as nat) + " time"@ + (if count == 1 { ""@ } else { "s"@ })
}

/// How often a profile has been used, in words.
pub fn usage_text(count: u32) -> (s: String)
    ensures
        s@ == usage_of(count),
{
    let mut s = string_of("Used ");
    append_u64(&mut s, count as u64);
    append_str(&mut s, " time");
    append_str(&mut s, if count == 1 { "" } else { "s" });
    s
}

/// Names chrono's `%Y-%m-%d %H:%M` rendering of the UTC time `micros`
/// microseconds after the Unix epoch, or `None` where chrono has no such time.
pub uninterp spec fn utc_minute_text(micros: i64) -> Option<Seq<char>>;

/// chrono's `DateTime::from_timestamp_micros`, then `format("%Y-%m-%d %H:%M")`:
/// the result is the one that `utc_minute_text` names for the argument.
#[verifier::external_body]
fn format_utc_minute(micros: i64) -> (r: Option<String>)
    ensures
        opt_text(r) == utc_minute_text(micros),
{
    match chrono::DateTime::from_timestamp_micros(micros) {
        Some(d) => Some(d.format("%Y-%m-%d %H:%M").to_string()),
        None => None,
    }
}

/// When a profile was last used, as shown under it: "Never used" for a profile
/// never used, else "Last used: " and the UTC minute of the last use; `None`
/// where that time cannot be rendered.
pub fn last_used_text(p: &VpnProfile) -> (r: Option<String>)
    ensures
        match p@.metadata.last_used_at {
            None => r matches Some(s) && s@ == "Never used"@,
            Some(t) => match utc_minute_text(t) {
                Some(m) => r matches Some(s) && s@ == "Last used: "@ + m,
                None => r is None,
            },
        },
{
    match p.metadata.last_used_at {
        None => Some(string_of("Never used")),
        Some(t) => match format_utc_minute(t) {
            Some(m) => {
                let mut s = string_of("Last used: ");
                append_str(&mut s, m.as_str());
                Some(s)
            },
            None => None,
        },
    }
}


/// Law: the recent view lists at most ten profiles, each of them one that has
/// been used, and each taken from the profiles it was given; the favorites view
/// lists only favorites.
pub proof fn law_views_list_what_they_promise(s: Seq<ProfileView>, r: Seq<ProfileView>, view: ViewMode)
    requires
        lists(view, s, r),
    ensures
        view == ViewMode::Recent ==> r.len() <= RECENT_LIMIT,
        view == ViewMode::Recent ==> forall|i: int| 0 <= i < r.len() ==> (#[trigger] r[i]).metadata.last_used_at is Some && s.contains(r[i]),
        view == ViewMode::Favorites ==> forall|i: int| 0 <= i < r.len() ==> (#[trigger] r[i]).metadata.favorite,
{
    if view == ViewMode::Recent {
        let f = used_profiles(s);
        let pred = |p: ProfileView| p.metadata.last_used_at is Some;
        let perm = choose|perm: Seq<int>|
            #[trigger] is_recency_order(f, perm) && r == first_in_order(f, perm, RECENT_LIMIT as nat);
        assert forall|i: int| 0 <= i < r.len() implies (#[trigger] r[i]).metadata.last_used_at is Some && s.contains(r[i]) by {
            let k = perm[i];
            assert(0 <= k < f.len());
            assert(r[i] == f[k]);
            s.lemma_filter_pred(pred, k);
            assert(f.contains(f[k]));
            s.lemma_filter_contains_rev(pred, f[k]);
        }
    }
    if view == ViewMode::Favorites {
        let pred = |p: ProfileView| p.metadata.favorite;
        assert forall|i: int| 0 <= i < r.len() implies (#[trigger] r[i]).metadata.favorite by {
            s.lemma_filter_pred(pred, i);
        }
    }
}

} // verus!
