//! Screen identifiers of the terminal interface and their tab order.

use vstd::prelude::*;

verus! {

/// Identifies each primary screen, navigable by number keys 1-8.
#[derive(Debug, Clone, Copy, PartialEq, Eq, Hash, Structural)]
pub enum ScreenId {
    Dashboard,
    Devices,
    Clients,
    Networks,
    Firewall,
    Topology,
    Events,
    Stats,
    /// Onboarding wizard: not in the tab bar, no number key.
    Setup,
    /// Settings form: not in the tab bar, no number key.
    Settings,
}

impl Default for ScreenId {
    fn default() -> (s: Self)
        ensures
            s == ScreenId::Dashboard,
    {
        ScreenId::Dashboard
    }
}

/// The screen at a position of the tab bar (0-7).
pub open spec fn screen_at(i: int) -> ScreenId {
    if i == 0 {
        ScreenId::Dashboard
    } else if i == 1 {
        ScreenId::Devices
    } else if i == 2 {
        ScreenId::Clients
    } else if i == 3 {
        ScreenId::Networks
    } else if i == 4 {
        ScreenId::Firewall
    } else if i == 5 {
        ScreenId::Topology
    } else if i == 6 {
        ScreenId::Events
    } else {
        ScreenId::Stats
    }
}

/// Position of a screen in the tab bar; a screen that is not in the tab
/// bar counts as position 0.
pub open spec fn tab_index(s: ScreenId) -> int {
    match s {
        ScreenId::Dashboard => 0,
        ScreenId::Devices => 1,
        ScreenId::Clients => 2,
        ScreenId::Networks => 3,
        ScreenId::Firewall => 4,
        ScreenId::Topology => 5,
        ScreenId::Events => 6,
        ScreenId::Stats => 7,
        ScreenId::Setup => 0,
        ScreenId::Settings => 0,
    }
}

/// Whether a screen is one of the tab bar's (Setup and Settings are not).
pub open spec fn in_tab_bar(s: ScreenId) -> bool {
    s != ScreenId::Setup && s != ScreenId::Settings
}

/// Number key of a screen: tab position plus one; none (0) for the
/// screens outside the tab bar.
pub open spec fn number_spec(s: ScreenId) -> u8 {
    if !in_tab_bar(s) { 0 } else { (tab_index(s) + 1) as u8 }
}

/// The screens in tab-bar order.
pub fn all_screens() -> (v: Vec<ScreenId>)
    ensures
        v.len() == 8,
        forall|i: int| 0 <= i < 8 ==> #[trigger] v@[i] == screen_at(i),
{
    let v = vec![
        ScreenId::Dashboard,
        ScreenId::Devices,
        ScreenId::Clients,
        ScreenId::Networks,
        ScreenId::Firewall,
        ScreenId::Topology,
        ScreenId::Events,
        ScreenId::Stats,
    ];
    v
}

impl ScreenId {
    /// Numeric key (1-8) for this screen; the screens outside the tab bar
    /// have none (0).
    pub fn number(self) -> (n: u8)
        ensures
            n == number_spec(self),
    {
        match self {
            ScreenId::Dashboard => 1,
            ScreenId::Devices => 2,
            ScreenId::Clients => 3,
            ScreenId::Networks => 4,
            ScreenId::Firewall => 5,
            ScreenId::Topology => 6,
            ScreenId::Events => 7,
            ScreenId::Stats => 8,
            ScreenId::Setup => 0,
            ScreenId::Settings => 0,
        }
    }

    /// Screen for a numeric key (1-8); `None` out of range.
    pub fn from_number(n: u8) -> (s: Option<ScreenId>)
        ensures
            1 <= n <= 8 ==> s == Some(screen_at(n - 1)),
            !(1 <= n <= 8) ==> s is None,
    {
        match n {
            1 => Some(ScreenId::Dashboard),
            2 => Some(ScreenId::Devices),
            3 => Some(ScreenId::Clients),
            4 => Some(ScreenId::Networks),
            5 => Some(ScreenId::Firewall),
            6 => Some(ScreenId::Topology),
            7 => Some(ScreenId::Events),
            8 => Some(ScreenId::Stats),
            _ => None,
        }
    }

    /// Position in the tab bar (0 for a screen not in it).
    fn position(self) -> (i: usize)
        ensures
            i == tab_index(self),
    {
        let all = all_screens();
        let mut i: usize = 0;
        while i < all.len()
            invariant
                all.len() == 8,
                forall|j: int| 0 <= j < 8 ==> #[trigger] all@[j] == screen_at(j),
                i <= 8,
                forall|j: int| 0 <= j < i ==> screen_at(j) != self,
            decreases 8 - i,
        {
            if all[i] == self {
                return i;
            }
            i = i + 1;
        }
        assert(!in_tab_bar(self)) by {
            if in_tab_bar(self) {
                assert(screen_at(tab_index(self)) == self);
            }
        }
        0
    }

    /// Next screen in tab order (wraps around).
    pub fn next(self) -> (s: ScreenId)
        ensures
            s == screen_at((tab_index(self) + 1) % 8),
    {
        let all = all_screens();
        let idx = self.position();
        all[(idx + 1) % all.len()]
    }

    /// Previous screen in tab order (wraps around).
    pub fn prev(self) -> (s: ScreenId)
        ensures
            s == screen_at((tab_index(self) + 8 - 1) % 8),
    {
        let all = all_screens();
        let idx = self.position();
        all[(idx + all.len() - 1) % all.len()]
    }

    /// Short label for the tab bar.
    pub fn label(self) -> (l: &'static str)
        ensures
            l@ == match self {
                ScreenId::Dashboard => "Dashboard"@,
                ScreenId::Devices => "Devices"@,
                ScreenId::Clients => "Clients"@,
                ScreenId::Networks => "Networks"@,
                ScreenId::Firewall => "Firewall"@,
                ScreenId::Topology => "Topo"@,
                ScreenId::Events => "Events"@,
                ScreenId::Stats => "Stats"@,
                ScreenId::Setup => "Setup"@,
                ScreenId::Settings => "Settings"@,
            },
    {
        match self {
            ScreenId::Dashboard => "Dashboard",
            ScreenId::Devices => "Devices",
            ScreenId::Clients => "Clients",
            ScreenId::Networks => "Networks",
            ScreenId::Firewall => "Firewall",
            ScreenId::Topology => "Topo",
            ScreenId::Events => "Events",
            ScreenId::Stats => "Stats",
            ScreenId::Setup => "Setup",
            ScreenId::Settings => "Settings",
        }
    }
}

/// Going to the next tab and back (or back and then forward) returns to
/// the same screen, for every screen of the tab bar.
pub proof fn lemma_next_prev_inverse(s: ScreenId)
    requires
        in_tab_bar(s),
    ensures
        screen_at((tab_index(screen_at((tab_index(s) + 1) % 8)) + 8 - 1) % 8) == s,
        screen_at((tab_index(screen_at((tab_index(s) + 8 - 1) % 8)) + 1) % 8) == s,
{
}

/// A screen's number key leads back to it, for every screen of the tab
/// bar; number keys are exactly 1-8.
pub proof fn lemma_number_round_trip(s: ScreenId)
    ensures
        in_tab_bar(s) ==> 1 <= number_spec(s) <= 8 && screen_at(number_spec(s) - 1) == s,
        !in_tab_bar(s) ==> number_spec(s) == 0,
{
}

/// Every key 1-8 names a screen whose number is that key.
pub proof fn lemma_from_number_round_trip(n: u8)
    requires
        1 <= n <= 8,
    ensures
        number_spec(screen_at(n - 1)) == n,
{
}

/// Pressing Tab eight times from a tab screen comes back to it, and no
/// fewer presses do.
pub proof fn lemma_tab_cycle(s: ScreenId, k: int)
    requires
        in_tab_bar(s),
        1 <= k <= 8,
    ensures
        screen_at((tab_index(s) + k) % 8) == s <==> k == 8,
{
}

} // verus!
