//! The immutable configuration of a run.
use vstd::prelude::*;
use vstd::string::StringExecFns;
use crate::tree::Node;

verus! {

/// The smallest share of the screen, in hundredths, that a master window gets.
pub const MASTER_PERCENT_MIN: u32 = 50;

/// The largest share of the screen, in hundredths, that a master window gets.
pub const MASTER_PERCENT_MAX: u32 = 70;

/// An application class whose windows are laid out as master windows.
#[derive(Debug)]
pub struct MasterApp {
    pub class: String,
    /// Share of the screen, in hundredths.
    pub percent: u32,
}

/// The configuration of a run, fixed at startup.
#[derive(Debug)]
pub struct AutotileConfig {
    /// Workspace numbers that autotiling acts on; empty means all of them.
    pub workspaces: Vec<i32>,
    /// Whether sibling windows are balanced after a window opens or closes.
    pub enable_balance: bool,
    /// Master-window classes, looked up in order.
    pub master_apps: Vec<MasterApp>,
}

/// A share clamped into the master range.
pub open spec fn clamp_percent_spec(p: u32) -> u32 {
    if p < MASTER_PERCENT_MIN {
        MASTER_PERCENT_MIN
    } else if p > MASTER_PERCENT_MAX {
        MASTER_PERCENT_MAX
    } else {
        p
    }
}

/// Clamps a master share, in hundredths, into the range from 50 to 70.
pub fn clamp_master_percent(p: u32) -> (r: u32)
    ensures
        r == clamp_percent_spec(p),
        MASTER_PERCENT_MIN <= r <= MASTER_PERCENT_MAX,
{
    if p < MASTER_PERCENT_MIN {
        MASTER_PERCENT_MIN
    } else if p > MASTER_PERCENT_MAX {
        MASTER_PERCENT_MAX
    } else {
        p
    }
}

/// Whether two strings hold the same characters.
pub fn same_text(a: &str, b: &str) -> (r: bool)
    ensures
        r == (a@ == b@),
{
    let n = a.unicode_len();
    if n != b.unicode_len() {
        return false;
    }
    let mut i: usize = 0;
    while i < n
        invariant
            n == a@.len(),
            n == b@.len(),
            i <= n,
            forall|j: int| 0 <= j < i ==> a@[j] == b@[j],
        decreases n - i,
    {
        if a.get_char(i) != b.get_char(i) {
            return false;
        }
        i = i + 1;
    }
    assert(a@ =~= b@);
    true
}

/// The share of the first entry of `apps[i..]` whose class is `class`.
pub open spec fn lookup_from(apps: Seq<MasterApp>, class: Seq<char>, i: int) -> Option<u32>
    decreases apps.len() - i,
{
    if 0 <= i < apps.len() {
        if apps[i].class@ == class {
            Some(apps[i].percent)
        } else {
            lookup_from(apps, class, i + 1)
        }
    } else {
        None
    }
}

/// The master share, clamped, that the configuration gives a node's
/// application class, if any.
pub open spec fn master_share_spec(node: Node, config: AutotileConfig) -> Option<u32> {
    match node.class {
        Some(c) => match lookup_from(config.master_apps@, c@, 0) {
            Some(p) => Some(clamp_percent_spec(p)),
            None => None,
        },
        None => None,
    }
}

impl AutotileConfig {
    /// Every master share lies in the range from 50 to 70.
    pub open spec fn wf(self) -> bool {
        forall|i: int|
            0 <= i < self.master_apps@.len() ==> MASTER_PERCENT_MIN <= (#[trigger] self.master_apps@[i]).percent
                <= MASTER_PERCENT_MAX
    }

    /// Builds the configuration of a run from its settings. The master share
    /// is clamped into its range and given to each of `master_classes`; where
    /// none is named, the default master classes are kept.
    pub fn new(
        workspaces: Vec<i32>,
        enable_balance: bool,
        master_classes: Vec<String>,
        master_percent: u32,
    ) -> (r: AutotileConfig)
        ensures
            r.wf(),
            r.workspaces@ == workspaces@,
            r.enable_balance == enable_balance,
            master_classes@.len() == 0 ==> Self::is_default_apps(r.master_apps@),
            master_classes@.len() > 0 ==> {
                &&& r.master_apps@.len() == master_classes@.len()
                &&& forall|i: int|
                    0 <= i < master_classes@.len() ==> (#[trigger] r.master_apps@[i]).class
                        == master_classes@[i] && r.master_apps@[i].percent == clamp_percent_spec(
                        master_percent,
                    )
            },
    {
        let mut master_apps: Vec<MasterApp>;
        if master_classes.len() == 0 {
            master_apps = Self::default_master_apps();
        } else {
            let percent = clamp_master_percent(master_percent);
            master_apps = Vec::new();
            let mut classes = master_classes;
            let ghost all = classes@;
            while classes.len() > 0
                invariant
                    master_apps@.len() + classes@.len() == all.len(),
                    percent == clamp_percent_spec(master_percent),
                    forall|j: int|
                        0 <= j < classes@.len() ==> #[trigger] classes@[j] == all[master_apps@.len()
                            + j],
                    forall|j: int|
                        0 <= j < master_apps@.len() ==> (#[trigger] master_apps@[j]).class == all[j]
                            && master_apps@[j].percent == percent,
                decreases classes@.len(),
            {
                let ghost k = master_apps@.len();
                let class = classes.remove(0);
                assert(class == all[k as int]);
                master_apps.push(MasterApp { class, percent });
            }
        }
        AutotileConfig { workspaces, enable_balance, master_apps }
    }

    /// The master classes of the default configuration: firefox and chromium
    /// at 60 hundredths, steam at 65.
    pub open spec fn is_default_apps(apps: Seq<MasterApp>) -> bool {
        &&& apps.len() == 3
        &&& apps[0].class@ == "firefox"@ && apps[0].percent == 60
        &&& apps[1].class@ == "chromium"@ && apps[1].percent == 60
        &&& apps[2].class@ == "steam"@ && apps[2].percent == 65
    }

    fn default_master_apps() -> (r: Vec<MasterApp>)
        ensures
            Self::is_default_apps(r@),
    {
        let mut r: Vec<MasterApp> = Vec::new();
        r.push(MasterApp { class: String::from_str("firefox"), percent: 60 });
        r.push(MasterApp { class: String::from_str("chromium"), percent: 60 });
        r.push(MasterApp { class: String::from_str("steam"), percent: 65 });
        r
    }
}

impl Default for AutotileConfig {
    /// All workspaces, balancing on, and the default master classes.
    fn default() -> (r: AutotileConfig)
        ensures
            r.wf(),
            r.workspaces@.len() == 0,
            r.enable_balance,
            AutotileConfig::is_default_apps(r.master_apps@),
    {
        AutotileConfig { workspaces: Vec::new(), enable_balance: true, master_apps: Self::default_master_apps() }
    }
}

/// Finds the share of the first master entry whose class is `class`.
fn lookup_master(apps: &Vec<MasterApp>, class: &String) -> (r: Option<u32>)
    ensures
        r == lookup_from(apps@, class@, 0),
{
    let mut i: usize = 0;
    while i < apps.len()
        invariant
            i <= apps@.len(),
            lookup_from(apps@, class@, i as int) == lookup_from(apps@, class@, 0),
        decreases apps@.len() - i,
    {
        if same_text(apps[i].class.as_str(), class.as_str()) {
            return Some(apps[i].percent);
        }
        i = i + 1;
    }
    None
}

/// Whether a node's application class is one of the configured master classes.
pub fn is_master_window(node: &Node, config: &AutotileConfig) -> (r: bool)
    ensures
        r == master_share_spec(*node, *config).is_some(),
{
    match &node.class {
        Some(class) => lookup_master(&config.master_apps, class).is_some(),
        None => false,
    }
}

/// The share of the screen, in hundredths and clamped into the master range,
/// that a master window of this node's class occupies; `None` where the node
/// is no master window.
pub fn master_share(node: &Node, config: &AutotileConfig) -> (r: Option<u32>)
    ensures
        r == master_share_spec(*node, *config),
        r matches Some(p) ==> MASTER_PERCENT_MIN <= p <= MASTER_PERCENT_MAX,
{
    match &node.class {
        Some(class) => match lookup_master(&config.master_apps, class) {
            Some(p) => Some(clamp_master_percent(p)),
            None => None,
        },
        None => None,
    }
}

} // verus!
