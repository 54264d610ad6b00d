use vstd::prelude::*;
use vstd::string::*;

verus! {

pub const STATUS_SUBMENU_PROCESSES: &'static str = "View the status of process related data for [Gupax|Node|P2Pool|XMRig|XMRig-Proxy|XvB]";
pub const STATUS_SUBMENU_P2POOL: &'static str = "View P2Pool specific data";
pub const STATUS_SUBMENU_HASHRATE: &'static str = "Compare your CPU hashrate with others";
pub const P2POOL_SIMPLE: &'static str = "Use simple P2Pool settings";
pub const P2POOL_ADVANCED: &'static str = "Use advanced P2Pool settings";
pub const P2POOL_CRAWLER: &'static str = "Find remote nodes with the P2Pool crawler";
pub const GUPAX_SIMPLE: &'static str = "Use simple Gupax settings";
pub const GUPAX_ADVANCED: &'static str = "Use advanced Gupax settings";
pub const GUPAX_UPDATES: &'static str = "Update Gupax and the bundled binaries";

/// A submenu: its variants cycle in declaration order, each with a hover text.
pub trait Submenu: Sized {
    /// The hover text of this submenu.
    spec fn hover_spec(&self) -> Seq<char>;

    fn hover_text(&self) -> (r: &'static str)
        ensures
            r@ == self.hover_spec(),
    ;
}

/// The submenus of the Status tab.
#[derive(Debug, Clone, Copy, PartialEq, Eq, Structural)]
pub enum SubmenuStatus {
    Processes,
    P2pool,
    Benchmarks,
}

/// The submenus of the P2Pool tab.
#[derive(Debug, Clone, Copy, PartialEq, Eq, Structural)]
pub enum SubmenuP2pool {
    Simple,
    Advanced,
    Crawler,
}

/// The submenus of the Settings tab.
#[derive(Debug, Clone, Copy, PartialEq, Eq, Structural)]
pub enum SubmenuGupax {
    Simple,
    Advanced,
    Updates,
}

impl Submenu for SubmenuStatus {
    open spec fn hover_spec(&self) -> Seq<char> {
        match self {
            SubmenuStatus::Processes => STATUS_SUBMENU_PROCESSES@,
            SubmenuStatus::P2pool => STATUS_SUBMENU_P2POOL@,
            SubmenuStatus::Benchmarks => STATUS_SUBMENU_HASHRATE@,
        }
    }

    fn hover_text(&self) -> (r: &'static str) {
        match self {
            SubmenuStatus::Processes => STATUS_SUBMENU_PROCESSES,
            SubmenuStatus::P2pool => STATUS_SUBMENU_P2POOL,
            SubmenuStatus::Benchmarks => STATUS_SUBMENU_HASHRATE,
        }
    }
}

impl Submenu for SubmenuP2pool {
    open spec fn hover_spec(&self) -> Seq<char> {
        match self {
            SubmenuP2pool::Simple => P2POOL_SIMPLE@,
            SubmenuP2pool::Advanced => P2POOL_ADVANCED@,
            SubmenuP2pool::Crawler => P2POOL_CRAWLER@,
        }
    }

    fn hover_text(&self) -> (r: &'static str) {
        match self {
            SubmenuP2pool::Simple => P2POOL_SIMPLE,
            SubmenuP2pool::Advanced => P2POOL_ADVANCED,
            SubmenuP2pool::Crawler => P2POOL_CRAWLER,
        }
    }
}

impl Submenu for SubmenuGupax {
    open spec fn hover_spec(&self) -> Seq<char> {
        match self {
            SubmenuGupax::Simple => GUPAX_SIMPLE@,
            SubmenuGupax::Advanced => GUPAX_ADVANCED@,
            SubmenuGupax::Updates => GUPAX_UPDATES@,
        }
    }

    fn hover_text(&self) -> (r: &'static str) {
        match self {
            SubmenuGupax::Simple => GUPAX_SIMPLE,
            SubmenuGupax::Advanced => GUPAX_ADVANCED,
            SubmenuGupax::Updates => GUPAX_UPDATES,
        }
    }
}

impl Default for SubmenuStatus {
    fn default() -> (r: Self)
        ensures
            r == SubmenuStatus::Processes,
    {
        SubmenuStatus::Processes
    }
}

impl Default for SubmenuP2pool {
    fn default() -> (r: Self)
        ensures
            r == SubmenuP2pool::Simple,
    {
        SubmenuP2pool::Simple
    }
}

impl Default for SubmenuGupax {
    fn default() -> (r: Self)
        ensures
            r == SubmenuGupax::Simple,
    {
        SubmenuGupax::Simple
    }
}

/// The submenu after `s`, wrapping around.
pub open spec fn status_next(s: SubmenuStatus) -> SubmenuStatus {
    match s {
        SubmenuStatus::Processes => SubmenuStatus::P2pool,
        SubmenuStatus::P2pool => SubmenuStatus::Benchmarks,
        SubmenuStatus::Benchmarks => SubmenuStatus::Processes,
    }
}

/// The submenu before `s`, wrapping around.
pub open spec fn status_prev(s: SubmenuStatus) -> SubmenuStatus {
    match s {
        SubmenuStatus::Processes => SubmenuStatus::Benchmarks,
        SubmenuStatus::P2pool => SubmenuStatus::Processes,
        SubmenuStatus::Benchmarks => SubmenuStatus::P2pool,
    }
}

pub open spec fn p2pool_next(s: SubmenuP2pool) -> SubmenuP2pool {
    match s {
        SubmenuP2pool::Simple => SubmenuP2pool::Advanced,
        SubmenuP2pool::Advanced => SubmenuP2pool::Crawler,
        SubmenuP2pool::Crawler => SubmenuP2pool::Simple,
    }
}

pub open spec fn p2pool_prev(s: SubmenuP2pool) -> SubmenuP2pool {
    match s {
        SubmenuP2pool::Simple => SubmenuP2pool::Crawler,
        SubmenuP2pool::Advanced => SubmenuP2pool::Simple,
        SubmenuP2pool::Crawler => SubmenuP2pool::Advanced,
    }
}

pub open spec fn gupax_next(s: SubmenuGupax) -> SubmenuGupax {
    match s {
        SubmenuGupax::Simple => SubmenuGupax::Advanced,
        SubmenuGupax::Advanced => SubmenuGupax::Updates,
        SubmenuGupax::Updates => SubmenuGupax::Simple,
    }
}

pub open spec fn gupax_prev(s: SubmenuGupax) -> SubmenuGupax {
    match s {
        SubmenuGupax::Simple => SubmenuGupax::Updates,
        SubmenuGupax::Advanced => SubmenuGupax::Simple,
        SubmenuGupax::Updates => SubmenuGupax::Advanced,
    }
}

impl SubmenuStatus {
    /// Every submenu, in order.
    pub fn iter() -> (r: Vec<Self>)
        ensures
            r@ == seq![SubmenuStatus::Processes, SubmenuStatus::P2pool, SubmenuStatus::Benchmarks],
    {
        vec![SubmenuStatus::Processes, SubmenuStatus::P2pool, SubmenuStatus::Benchmarks]
    }

    /// The displayed name.
    pub fn to_string(&self) -> (r: String)
        ensures
            r@ == (match self {
                SubmenuStatus::Processes => "Processes"@,
                SubmenuStatus::P2pool => "P2Pool"@,
                SubmenuStatus::Benchmarks => "Benchmarks"@,
            }),
    {
        match self {
            SubmenuStatus::Processes => String::from_str("Processes"),
            SubmenuStatus::P2pool => String::from_str("P2Pool"),
            SubmenuStatus::Benchmarks => String::from_str("Benchmarks"),
        }
    }

    pub fn next(&self) -> (r: Self)
        ensures
            r == status_next(*self),
    {
        match self {
            SubmenuStatus::Processes => SubmenuStatus::P2pool,
            SubmenuStatus::P2pool => SubmenuStatus::Benchmarks,
            SubmenuStatus::Benchmarks => SubmenuStatus::Processes,
        }
    }

    pub fn prev(&self) -> (r: Self)
        ensures
            r == status_prev(*self),
    {
        match self {
            SubmenuStatus::Processes => SubmenuStatus::Benchmarks,
            SubmenuStatus::P2pool => SubmenuStatus::Processes,
            SubmenuStatus::Benchmarks => SubmenuStatus::P2pool,
        }
    }
}

impl SubmenuP2pool {
    /// Every submenu, in order.
    pub fn iter() -> (r: Vec<Self>)
        ensures
            r@ == seq![SubmenuP2pool::Simple, SubmenuP2pool::Advanced, SubmenuP2pool::Crawler],
    {
        vec![SubmenuP2pool::Simple, SubmenuP2pool::Advanced, SubmenuP2pool::Crawler]
    }

    /// The displayed name: the variant's name.
    pub fn to_string(&self) -> (r: String)
        ensures
            r@ == (match self {
                SubmenuP2pool::Simple => "Simple"@,
                SubmenuP2pool::Advanced => "Advanced"@,
                SubmenuP2pool::Crawler => "Crawler"@,
            }),
    {
        match self {
            SubmenuP2pool::Simple => String::from_str("Simple"),
            SubmenuP2pool::Advanced => String::from_str("Advanced"),
            SubmenuP2pool::Crawler => String::from_str("Crawler"),
        }
    }

    pub fn next(&self) -> (r: Self)
        ensures
            r == p2pool_next(*self),
    {
        match self {
            SubmenuP2pool::Simple => SubmenuP2pool::Advanced,
            SubmenuP2pool::Advanced => SubmenuP2pool::Crawler,
            SubmenuP2pool::Crawler => SubmenuP2pool::Simple,
        }
    }

    pub fn prev(&self) -> (r: Self)
        ensures
            r == p2pool_prev(*self),
    {
        match self {
            SubmenuP2pool::Simple => SubmenuP2pool::Crawler,
            SubmenuP2pool::Advanced => SubmenuP2pool::Simple,
            SubmenuP2pool::Crawler => SubmenuP2pool::Advanced,
        }
    }
}

impl SubmenuGupax {
    /// Every submenu, in order.
    pub fn iter() -> (r: Vec<Self>)
        ensures
            r@ == seq![SubmenuGupax::Simple, SubmenuGupax::Advanced, SubmenuGupax::Updates],
    {
        vec![SubmenuGupax::Simple, SubmenuGupax::Advanced, SubmenuGupax::Updates]
    }

    /// The displayed name: the variant's name.
    pub fn to_string(&self) -> (r: String)
        ensures
            r@ == (match self {
                SubmenuGupax::Simple => "Simple"@,
                SubmenuGupax::Advanced => "Advanced"@,
                SubmenuGupax::Updates => "Updates"@,
            }),
    {
        match self {
            SubmenuGupax::Simple => String::from_str("Simple"),
            SubmenuGupax::Advanced => String::from_str("Advanced"),
            SubmenuGupax::Updates => String::from_str("Updates"),
        }
    }

    pub fn next(&self) -> (r: Self)
        ensures
            r == gupax_next(*self),
    {
        match self {
            SubmenuGupax::Simple => SubmenuGupax::Advanced,
            SubmenuGupax::Advanced => SubmenuGupax::Updates,
            SubmenuGupax::Updates => SubmenuGupax::Simple,
        }
    }

    pub fn prev(&self) -> (r: Self)
        ensures
            r == gupax_prev(*self),
    {
        match self {
            SubmenuGupax::Simple => SubmenuGupax::Updates,
            SubmenuGupax::Advanced => SubmenuGupax::Simple,
            SubmenuGupax::Updates => SubmenuGupax::Advanced,
        }
    }
}

/// Moving to the previous submenu undoes moving to the next one, and the other
/// way round; three moves in one direction come back to the start.
pub proof fn lemma_submenu_cycles(a: SubmenuStatus, b: SubmenuP2pool, c: SubmenuGupax)
    ensures
        status_prev(status_next(a)) == a,
        status_next(status_prev(a)) == a,
        status_next(status_next(status_next(a))) == a,
        p2pool_prev(p2pool_next(b)) == b,
        p2pool_next(p2pool_prev(b)) == b,
        p2pool_next(p2pool_next(p2pool_next(b))) == b,
        gupax_prev(gupax_next(c)) == c,
        gupax_next(gupax_prev(c)) == c,
        gupax_next(gupax_next(gupax_next(c))) == c,
{
}

} // verus!
