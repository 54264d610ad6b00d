use vstd::prelude::*;

verus! {

/// The processes that Gupax manages.
#[derive(Debug, Clone, Copy, PartialEq, Eq, Structural)]
pub enum ProcessName {
    Node,
    P2pool,
    Xmrig,
    XmrigProxy,
    Xvb,
}

/// The state a managed process is in.
#[derive(Debug, Clone, Copy, PartialEq, Eq, Structural)]
pub enum ProcessState {
    /// Online.
    Alive,
    /// Stopped.
    Dead,
    /// Stopped with a bad exit code.
    Failed,
    /// In the middle of (re)starting or stopping.
    Middle,
    /// Stopped by a restart and ready to be started again.
    Waiting,
    /// Node/P2Pool: syncing; XvB: waiting for P2Pool, XMRig or the Proxy.
    Syncing,
    /// XvB: retrying its failed requests.
    Retry,
    /// XMRig/Proxy/XvB: running but not mining.
    NotMining,
    /// XvB: every XvB pool is unreachable.
    OfflinePoolsAll,
}

/// The states in which a process counts as alive.
pub open spec fn state_is_alive(s: ProcessState) -> bool {
    s == ProcessState::Alive || s == ProcessState::Middle || s == ProcessState::Syncing
        || s == ProcessState::Retry || s == ProcessState::NotMining
        || s == ProcessState::OfflinePoolsAll
}

/// The states in which a process counts as waiting.
pub open spec fn state_is_waiting(s: ProcessState) -> bool {
    s == ProcessState::Middle || s == ProcessState::Waiting
}

/// A snapshot of one managed process: its name and its state.
#[derive(Debug, Clone, Copy, PartialEq, Eq, Structural)]
pub struct Process {
    pub name: ProcessName,
    pub state: ProcessState,
}

impl Process {
    pub fn is_alive(&self) -> (r: bool)
        ensures
            r == state_is_alive(self.state),
    {
        match self.state {
            ProcessState::Alive
            | ProcessState::Middle
            | ProcessState::Syncing
            | ProcessState::Retry
            | ProcessState::NotMining
            | ProcessState::OfflinePoolsAll => true,
            _ => false,
        }
    }

    pub fn is_waiting(&self) -> (r: bool)
        ensures
            r == state_is_waiting(self.state),
    {
        match self.state {
            ProcessState::Middle | ProcessState::Waiting => true,
            _ => false,
        }
    }
}

} // verus!

verus! {

pub const NODE_MIDDLE: &'static str = "Node is in the middle of (re)starting/stopping";
pub const P2POOL_MIDDLE: &'static str = "P2Pool is in the middle of (re)starting/stopping";
pub const XMRIG_MIDDLE: &'static str = "XMRig is in the middle of (re)starting/stopping";
pub const XMRIG_PROXY_MIDDLE: &'static str = "XMRig-Proxy is in the middle of (re)starting/stopping";
pub const XVB_MIDDLE: &'static str = "XvB is in the middle of (re)starting/stopping";

/// The message shown while a process is (re)starting or stopping.
pub open spec fn middle_msg(name: ProcessName) -> Seq<char> {
    match name {
        ProcessName::Node => NODE_MIDDLE@,
        ProcessName::P2pool => P2POOL_MIDDLE@,
        ProcessName::Xmrig => XMRIG_MIDDLE@,
        ProcessName::XmrigProxy => XMRIG_PROXY_MIDDLE@,
        ProcessName::Xvb => XVB_MIDDLE@,
    }
}

/// What the GUI reads of a process once per frame.
#[derive(Debug, Clone, Copy, PartialEq, Eq, Structural)]
pub struct ProcessStateGui {
    pub name: ProcessName,
    pub state: ProcessState,
    pub alive: bool,
    pub waiting: bool,
}

impl ProcessStateGui {
    pub fn run_middle_msg(&self) -> (r: &str)
        ensures
            r@ == middle_msg(self.name),
    {
        match self.name {
            ProcessName::Node => NODE_MIDDLE,
            ProcessName::P2pool => P2POOL_MIDDLE,
            ProcessName::Xmrig => XMRIG_MIDDLE,
            ProcessName::XmrigProxy => XMRIG_PROXY_MIDDLE,
            ProcessName::Xvb => XVB_MIDDLE,
        }
    }
}

/// What the GUI reads of a process.
pub open spec fn gui_of(p: Process) -> ProcessStateGui {
    ProcessStateGui {
        name: p.name,
        state: p.state,
        alive: state_is_alive(p.state),
        waiting: state_is_waiting(p.state),
    }
}

/// Whether some entry of `s` is for `name`.
pub open spec fn has_process(s: Seq<ProcessStateGui>, name: ProcessName) -> bool {
    exists|i: int| 0 <= i < s.len() && s[i].name == name
}

/// Whether `i` is the first position of `s` whose entry is for `name`.
pub open spec fn is_first_for(s: Seq<ProcessStateGui>, name: ProcessName, i: int) -> bool {
    &&& 0 <= i < s.len()
    &&& s[i].name == name
    &&& forall|j: int| 0 <= j < i ==> s[j].name != name
}

/// The position of the first entry of `s` for `name`.
pub open spec fn first_for(s: Seq<ProcessStateGui>, name: ProcessName) -> int {
    choose|i: int| is_first_for(s, name, i)
}

/// The states of all processes, as the GUI reads them once per frame.
#[derive(Debug)]
pub struct ProcessStatesGui(pub Vec<ProcessStateGui>);

impl ProcessStatesGui {
    /// Every process has an entry.
    pub open spec fn wf(&self) -> bool {
        forall|name: ProcessName| has_process(self.0@, name)
    }

    /// The entry for `name`.
    pub open spec fn entry(&self, name: ProcessName) -> ProcessStateGui {
        self.0@[first_for(self.0@, name)]
    }

    /// Reads the processes, in the order Node, P2Pool, XMRig, XMRig-Proxy, XvB.
    pub fn new(node: &Process, p2pool: &Process, xmrig: &Process, xmrig_proxy: &Process, xvb: &Process) -> (r: Self)
        ensures
            r.0@ == seq![gui_of(*node), gui_of(*p2pool), gui_of(*xmrig), gui_of(*xmrig_proxy), gui_of(*xvb)],
            (node.name == ProcessName::Node && p2pool.name == ProcessName::P2pool
                && xmrig.name == ProcessName::Xmrig && xmrig_proxy.name == ProcessName::XmrigProxy
                && xvb.name == ProcessName::Xvb) ==> r.wf(),
    {
        let mut v: Vec<ProcessStateGui> = Vec::new();
        v.push(Self::read(node));
        v.push(Self::read(p2pool));
        v.push(Self::read(xmrig));
        v.push(Self::read(xmrig_proxy));
        v.push(Self::read(xvb));
        let r = ProcessStatesGui(v);
        proof {
            assert(r.0@ =~= seq![gui_of(*node), gui_of(*p2pool), gui_of(*xmrig), gui_of(*xmrig_proxy), gui_of(*xvb)]);
            if node.name == ProcessName::Node && p2pool.name == ProcessName::P2pool
                && xmrig.name == ProcessName::Xmrig && xmrig_proxy.name == ProcessName::XmrigProxy
                && xvb.name == ProcessName::Xvb {
                assert forall|name: ProcessName| has_process(r.0@, name) by {
                    match name {
                        ProcessName::Node => assert(r.0@[0].name == name),
                        ProcessName::P2pool => assert(r.0@[1].name == name),
                        ProcessName::Xmrig => assert(r.0@[2].name == name),
                        ProcessName::XmrigProxy => assert(r.0@[3].name == name),
                        ProcessName::Xvb => assert(r.0@[4].name == name),
                    }
                }
            }
        }
        r
    }

    fn read(p: &Process) -> (r: ProcessStateGui)
        ensures
            r == gui_of(*p),
    {
        ProcessStateGui { name: p.name, alive: p.is_alive(), waiting: p.is_waiting(), state: p.state }
    }

    fn position(&self, name: ProcessName) -> (i: usize)
        requires
            has_process(self.0@, name),
        ensures
            is_first_for(self.0@, name, i as int),
            i as int == first_for(self.0@, name),
    {
        let mut i: usize = 0;
        while i < self.0.len()
            invariant
                0 <= i <= self.0@.len(),
                has_process(self.0@, name),
                forall|j: int| 0 <= j < i ==> self.0@[j].name != name,
            decreases self.0@.len() - i,
        {
            if self.0[i].name == name {
                proof {
                    assert(is_first_for(self.0@, name, i as int));
                    let k = first_for(self.0@, name);
                    assert(is_first_for(self.0@, name, k));
                    assert(k == i as int) by {
                        if k < i as int {
                            assert(self.0@[k].name != name);
                        } else if k > i as int {
                            assert(self.0@[i as int].name != name);
                        }
                    }
                }
                return i;
            }
            i = i + 1;
        }
        proof {
            let k = choose|k: int| 0 <= k < self.0@.len() && self.0@[k].name == name;
            assert(self.0@[k].name != name);
        }
        0
    }

    /// Whether the process `name` is alive.
    pub fn is_alive(&self, name: ProcessName) -> (r: bool)
        requires
            has_process(self.0@, name),
        ensures
            r == self.entry(name).alive,
    {
        let i = self.position(name);
        self.0[i].alive
    }

    /// The entry for the process `name`.
    pub fn find(&self, name: ProcessName) -> (r: &ProcessStateGui)
        requires
            has_process(self.0@, name),
        ensures
            *r == self.entry(name),
            r.name == name,
    {
        let i = self.position(name);
        &self.0[i]
    }

    /// The entry for the process `name`, to be changed in place.
    pub fn find_mut(&mut self, name: ProcessName) -> (r: &mut ProcessStateGui)
        requires
            has_process(old(self).0@, name),
        ensures
            *r == old(self).entry(name),
            r.name == name,
            is_first_for(old(self).0@, name, first_for(old(self).0@, name)),
            final(self).0@ == old(self).0@.update(first_for(old(self).0@, name), *final(r)),
    {
        let i = self.position(name);
        &mut self.0[i]
    }

    /// XvB counts as alive for the middle panel whenever it is not dead:
    /// retrying requests included, unlike the bottom bar.
    pub fn mark_xvb_alive_unless_dead(&mut self)
        requires
            has_process(old(self).0@, ProcessName::Xvb),
        ensures
            forall|name: ProcessName| has_process(final(self).0@, name) == has_process(old(self).0@, name),
            final(self).0@ == old(self).0@.update(
                first_for(old(self).0@, ProcessName::Xvb),
                ProcessStateGui {
                    alive: old(self).entry(ProcessName::Xvb).state != ProcessState::Dead,
                    ..old(self).entry(ProcessName::Xvb)
                },
            ),
    {
        let ghost before = self.0@;
        let p = self.find_mut(ProcessName::Xvb);
        p.alive = p.state != ProcessState::Dead;
        proof {
            let k = first_for(before, ProcessName::Xvb);
            assert(is_first_for(before, ProcessName::Xvb, k));
            assert forall|name: ProcessName| has_process(self.0@, name) == has_process(before, name) by {
                if has_process(before, name) {
                    let j = choose|j: int| 0 <= j < before.len() && before[j].name == name;
                    assert(self.0@[j].name == name);
                }
                if has_process(self.0@, name) {
                    let j = choose|j: int| 0 <= j < self.0@.len() && self.0@[j].name == name;
                    assert(before[j].name == name);
                }
            }
        }
    }
}

} // verus!

verus! {

/// A process counts as alive exactly when it is running: every state but
/// `Dead`, `Failed` and `Waiting`, which are the stopped ones. A process
/// counts as waiting only in `Middle` or `Waiting`, so a waiting process is
/// alive only while it is in the middle of (re)starting or stopping.
pub proof fn lemma_alive_means_running(s: ProcessState)
    ensures
        state_is_alive(s) == !(s == ProcessState::Dead || s == ProcessState::Failed || s == ProcessState::Waiting),
        state_is_waiting(s) && state_is_alive(s) <==> s == ProcessState::Middle,
        state_is_alive(ProcessState::Syncing),
        state_is_alive(ProcessState::NotMining),
        state_is_alive(ProcessState::Retry),
        state_is_alive(ProcessState::OfflinePoolsAll),
{
}

} // verus!
