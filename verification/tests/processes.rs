use gupax::process::{Process, ProcessName, ProcessState, ProcessStateGui, ProcessStatesGui};

fn p(name: ProcessName, state: ProcessState) -> Process {
    Process { name, state }
}

fn states(xvb: ProcessState) -> ProcessStatesGui {
    ProcessStatesGui::new(
        &p(ProcessName::Node, ProcessState::Alive),
        &p(ProcessName::P2pool, ProcessState::Middle),
        &p(ProcessName::Xmrig, ProcessState::Dead),
        &p(ProcessName::XmrigProxy, ProcessState::Waiting),
        &p(ProcessName::Xvb, xvb),
    )
}

#[test]
fn process_alive_and_waiting() {
    assert!(p(ProcessName::Node, ProcessState::Alive).is_alive());
    assert!(p(ProcessName::Node, ProcessState::Middle).is_alive());
    assert!(p(ProcessName::Xvb, ProcessState::Retry).is_alive());
    assert!(p(ProcessName::Xvb, ProcessState::OfflinePoolsAll).is_alive());
    assert!(!p(ProcessName::Node, ProcessState::Dead).is_alive());
    assert!(!p(ProcessName::Node, ProcessState::Failed).is_alive());
    assert!(!p(ProcessName::Node, ProcessState::Waiting).is_alive());
    assert!(p(ProcessName::Node, ProcessState::Waiting).is_waiting());
    assert!(p(ProcessName::Node, ProcessState::Middle).is_waiting());
    assert!(!p(ProcessName::Node, ProcessState::Alive).is_waiting());
}

#[test]
fn states_are_read_in_order() {
    let s = states(ProcessState::Retry);
    let names: Vec<ProcessName> = s.0.iter().map(|e| e.name).collect();
    assert_eq!(
        names,
        vec![
            ProcessName::Node,
            ProcessName::P2pool,
            ProcessName::Xmrig,
            ProcessName::XmrigProxy,
            ProcessName::Xvb
        ]
    );
    assert_eq!(
        s.0[1],
        ProcessStateGui { name: ProcessName::P2pool, state: ProcessState::Middle, alive: true, waiting: true }
    );
}

#[test]
fn find_and_is_alive() {
    let s = states(ProcessState::Retry);
    assert!(s.is_alive(ProcessName::Node));
    assert!(!s.is_alive(ProcessName::Xmrig));
    assert_eq!(s.find(ProcessName::XmrigProxy).state, ProcessState::Waiting);
    assert!(s.find(ProcessName::XmrigProxy).waiting);
    assert_eq!(s.find(ProcessName::Xvb).name, ProcessName::Xvb);
}

#[test]
fn find_mut_changes_only_that_entry() {
    let mut s = states(ProcessState::Retry);
    s.find_mut(ProcessName::Xmrig).alive = true;
    assert!(s.is_alive(ProcessName::Xmrig));
    assert!(!s.find(ProcessName::P2pool).state.eq(&ProcessState::Dead));
    assert_eq!(s.0.len(), 5);
}

#[test]
fn xvb_alive_unless_dead() {
    let mut s = states(ProcessState::Syncing);
    s.mark_xvb_alive_unless_dead();
    assert!(s.is_alive(ProcessName::Xvb));
    let mut d = states(ProcessState::Dead);
    d.find_mut(ProcessName::Xvb).alive = true;
    d.mark_xvb_alive_unless_dead();
    assert!(!d.is_alive(ProcessName::Xvb));
    let mut f = states(ProcessState::Failed);
    f.mark_xvb_alive_unless_dead();
    assert!(f.is_alive(ProcessName::Xvb));
}

#[test]
fn middle_messages() {
    let s = states(ProcessState::Alive);
    assert_eq!(
        s.find(ProcessName::P2pool).run_middle_msg(),
        "P2Pool is in the middle of (re)starting/stopping"
    );
    assert_eq!(s.find(ProcessName::Node).run_middle_msg(), gupax::process::NODE_MIDDLE);
    assert_eq!(s.find(ProcessName::Xmrig).run_middle_msg(), gupax::process::XMRIG_MIDDLE);
    assert_eq!(s.find(ProcessName::XmrigProxy).run_middle_msg(), gupax::process::XMRIG_PROXY_MIDDLE);
    assert_eq!(s.find(ProcessName::Xvb).run_middle_msg(), gupax::process::XVB_MIDDLE);
}

#[test]
fn lookups_need_only_the_asked_entry() {
    let partial = ProcessStatesGui(vec![
        ProcessStateGui { name: ProcessName::Xvb, state: ProcessState::Dead, alive: true, waiting: false },
        ProcessStateGui { name: ProcessName::Node, state: ProcessState::Alive, alive: true, waiting: false },
        ProcessStateGui { name: ProcessName::Xvb, state: ProcessState::Alive, alive: false, waiting: false },
    ]);
    assert!(partial.is_alive(ProcessName::Xvb));
    assert_eq!(partial.find(ProcessName::Xvb).state, ProcessState::Dead);
    let mut partial = partial;
    partial.mark_xvb_alive_unless_dead();
    assert!(!partial.is_alive(ProcessName::Xvb));
    assert!(!partial.0[2].alive);
    partial.find_mut(ProcessName::Node).waiting = true;
    assert!(partial.0[1].waiting);
}
