use switchroot::mounts::{
    move_mount_plan, pseudo_mount_plan, root_mount_spec, backing_image_path, MS_MOVE, MS_NODEV,
    MS_NOEXEC, MS_NOSUID, MS_RDONLY,
};
use switchroot::switch::{next_action, step, Action, Event, State, SwitchError};

fn done(s: State) -> State {
    step(s, Event::Done)
}

#[test]
fn happy_run_reaches_exec_with_resolved_init() {
    let s = State::Start;
    assert!(matches!(next_action(&s), Action::StagePseudoFs));
    let s = done(s);
    assert!(matches!(next_action(&s), Action::InitLogger));
    let s = done(s);
    assert!(matches!(next_action(&s), Action::AllocateLoop));
    let s = step(s, Event::LoopIndex { ret: 0, errno: 0 });
    match next_action(&s) {
        Action::BindLoop { device } => assert_eq!(device, b"/dev/loop0".to_vec()),
        other => panic!("unexpected action {:?}", action_name(&other)),
    }
    let s = done(s);
    assert!(matches!(next_action(&s), Action::ReadCmdline));
    let s = step(
        s,
        Event::CmdlineText { text: b"rootfstype=ext4 init=/bin/true".to_vec() },
    );
    match next_action(&s) {
        Action::MountRoot { device, fstype } => {
            assert_eq!(device, b"/dev/loop0".to_vec());
            assert_eq!(fstype, b"ext4".to_vec());
        }
        other => panic!("unexpected action {:?}", action_name(&other)),
    }
    let s = done(s);
    assert!(matches!(next_action(&s), Action::Relocate));
    let s = done(s);
    assert!(matches!(next_action(&s), Action::MoveMounts));
    let s = done(s);
    match next_action(&s) {
        Action::ChrootExec { init } => assert_eq!(init, b"/bin/true".to_vec()),
        other => panic!("unexpected action {:?}", action_name(&other)),
    }
    let s = done(s);
    assert!(matches!(s, State::Exec));
}

fn action_name(a: &Action) -> &'static str {
    match a {
        Action::StagePseudoFs => "StagePseudoFs",
        Action::InitLogger => "InitLogger",
        Action::AllocateLoop => "AllocateLoop",
        Action::BindLoop { .. } => "BindLoop",
        Action::ReadCmdline => "ReadCmdline",
        Action::MountRoot { .. } => "MountRoot",
        Action::Relocate => "Relocate",
        Action::MoveMounts => "MoveMounts",
        Action::ChrootExec { .. } => "ChrootExec",
        Action::Halt => "Halt",
    }
}

#[test]
fn failure_at_loop_allocation_is_a_device_error_and_final() {
    let s = done(done(State::Start));
    assert!(matches!(next_action(&s), Action::AllocateLoop));
    // the control device reports the sentinel: no free index
    let s = step(s, Event::LoopIndex { ret: -1, errno: 16 });
    match &s {
        State::Failed { err: SwitchError::Device { errno } } => assert_eq!(*errno, 16),
        _ => panic!("expected a device failure"),
    }
    assert!(matches!(next_action(&s), Action::Halt));
}

#[test]
fn open_failures_during_loop_setup_classify_as_device_errors() {
    let s = done(done(State::Start));
    let s = step(s, Event::IoFailed { path: b"/dev/loop-control".to_vec(), errno: 2 });
    assert!(matches!(
        s,
        State::Failed { err: SwitchError::Device { errno: 2 } }
    ));

    let s = done(done(State::Start));
    let s = step(s, Event::LoopIndex { ret: 3, errno: 0 });
    let s = step(s, Event::DeviceFailed { errno: 5 });
    assert!(matches!(
        s,
        State::Failed { err: SwitchError::Device { errno: 5 } }
    ));
}

#[test]
fn io_failure_elsewhere_keeps_its_path() {
    let s = step(
        State::Start,
        Event::IoFailed { path: b"/proc".to_vec(), errno: 13 },
    );
    match &s {
        State::Failed { err: SwitchError::Io { path, errno } } => {
            assert_eq!(path, &b"/proc".to_vec());
            assert_eq!(*errno, 13);
        }
        _ => panic!("expected an io failure"),
    }
}

#[test]
fn mount_failure_carries_the_full_request() {
    let s = step(
        State::Start,
        Event::MountFailed {
            source: b"proc".to_vec(),
            target: b"/proc".to_vec(),
            fstype: Some(b"proc".to_vec()),
            flags: MS_NODEV | MS_NOSUID,
            errno: 22,
        },
    );
    match &s {
        State::Failed {
            err: SwitchError::Mount { source, target, fstype, flags, errno },
        } => {
            assert_eq!(source, &b"proc".to_vec());
            assert_eq!(target, &b"/proc".to_vec());
            assert_eq!(fstype, &Some(b"proc".to_vec()));
            assert_eq!(*flags, MS_NODEV | MS_NOSUID);
            assert_eq!(*errno, 22);
        }
        _ => panic!("expected a mount failure"),
    }
}

#[test]
fn exec_failure_is_the_final_error() {
    let mut s = State::Start;
    for _ in 0..2 {
        s = done(s);
    }
    s = step(s, Event::LoopIndex { ret: 1, errno: 0 });
    s = done(s);
    s = step(s, Event::CmdlineText { text: b"".to_vec() });
    for _ in 0..3 {
        s = done(s);
    }
    match next_action(&s) {
        Action::ChrootExec { init } => assert_eq!(init, b"/init".to_vec()),
        _ => panic!("expected the exec action"),
    }
    let s = step(s, Event::ExecFailed { errno: 2 });
    assert!(matches!(
        s,
        State::Failed { err: SwitchError::Exec { errno: 2 } }
    ));
}

#[test]
fn pseudo_plan_stages_dev_sys_proc_in_order() {
    let plan = pseudo_mount_plan();
    assert_eq!(plan.len(), 3);

    assert_eq!(plan[0].source, b"devtmpfs".to_vec());
    assert_eq!(plan[0].fstype, Some(b"devtmpfs".to_vec()));
    assert_eq!(plan[0].target, b"/dev".to_vec());
    assert_eq!(plan[0].flags, MS_NOEXEC | MS_NOSUID);
    assert_eq!(plan[0].options, None);

    assert_eq!(plan[1].source, b"sysfs".to_vec());
    assert_eq!(plan[1].fstype, Some(b"sysfs".to_vec()));
    assert_eq!(plan[1].target, b"/sys".to_vec());
    assert_eq!(plan[1].flags, MS_NOEXEC | MS_NOSUID);

    assert_eq!(plan[2].source, b"proc".to_vec());
    assert_eq!(plan[2].fstype, Some(b"proc".to_vec()));
    assert_eq!(plan[2].target, b"/proc".to_vec());
    assert_eq!(plan[2].flags, MS_NODEV | MS_NOSUID);
}

#[test]
fn root_mount_is_read_only_nodev_nosuid() {
    let spec = root_mount_spec(b"/dev/loop0".to_vec(), b"erofs".to_vec());
    assert_eq!(spec.source, b"/dev/loop0".to_vec());
    assert_eq!(spec.fstype, Some(b"erofs".to_vec()));
    assert_eq!(spec.target, b"/sysroot".to_vec());
    assert_eq!(spec.flags, MS_RDONLY | MS_NODEV | MS_NOSUID);
    assert_eq!(spec.options, None);
}

#[test]
fn move_plan_relocates_root_last() {
    let plan = move_mount_plan();
    assert_eq!(plan.len(), 4);
    assert_eq!(plan[0].source, b"/dev".to_vec());
    assert_eq!(plan[0].target, b"/sysroot/dev".to_vec());
    assert_eq!(plan[1].source, b"/sys".to_vec());
    assert_eq!(plan[1].target, b"/sysroot/sys".to_vec());
    assert_eq!(plan[2].source, b"/proc".to_vec());
    assert_eq!(plan[2].target, b"/sysroot/proc".to_vec());
    assert_eq!(plan[3].source, b".".to_vec());
    assert_eq!(plan[3].target, b"/".to_vec());
    for m in &plan {
        assert_eq!(m.flags, MS_MOVE);
        assert_eq!(m.fstype, None);
        assert_eq!(m.options, None);
    }
}

#[test]
fn backing_image_lives_at_rootfs() {
    assert_eq!(backing_image_path(), b"/rootfs".to_vec());
}
