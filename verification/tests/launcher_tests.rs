use sidecar_supervisor::config::BackendLaunchSpec;
use sidecar_supervisor::launcher::{
    conclude_launch, launch, plan_launch, ContainmentStatus, LaunchPlan, OutputStreams,
    SpawnOutcome, SpawnRequest,
};
use sidecar_supervisor::notice::Notice;
use sidecar_supervisor::platform::{Containment, Platform};
use std::cell::{Cell, RefCell};

fn launch_spec(command: &str, arguments: &[&str]) -> BackendLaunchSpec {
    BackendLaunchSpec::new(command.to_string(), arguments.iter().map(|s| s.to_string()).collect())
}

fn lines(notices: &[Notice]) -> Vec<String> {
    notices.iter().map(|n| n.message()).collect()
}

#[test]
fn launch_with_an_empty_command_spawns_nothing() {
    let calls = Cell::new(0u32);
    let report = launch(launch_spec("", &["ignored"]), Platform::Linux, |_request: SpawnRequest| {
        calls.set(calls.get() + 1);
        SpawnOutcome::Started { handle: 1u32, containment: ContainmentStatus::NotRequested }
    });
    assert_eq!(calls.get(), 0);
    assert_eq!(report.handle, None);
    assert_eq!(report.notices.len(), 1);
    assert!(matches!(report.notices[0], Notice::CommandEmpty));
    assert!(lines(&report.notices)[0].contains("command is empty"));
}

#[test]
fn launch_hands_the_hook_the_command_and_arguments() {
    let seen: RefCell<Vec<(String, Vec<String>, Containment)>> = RefCell::new(Vec::new());
    let report = launch(launch_spec("echo", &["hi", "there"]), Platform::Linux, |request: SpawnRequest| {
        seen.borrow_mut().push((
            request.spec.command().to_string(),
            request.spec.arguments().clone(),
            request.containment,
        ));
        SpawnOutcome::Started { handle: 42u32, containment: ContainmentStatus::NotRequested }
    });
    assert_eq!(
        seen.into_inner(),
        vec![(
            "echo".to_string(),
            vec!["hi".to_string(), "there".to_string()],
            Containment::Unconfined
        )]
    );
    assert_eq!(report.handle, Some(42));
    assert_eq!(
        lines(&report.notices),
        vec!["starting backend: echo hi there".to_string(), "backend process started".to_string()]
    );
}

#[test]
fn launch_asks_for_a_job_object_on_windows_only() {
    for (platform, expected) in [
        (Platform::Windows, Containment::KillOnCloseJob),
        (Platform::Macos, Containment::Unconfined),
        (Platform::Linux, Containment::Unconfined),
    ] {
        let seen = Cell::new(None);
        let report = launch(launch_spec("srv", &[]), platform, |request: SpawnRequest| {
            seen.set(Some((request.containment, request.output)));
            SpawnOutcome::Started { handle: 7u8, containment: ContainmentStatus::Established }
        });
        assert_eq!(seen.get(), Some((expected, OutputStreams::Inherited)));
        assert_eq!(report.handle, Some(7));
    }
}

#[test]
fn launch_returns_no_handle_when_the_spawn_fails() {
    let report = launch(launch_spec("/no/such/backend", &[]), Platform::Macos, |_request: SpawnRequest| {
        SpawnOutcome::<u32>::Failed { cause: "No such file or directory (os error 2)".to_string() }
    });
    assert_eq!(report.handle, None);
    assert_eq!(report.notices.len(), 2);
    assert!(matches!(report.notices[0], Notice::Starting { .. }));
    match &report.notices[1] {
        Notice::SpawnFailed { cause } => assert_eq!(cause, "No such file or directory (os error 2)"),
        other => panic!("not a spawn failure: {:?}", other),
    }
    assert_eq!(
        report.notices[1].message(),
        "failed to start the backend process: No such file or directory (os error 2)"
    );
}

#[test]
fn launch_keeps_the_handle_when_containment_fails() {
    let report = launch(launch_spec("srv.exe", &["-q"]), Platform::Windows, |_request: SpawnRequest| {
        SpawnOutcome::Started { handle: "child", containment: ContainmentStatus::Failed }
    });
    assert_eq!(report.handle, Some("child"));
    assert_eq!(report.notices.len(), 3);
    assert!(matches!(report.notices[0], Notice::Starting { .. }));
    assert!(matches!(report.notices[1], Notice::Started));
    assert!(matches!(report.notices[2], Notice::ContainmentFailed));
}

#[test]
fn plan_launch_skips_an_empty_command() {
    assert!(matches!(plan_launch(launch_spec("", &[]), Platform::Windows), LaunchPlan::Skip));
    assert!(matches!(plan_launch(launch_spec("", &["a"]), Platform::Linux), LaunchPlan::Skip));
}

#[test]
fn plan_launch_passes_the_spec_on_unchanged() {
    match plan_launch(launch_spec("run", &["--a", "b c"]), Platform::Windows) {
        LaunchPlan::Spawn(request) => {
            assert_eq!(request.spec.command(), "run");
            assert_eq!(request.spec.arguments(), &vec!["--a".to_string(), "b c".to_string()]);
            assert_eq!(request.containment, Containment::KillOnCloseJob);
            assert_eq!(request.output, OutputStreams::Inherited);
        }
        LaunchPlan::Skip => panic!("a command was given"),
    }
    match plan_launch(launch_spec(" ", &[]), Platform::Linux) {
        LaunchPlan::Spawn(request) => {
            assert_eq!(request.spec.command(), " ");
            assert_eq!(request.containment, Containment::Unconfined);
        }
        LaunchPlan::Skip => panic!("a blank is a command"),
    }
}

#[test]
fn conclude_launch_reports_each_outcome() {
    let started = conclude_launch(SpawnOutcome::Started {
        handle: 3u64,
        containment: ContainmentStatus::NotRequested,
    });
    assert_eq!(started.handle, Some(3));
    assert_eq!(lines(&started.notices), vec!["backend process started".to_string()]);

    let contained = conclude_launch(SpawnOutcome::Started {
        handle: 4u64,
        containment: ContainmentStatus::Established,
    });
    assert_eq!(contained.handle, Some(4));
    assert_eq!(contained.notices.len(), 1);

    let loose = conclude_launch(SpawnOutcome::Started {
        handle: 5u64,
        containment: ContainmentStatus::Failed,
    });
    assert_eq!(loose.handle, Some(5));
    assert_eq!(
        lines(&loose.notices),
        vec![
            "backend process started".to_string(),
            "backend runs outside its job object".to_string()
        ]
    );

    let failed = conclude_launch(SpawnOutcome::<u64>::Failed { cause: "denied".to_string() });
    assert_eq!(failed.handle, None);
    assert_eq!(
        lines(&failed.notices),
        vec!["failed to start the backend process: denied".to_string()]
    );
}
