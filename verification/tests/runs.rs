use lg_buddy::config::{ConfigError, HdmiInput};
use lg_buddy::delay::Delays;
use lg_buddy::effects::{
    Action, CurrentInput, Outcome, RunError, StartupMode, StateScope, TvCommand, TvError,
};
use lg_buddy::failure::{IoError, IoErrorKind};
use lg_buddy::paths::{ConfigPathError, PathEnvironment};
use lg_buddy::run::{
    run_brightness, run_screen_off, run_screen_on, run_shutdown, run_sleep, run_sleep_pre,
    run_startup, Run,
};

const FILE: &str = "tv_ip=192.0.2.42\ntv_mac=aa:bb:cc:dd:ee:ff\ninput=HDMI_2\n";

fn environment(path: Option<&[u8]>) -> Outcome {
    Outcome::Environment(PathEnvironment {
        explicit_config: path.map(<[u8]>::to_vec),
        install_pointer: None,
        sudo_user: None,
        passwd: None,
        xdg_config_home: None,
        home: None,
    })
}

fn broken(message: &str) -> IoError {
    IoError {
        kind: IoErrorKind::Other,
        message: message.to_string(),
    }
}

fn refusal(message: &str) -> Outcome {
    Outcome::TvFailed(TvError {
        message: message.to_string(),
        active_screen: false,
    })
}

/// Performs the pending action with the given outcome.
fn after(run: Run, outcome: Outcome) -> Run {
    assert!(run.accepts(&outcome), "{:?} {:?}", run, outcome);
    run.step(outcome)
}

/// A run that has found all that it needs.
fn set_up(run: Run, file: &str) -> Run {
    assert_eq!(run.pending(), &Action::ReadEnvironment);
    let mut run = after(run, environment(Some(b"/c")));
    assert_eq!(run.pending(), &Action::ReadConfig(b"/c".to_vec()));
    run = after(run, Outcome::Text(file.to_string()));
    if matches!(run.pending(), Action::OpenMarker(_)) {
        run = after(run, Outcome::Done);
    }
    assert_eq!(run.pending(), &Action::BuildClient(b"/c".to_vec()));
    after(run, Outcome::Done)
}

fn every_run() -> Vec<Run> {
    vec![
        run_screen_off(),
        run_screen_on(Delays::usual()),
        run_startup(StartupMode::Auto, Delays::usual()),
        run_sleep_pre(Delays::usual()),
        run_sleep(Delays::usual()),
        run_shutdown(),
        run_brightness(),
    ]
}

#[test]
fn each_command_opens_its_marker_and_begins() {
    let scopes: Vec<Option<StateScope>> = every_run()
        .into_iter()
        .map(|run| {
            let run = after(run, environment(Some(b"/c")));
            match after(run, Outcome::Text(FILE.to_string())).pending() {
                Action::OpenMarker(scope) => Some(*scope),
                _ => None,
            }
        })
        .collect();
    assert_eq!(
        scopes,
        [
            Some(StateScope::Session),
            Some(StateScope::Session),
            Some(StateScope::System),
            Some(StateScope::System),
            Some(StateScope::System),
            None,
            None,
        ]
    );
    let ip = "192.0.2.42".parse().unwrap();
    let first: Vec<Run> = every_run()
        .into_iter()
        .map(|run| set_up(run, FILE))
        .collect();
    assert_eq!(first[0].pending(), &Action::Tv(ip, TvCommand::QueryInput));
    assert_eq!(first[1].pending(), &Action::MarkerExists);
    assert_eq!(first[2].pending(), &Action::MarkerExists);
    assert_eq!(first[3].pending(), &Action::MarkerExists);
    assert_eq!(first[4].pending(), &Action::CheckSleepRequest);
    assert_eq!(first[5].pending(), &Action::CheckReboot);
    assert_eq!(first[6].pending(), &Action::CheckReachable(ip));
}

#[test]
fn each_failed_lookup_has_its_error() {
    for run in every_run() {
        let run = after(run, environment(None));
        assert_eq!(
            run.into_result(),
            Some(Err(RunError::ConfigPath(ConfigPathError::NotConfigured)))
        );
    }
    for run in every_run() {
        let run = after(run, environment(Some(b"/c")));
        let run = after(run, Outcome::IoFailed(broken("gone")));
        assert_eq!(
            run.into_result(),
            Some(Err(RunError::Config(ConfigError::Io(broken("gone")))))
        );
    }
    for run in every_run() {
        let run = after(run, environment(Some(b"/c")));
        let run = after(run, Outcome::Text(String::new()));
        assert_eq!(
            run.into_result(),
            Some(Err(RunError::Config(ConfigError::MissingRequiredKey(
                "tv_ip"
            ))))
        );
    }
    let run = after(run_screen_off(), environment(Some(b"/c")));
    let run = after(run, Outcome::Text(FILE.to_string()));
    let run = after(run, Outcome::Refused("no directory".to_string()));
    assert_eq!(
        run.into_result(),
        Some(Err(RunError::StateDir("no directory".to_string())))
    );
    let run = after(run_shutdown(), environment(Some(b"/c")));
    let run = after(run, Outcome::Text(FILE.to_string()));
    let run = after(run, Outcome::Refused("no key".to_string()));
    assert_eq!(
        run.into_result(),
        Some(Err(RunError::AuthContext("no key".to_string())))
    );
}

#[test]
fn a_run_takes_only_outcomes_of_its_action() {
    let run = run_screen_off();
    assert!(!run.accepts(&Outcome::Done));
    assert!(!run.accepts(&Outcome::Flag(true)));
    assert!(run.accepts(&environment(None)));
    assert_eq!(run.into_result(), None);
    let over = after(run_screen_off(), environment(None));
    assert!(!over.accepts(&Outcome::Done));
}

#[test]
fn a_line_that_cannot_be_written_ends_the_run() {
    let run = set_up(run_screen_off(), FILE);
    let run = after(run, refusal("asleep"));
    assert_eq!(
        run.pending(),
        &Action::Log(
            "LG Buddy Screen Off: Could not query TV input. Falling back to power_off. asleep"
                .to_string()
        )
    );
    let run = after(run, Outcome::IoFailed(broken("pipe closed")));
    assert_eq!(
        run.into_result(),
        Some(Err(RunError::Io(broken("pipe closed"))))
    );
}

#[test]
fn a_marker_that_cannot_be_made_ends_the_run() {
    let run = set_up(run_screen_off(), FILE);
    let run = after(run, Outcome::Input(CurrentInput::Hdmi(HdmiInput::Hdmi2)));
    let run = after(run, Outcome::Done);
    let run = after(run, Outcome::Done);
    assert_eq!(run.pending(), &Action::MarkerCreate);
    let run = after(run, Outcome::IoFailed(broken("full")));
    assert_eq!(run.into_result(), Some(Err(RunError::Io(broken("full")))));
}

#[test]
fn another_source_than_a_port_is_somewhere_else() {
    let run = set_up(run_screen_off(), FILE);
    let run = after(
        run,
        Outcome::Input(CurrentInput::Other("com.webos.app.livetv".to_string())),
    );
    assert_eq!(run.pending(), &Action::MarkerClear);
    let run = after(run, Outcome::Done);
    assert_eq!(
        run.pending(),
        &Action::Log(
            "LG Buddy Screen Off: TV is on com.webos.app.livetv (not HDMI_2). Skipping idle action."
                .to_string()
        )
    );
    assert_eq!(after(run, Outcome::Done).into_result(), Some(Ok(())));
}

/// What a television that does nothing makes of a run: the actions that are performed.
fn against_a_dead_television(mut run: Run, marker: bool) -> (Vec<String>, Result<(), RunError>) {
    let mut performed = Vec::new();
    while !matches!(run.pending(), Action::Finish(_)) {
        let (name, outcome) = match run.pending() {
            Action::MarkerExists => ("exists", Outcome::Flag(marker)),
            Action::MarkerCreate => ("create", Outcome::Done),
            Action::MarkerClear => ("clear", Outcome::Done),
            Action::Log(_) => ("log", Outcome::Done),
            Action::WaitForNetwork => ("network", Outcome::IoFailed(broken("down"))),
            Action::Sleep(_) => ("sleep", Outcome::Done),
            Action::CheckSleepRequest => ("request", Outcome::Flag(true)),
            Action::CheckReboot => ("reboot", Outcome::IoFailed(broken("unknown"))),
            Action::CheckReachable(_) => ("reachable", Outcome::IoFailed(broken("no route"))),
            Action::ShowError { .. } => ("error", Outcome::IoFailed(broken("no display"))),
            Action::Tv(_, TvCommand::Wake(_)) => ("wake", refusal("no socket")),
            Action::Tv(_, TvCommand::QueryInput) => ("input?", refusal("dead")),
            Action::Tv(_, TvCommand::SetInput(_)) => ("input!", refusal("dead")),
            Action::Tv(_, TvCommand::PowerOff) => ("off", refusal("dead")),
            Action::Tv(_, _) => ("tv", refusal("dead")),
            other => panic!("unexpected {:?}", other),
        };
        performed.push(name.to_string());
        run = after(run, outcome);
    }
    (performed, run.into_result().unwrap())
}

fn count(performed: &[String], name: &str) -> usize {
    performed.iter().filter(|done| *done == name).count()
}

#[test]
fn repeats_end() {
    let start = |run| set_up(run, FILE);

    let (done, result) = against_a_dead_television(start(run_screen_off()), false);
    assert_eq!(done, ["input?", "log", "off", "log"]);
    assert_eq!(result, Ok(()));

    let (done, result) = against_a_dead_television(start(run_screen_on(Delays::usual())), true);
    assert_eq!(count(&done, "wake"), 7);
    assert_eq!(count(&done, "sleep"), 7);
    assert_eq!(count(&done, "input!"), 6);
    assert_eq!(count(&done, "clear"), 0);
    assert!(done.len() < 50);
    assert_eq!(
        result,
        Err(RunError::Policy(
            "screen-on wake sequence failed after 6 attempts".to_string()
        ))
    );

    let run = start(run_startup(StartupMode::Auto, Delays::usual()));
    let (done, result) = against_a_dead_television(run, true);
    assert_eq!(
        &done[..7],
        ["exists", "network", "exists", "log", "clear", "wake", "log"]
    );
    assert_eq!(count(&done, "wake"), 7);
    assert_eq!(count(&done, "sleep"), 7);
    assert_eq!(count(&done, "input!"), 6);
    assert_eq!(count(&done, "clear"), 1);
    assert!(done.len() < 40);
    assert_eq!(result, Ok(()));

    for marker in [false, true] {
        let (done, result) =
            against_a_dead_television(start(run_sleep_pre(Delays::usual())), marker);
        assert_eq!(count(&done, "input?"), 4);
        assert_eq!(count(&done, "off"), 4);
        assert_eq!(count(&done, "sleep"), 6);
        assert_eq!(count(&done, "clear"), usize::from(!marker));
        assert!(done.len() < 19);
        assert_eq!(result, Ok(()));

        let (done, result) = against_a_dead_television(start(run_sleep(Delays::usual())), marker);
        assert_eq!(count(&done, "input?"), 4);
        assert_eq!(count(&done, "off"), 4);
        assert_eq!(count(&done, "sleep"), 6);
        assert_eq!(count(&done, "clear"), usize::from(!marker));
        assert_eq!(count(&done, "log"), 0);
        assert!(done.len() < 18);
        assert_eq!(result, Ok(()));
    }

    let (done, result) = against_a_dead_television(start(run_shutdown()), false);
    assert_eq!(done, ["reboot", "log", "input?", "log", "off", "log"]);
    assert_eq!(result, Ok(()));

    let (done, result) = against_a_dead_television(start(run_brightness()), false);
    assert_eq!(done, ["reachable", "error"]);
    assert_eq!(
        result,
        Err(RunError::Policy(
            "Could not check TV reachability at 192.0.2.42. no route".to_string()
        ))
    );
}

#[test]
fn a_wake_packet_that_was_not_sent_costs_a_line() {
    let begin = || {
        let run = set_up(run_startup(StartupMode::Boot, Delays::usual()), FILE);
        let mut run = after(run, Outcome::Flag(false));
        while !matches!(run.pending(), Action::Tv(_, TvCommand::Wake(_))) {
            run = after(run, Outcome::Done);
        }
        run
    };
    let sent = after(begin(), Outcome::Done);
    let failed = after(begin(), refusal("no socket"));
    assert_eq!(
        failed.pending(),
        &Action::Log(
            "LG Buddy Startup: Wake-on-LAN send failed. Continuing anyway. no socket".to_string()
        )
    );
    assert_eq!(after(failed, Outcome::Done), sent);
}

#[test]
fn a_sleep_that_is_not_known_costs_a_line() {
    let run = set_up(run_sleep(Delays::usual()), FILE);
    let run = after(run, Outcome::IoFailed(broken("no journal")));
    assert_eq!(
        run.pending(),
        &Action::Log(
            "LG Buddy Sleep: Could not determine NetworkManager sleep state. Skipping. no journal"
                .to_string()
        )
    );
    assert_eq!(after(run, Outcome::Done).into_result(), Some(Ok(())));
}

#[test]
fn overridden_delays_are_kept_to() {
    let delays = Delays {
        sleep_retry: Some(9),
        ..Delays::usual()
    };
    let run = set_up(run_sleep_pre(delays), FILE);
    let run = after(run, Outcome::Flag(false));
    let run = after(run, refusal("dead"));
    assert_eq!(run.pending(), &Action::Sleep(9));
}

#[test]
fn a_window_that_fails_ends_the_change_of_brightness() {
    let run = set_up(run_brightness(), FILE);
    let run = after(run, Outcome::Flag(true));
    let run = after(run, Outcome::Brightness(72));
    assert_eq!(run.pending(), &Action::PromptBrightness(72));
    let run = after(run, Outcome::IoFailed(broken("no display")));
    assert_eq!(
        run.into_result(),
        Some(Err(RunError::Io(broken("no display"))))
    );
}

#[test]
fn the_brightness_that_was_chosen_is_set() {
    let run = set_up(run_brightness(), FILE);
    let run = after(run, Outcome::Flag(true));
    let run = after(run, refusal("dead"));
    assert_eq!(run.pending(), &Action::PromptBrightness(50));
    let run = after(run, Outcome::Choice(Some(30)));
    assert_eq!(
        run.pending(),
        &Action::Tv(
            "192.0.2.42".parse().unwrap(),
            TvCommand::SetBrightness(30)
        )
    );
    let run = after(run, refusal("dead"));
    let run = after(run, Outcome::IoFailed(broken("no bus")));
    assert_eq!(
        run.into_result(),
        Some(Err(RunError::Policy(
            "failed to set brightness: dead".to_string()
        )))
    );
}

#[test]
fn without_the_marker_nothing_is_told() {
    for run in [
        run_screen_on(Delays::usual()),
        run_startup(StartupMode::Wake, Delays::usual()),
    ] {
        let (done, result) = against_a_dead_television(set_up(run, FILE), false);
        assert_eq!(count(&done, "wake"), 0);
        assert_eq!(count(&done, "input!"), 0);
        assert_eq!(count(&done, "sleep"), 0);
        assert_eq!(count(&done, "clear"), 0);
        assert_eq!(count(&done, "log"), 1);
        assert_eq!(result, Ok(()));
    }
    let aggressive = format!("{}screen_restore_policy=aggressive\n", FILE);
    let run = set_up(run_screen_on(Delays::usual()), &aggressive);
    let (done, _) = against_a_dead_television(run, false);
    assert_eq!(count(&done, "wake"), 7);
}
