use lg_buddy::commands::brightness::BRIGHTNESS_DEFAULT_VALUE;
use lg_buddy::config::{Config, HdmiInput, MacAddress, ScreenBackend, ScreenRestorePolicy};
use lg_buddy::delay::Delays;
use lg_buddy::effects::{
    Action, CurrentInput, Outcome, RunError, StartupMode, TvCommand, TvError,
};
use lg_buddy::failure::{IoError, IoErrorKind};
use lg_buddy::net::Ipv4Addr;
use lg_buddy::run::{
    run_brightness_with, run_screen_off_with, run_screen_on_with, run_shutdown_with,
    run_sleep_pre_with, run_sleep_with, run_startup_with, Run,
};
use std::cell::{Cell, RefCell};

#[test]
fn matching_input_blanks_screen_and_sets_marker() {
    let marker = Marker::default();
    let mock = MockTv::default();
    mock.set_input("HDMI_2");

    let mut output = String::new();
    screen_off(
        &mut output,
        &sample_config(HdmiInput::Hdmi2),
        &marker,
        &mock,
    )
    .expect("screen-off should succeed");

    assert!(marker.is_set());
    assert_call_commands(&mock, &["get_input", "turn_screen_off"]);
    assert!(rendered(&output).contains("Screen blank command succeeded."));
}

#[test]
fn matching_input_falls_back_to_power_off() {
    let marker = Marker::default();
    let mock = MockTv::default();
    mock.set_input("HDMI_3");
    mock.queue_error("turn_screen_off", "blank failed");

    let mut output = String::new();
    screen_off(
        &mut output,
        &sample_config(HdmiInput::Hdmi3),
        &marker,
        &mock,
    )
    .expect("screen-off fallback should succeed");

    assert!(marker.is_set());
    assert_call_commands(&mock, &["get_input", "turn_screen_off", "power_off"]);
    let rendered = rendered(&output);
    assert!(rendered.contains("Screen blank failed."));
    assert!(rendered.contains("Fallback power_off succeeded."));
}

#[test]
fn get_input_failure_falls_back_to_power_off() {
    let marker = Marker::default();
    let mock = MockTv::default();
    mock.queue_error("get_input", "unreachable");

    let mut output = String::new();
    screen_off(
        &mut output,
        &sample_config(HdmiInput::Hdmi1),
        &marker,
        &mock,
    )
    .expect("screen-off fallback should succeed");

    assert!(marker.is_set());
    assert_call_commands(&mock, &["get_input", "power_off"]);
    let rendered = rendered(&output);
    assert!(rendered.contains("Could not query TV input."));
    assert!(rendered.contains("Fallback power_off succeeded."));
}

#[test]
fn different_input_skips_and_clears_marker() {
    let marker = Marker::default();
    marker.create();
    let mock = MockTv::default();
    mock.set_input("HDMI_4");

    let mut output = String::new();
    screen_off(
        &mut output,
        &sample_config(HdmiInput::Hdmi2),
        &marker,
        &mock,
    )
    .expect("screen-off skip should succeed");

    assert!(!marker.is_set());
    assert_call_commands(&mock, &["get_input"]);
    assert!(rendered(&output).contains("Skipping idle action."));
}

#[test]
fn failed_fallback_does_not_set_marker() {
    let marker = Marker::default();
    let mock = MockTv::default();
    mock.set_input("HDMI_2");
    mock.queue_error("turn_screen_off", "blank failed");
    mock.queue_error("power_off", "power failed");

    let mut output = String::new();
    screen_off(
        &mut output,
        &sample_config(HdmiInput::Hdmi2),
        &marker,
        &mock,
    )
    .expect("screen-off should still return ok");

    assert!(!marker.is_set());
    assert_call_commands(&mock, &["get_input", "turn_screen_off", "power_off"]);
    assert!(rendered(&output).contains("Fallback power_off failed."));
}

#[test]
fn screen_on_skips_when_marker_is_missing() {
    let marker = Marker::default();
    let mock = MockTv::default();
    let wol = RecordingWakeOnLanSender::default();
    let sleeper = RecordingSleeper::default();

    let mut output = String::new();
    screen_on(
        &mut output,
        &sample_config(HdmiInput::Hdmi2),
        &marker,
        &mock,
        &wol,
        &sleeper,
    )
    .expect("missing marker should skip");

    assert_call_commands(&mock, &[]);
    assert!(wol.calls().is_empty());
    assert!(sleeper.durations().is_empty());
    assert!(rendered(&output).contains("State file not found."));
}

#[test]
fn screen_on_aggressive_mode_restores_without_marker() {
    let marker = Marker::default();
    let mock = MockTv::default();
    mock.queue_error("turn_screen_on", "offline");
    mock.queue_error("set_input", "not ready");
    let wol = RecordingWakeOnLanSender::default();
    let sleeper = RecordingSleeper::default();

    let mut output = String::new();
    screen_on(
        &mut output,
        &sample_config_with_restore_policy(HdmiInput::Hdmi2, ScreenRestorePolicy::Aggressive),
        &marker,
        &mock,
        &wol,
        &sleeper,
    )
    .expect("aggressive mode should restore without a marker");

    assert!(!marker.is_set());
    assert_call_commands(&mock, &["turn_screen_on", "set_input", "set_input"]);
    assert_eq!(wol.calls().len(), 2);
    assert_eq!(
        sleeper.durations(),
        vec![6, 2]
    );
    let rendered = rendered(&output);
    assert!(rendered.contains("Aggressive restore policy is enabled"));
    assert!(rendered.contains("Wake attempt 2 succeeded."));
    assert!(rendered.contains("Clearing wake state."));
}

#[test]
fn screen_on_restores_even_when_marker_is_old() {
    let marker = Marker::default();
    marker.create();
    let mock = MockTv::default();
    mock.set_screen_on(false);
    let wol = RecordingWakeOnLanSender::default();
    let sleeper = RecordingSleeper::default();

    let mut output = String::new();
    screen_on(
        &mut output,
        &sample_config(HdmiInput::Hdmi2),
        &marker,
        &mock,
        &wol,
        &sleeper,
    )
    .expect("old marker should still restore");

    assert!(
        !marker.is_set(),
        "successful restore should clear the marker"
    );
    assert_call_commands(&mock, &["turn_screen_on"]);
    assert!(wol.calls().is_empty());
    assert!(sleeper.durations().is_empty());
    assert!(rendered(&output).contains("Screen unblank succeeded."));
}

#[test]
fn screen_on_unblanks_and_clears_marker() {
    let marker = Marker::default();
    marker.create();
    let mock = MockTv::default();
    mock.set_screen_on(false);
    let wol = RecordingWakeOnLanSender::default();
    let sleeper = RecordingSleeper::default();

    let mut output = String::new();
    screen_on(
        &mut output,
        &sample_config(HdmiInput::Hdmi1),
        &marker,
        &mock,
        &wol,
        &sleeper,
    )
    .expect("turn_screen_on should succeed");

    assert!(!marker.is_set());
    assert_call_commands(&mock, &["turn_screen_on"]);
    assert!(wol.calls().is_empty());
    assert!(rendered(&output).contains("Screen unblank succeeded."));
}

#[test]
fn screen_on_restores_input_when_screen_is_already_active() {
    let marker = Marker::default();
    marker.create();
    let mock = MockTv::default();
    let wol = RecordingWakeOnLanSender::default();
    let sleeper = RecordingSleeper::default();

    let mut output = String::new();
    screen_on(
        &mut output,
        &sample_config(HdmiInput::Hdmi3),
        &marker,
        &mock,
        &wol,
        &sleeper,
    )
    .expect("already-active path should succeed");

    assert!(!marker.is_set());
    assert_call_commands(&mock, &["turn_screen_on", "set_input"]);
    assert!(wol.calls().is_empty());
    assert!(sleeper.durations().is_empty());
    let rendered = rendered(&output);
    assert!(rendered.contains("TV reported an active screen state."));
    assert!(rendered.contains("Immediate input restore succeeded."));
}

#[test]
fn screen_on_falls_back_to_wake_and_retries_until_success() {
    let marker = Marker::default();
    marker.create();
    let mock = MockTv::default();
    mock.queue_error("turn_screen_on", "offline");
    mock.queue_error("set_input", "not ready");
    let wol = RecordingWakeOnLanSender::default();
    let sleeper = RecordingSleeper::default();

    let mut output = String::new();
    screen_on(
        &mut output,
        &sample_config(HdmiInput::Hdmi4),
        &marker,
        &mock,
        &wol,
        &sleeper,
    )
    .expect("wake retry should succeed");

    assert!(!marker.is_set());
    assert_call_commands(&mock, &["turn_screen_on", "set_input", "set_input"]);
    assert_eq!(wol.calls().len(), 2);
    assert_eq!(
        sleeper.durations(),
        vec![6, 2]
    );
    let rendered = rendered(&output);
    assert!(rendered.contains("Sending initial Wake-on-LAN packet"));
    assert!(rendered.contains("Wake attempt 1 failed."));
    assert!(rendered.contains("Wake attempt 2 succeeded."));
}

#[test]
fn screen_on_returns_error_and_preserves_marker_after_exhausting_retries() {
    let marker = Marker::default();
    marker.create();
    let mock = MockTv::default();
    mock.queue_error("turn_screen_on", "offline");
    for _ in 0..6 {
        mock.queue_error("set_input", "not ready");
    }
    let wol = RecordingWakeOnLanSender::default();
    let sleeper = RecordingSleeper::default();

    let mut output = String::new();
    let err = screen_on(
        &mut output,
        &sample_config(HdmiInput::Hdmi2),
        &marker,
        &mock,
        &wol,
        &sleeper,
    )
    .expect_err("exhausted retries should fail");

    assert!(marker.is_set());
    assert_eq!(mock.calls().len(), 7);
    assert_eq!(wol.calls().len(), 7);
    assert_eq!(sleeper.durations().len(), 7);
    assert!(matches!(err, RunError::Policy(_)));
    assert!(rendered(&output).contains("Wake failed after 6 attempts."));
}

#[test]
fn screen_on_aggressive_mode_returns_error_without_creating_marker_after_exhausting_retries() {
    let marker = Marker::default();
    let mock = MockTv::default();
    mock.queue_error("turn_screen_on", "offline");
    for _ in 0..6 {
        mock.queue_error("set_input", "not ready");
    }
    let wol = RecordingWakeOnLanSender::default();
    let sleeper = RecordingSleeper::default();

    let mut output = String::new();
    let err = screen_on(
        &mut output,
        &sample_config_with_restore_policy(HdmiInput::Hdmi2, ScreenRestorePolicy::Aggressive),
        &marker,
        &mock,
        &wol,
        &sleeper,
    )
    .expect_err("aggressive mode should still fail after exhausting retries");

    assert!(!marker.is_set());
    assert_eq!(mock.calls().len(), 7);
    assert_eq!(wol.calls().len(), 7);
    assert_eq!(sleeper.durations().len(), 7);
    assert!(matches!(err, RunError::Policy(_)));
    let rendered = rendered(&output);
    assert!(rendered.contains("Aggressive restore policy is enabled"));
    assert!(rendered.contains("Wake failed after 6 attempts."));
}

#[test]
fn startup_wake_mode_skips_without_system_marker() {
    let marker = Marker::default();
    let mock = MockTv::default();
    let wol = RecordingWakeOnLanSender::default();
    let sleeper = RecordingSleeper::default();
    let network = FakeNetworkWaiter::clear();
    let deps = StartupDeps {
        tv_client: &mock,
        wol_sender: &wol,
        sleeper: &sleeper,
        network_waiter: &network,
    };

    let mut output = String::new();
    startup(
        &mut output,
        &sample_config(HdmiInput::Hdmi2),
        &marker,
        deps,
        StartupMode::Wake,
    )
    .expect("wake mode without marker should skip");

    assert!(wol.calls().is_empty());
    assert!(sleeper.durations().is_empty());
    assert_eq!(network.calls(), 1);
    assert_call_commands(&mock, &[]);
    assert!(rendered(&output).contains("TV was not on our input. Skipping."));
}

#[test]
fn startup_wake_mode_restores_without_system_marker_in_aggressive_mode() {
    let marker = Marker::default();
    let mock = MockTv::default();
    let wol = RecordingWakeOnLanSender::default();
    let sleeper = RecordingSleeper::default();
    let network = FakeNetworkWaiter::clear();
    let deps = StartupDeps {
        tv_client: &mock,
        wol_sender: &wol,
        sleeper: &sleeper,
        network_waiter: &network,
    };

    let mut output = String::new();
    startup(
        &mut output,
        &sample_config_with_restore_policy(HdmiInput::Hdmi2, ScreenRestorePolicy::Aggressive),
        &marker,
        deps,
        StartupMode::Wake,
    )
    .expect("aggressive wake mode without marker should restore");

    assert!(!marker.is_set());
    assert_eq!(network.calls(), 1);
    assert_eq!(wol.calls().len(), 1);
    assert_eq!(sleeper.durations(), vec![6]);
    assert_call_commands(&mock, &["set_input"]);
    let rendered = rendered(&output);
    assert!(rendered.contains("Aggressive restore policy is enabled"));
    assert!(rendered.contains("Wake from sleep: Restoring display state."));
    assert!(rendered.contains("TV turned on and set to HDMI_2."));
}

#[test]
fn startup_auto_mode_treats_missing_marker_as_boot() {
    let marker = Marker::default();
    let mock = MockTv::default();
    let wol = RecordingWakeOnLanSender::default();
    let sleeper = RecordingSleeper::default();
    let network = FakeNetworkWaiter::clear();
    let deps = StartupDeps {
        tv_client: &mock,
        wol_sender: &wol,
        sleeper: &sleeper,
        network_waiter: &network,
    };

    let mut output = String::new();
    startup(
        &mut output,
        &sample_config(HdmiInput::Hdmi4),
        &marker,
        deps,
        StartupMode::Auto,
    )
    .expect("auto boot should succeed");

    assert!(!marker.is_set());
    assert_eq!(network.calls(), 1);
    assert_eq!(wol.calls().len(), 1);
    assert_eq!(sleeper.durations(), vec![6]);
    assert_call_commands(&mock, &["set_input"]);
    let rendered = rendered(&output);
    assert!(rendered.contains("Cold boot: Turning TV on and switching to HDMI_4."));
    assert!(rendered.contains("TV turned on and set to HDMI_4."));
}

#[test]
fn startup_auto_mode_restores_when_system_marker_exists() {
    let marker = Marker::default();
    marker.create();
    let mock = MockTv::default();
    let wol = RecordingWakeOnLanSender::default();
    let sleeper = RecordingSleeper::default();
    let network = FakeNetworkWaiter::clear();
    let deps = StartupDeps {
        tv_client: &mock,
        wol_sender: &wol,
        sleeper: &sleeper,
        network_waiter: &network,
    };

    let mut output = String::new();
    startup(
        &mut output,
        &sample_config(HdmiInput::Hdmi1),
        &marker,
        deps,
        StartupMode::Auto,
    )
    .expect("auto wake should succeed");

    assert!(!marker.is_set());
    assert_eq!(network.calls(), 1);
    assert_eq!(wol.calls().len(), 1);
    assert_call_commands(&mock, &["set_input"]);
    assert!(rendered(&output).contains("Wake from sleep: LG Buddy turned TV off. Restoring."));
}

#[test]
fn startup_boot_mode_clears_existing_marker_before_restore() {
    let marker = Marker::default();
    marker.create();
    let mock = MockTv::default();
    let wol = RecordingWakeOnLanSender::default();
    let sleeper = RecordingSleeper::default();
    let network = FakeNetworkWaiter::clear();
    let deps = StartupDeps {
        tv_client: &mock,
        wol_sender: &wol,
        sleeper: &sleeper,
        network_waiter: &network,
    };

    let mut output = String::new();
    startup(
        &mut output,
        &sample_config(HdmiInput::Hdmi3),
        &marker,
        deps,
        StartupMode::Boot,
    )
    .expect("boot mode should succeed");

    assert!(!marker.is_set());
    assert_eq!(network.calls(), 1);
    assert_call_commands(&mock, &["set_input"]);
    assert!(rendered(&output).contains("Cold boot: Turning TV on and switching to HDMI_3."));
}

#[test]
fn startup_ignores_network_wait_failures() {
    let marker = Marker::default();
    let mock = MockTv::default();
    let wol = RecordingWakeOnLanSender::default();
    let sleeper = RecordingSleeper::default();
    let network = FakeNetworkWaiter::failing("network offline");
    let deps = StartupDeps {
        tv_client: &mock,
        wol_sender: &wol,
        sleeper: &sleeper,
        network_waiter: &network,
    };

    let mut output = String::new();
    startup(
        &mut output,
        &sample_config(HdmiInput::Hdmi2),
        &marker,
        deps,
        StartupMode::Boot,
    )
    .expect("startup should continue even if network wait fails");

    assert_eq!(network.calls(), 1);
    assert_eq!(wol.calls().len(), 1);
    assert_call_commands(&mock, &["set_input"]);
    assert!(rendered(&output).contains("TV turned on and set to HDMI_2."));
}

#[test]
fn startup_retries_until_set_input_succeeds() {
    let marker = Marker::default();
    let mock = MockTv::default();
    mock.queue_error("set_input", "not ready");
    let wol = RecordingWakeOnLanSender::default();
    let sleeper = RecordingSleeper::default();
    let network = FakeNetworkWaiter::clear();
    let deps = StartupDeps {
        tv_client: &mock,
        wol_sender: &wol,
        sleeper: &sleeper,
        network_waiter: &network,
    };

    let mut output = String::new();
    startup(
        &mut output,
        &sample_config(HdmiInput::Hdmi2),
        &marker,
        deps,
        StartupMode::Boot,
    )
    .expect("startup retry should succeed");

    assert_eq!(network.calls(), 1);
    assert_call_commands(&mock, &["set_input", "set_input"]);
    assert_eq!(wol.calls().len(), 2);
    assert_eq!(
        sleeper.durations(),
        vec![6, 2]
    );
    let rendered = rendered(&output);
    assert!(rendered.contains("Attempt 1 failed, retrying in 2s..."));
    assert!(rendered.contains("TV turned on and set to HDMI_2."));
}

#[test]
fn startup_logs_failure_after_exhausting_retries_and_leaves_marker_cleared() {
    let marker = Marker::default();
    marker.create();
    let mock = MockTv::default();
    for _ in 0..6 {
        mock.queue_error("set_input", "not ready");
    }
    let wol = RecordingWakeOnLanSender::default();
    let sleeper = RecordingSleeper::default();
    let network = FakeNetworkWaiter::clear();
    let deps = StartupDeps {
        tv_client: &mock,
        wol_sender: &wol,
        sleeper: &sleeper,
        network_waiter: &network,
    };

    let mut output = String::new();
    startup(
        &mut output,
        &sample_config(HdmiInput::Hdmi1),
        &marker,
        deps,
        StartupMode::Auto,
    )
    .expect("startup should still succeed after exhausting retries");

    assert!(!marker.is_set());
    assert_eq!(network.calls(), 1);
    assert_eq!(mock.calls().len(), 6);
    assert_eq!(wol.calls().len(), 7);
    assert_eq!(sleeper.durations().len(), 7);
    assert!(rendered(&output).contains("set_input failed after 6 attempts"));
}

#[test]
fn brightness_sets_oled_brightness_and_notifies() {
    let mock = MockTv::default();
    mock.set_backlight(72);
    let reachability = FakeReachabilityChecker::reachable();
    let ui = FakeBrightnessUi::selected(65);
    let notifier = RecordingNotifier::default();
    let deps = BrightnessDeps {
        tv_client: &mock,
        reachability: &reachability,
        ui: &ui,
        notifier: &notifier,
    };

    let mut output = String::new();
    brightness(&mut output, &sample_config(HdmiInput::Hdmi2), deps)
        .expect("brightness should succeed");

    assert_eq!(ui.initial_values(), vec![72]);
    assert!(ui.error_messages().is_empty());
    assert_eq!(
        notifier.messages(),
        vec![("LG TV".to_string(), "Brightness set to 65%".to_string())]
    );
    assert_eq!(mock.state_snapshot().backlight, 65);
    assert_call_commands(&mock, &["get_picture_settings", "set_settings"]);
    assert!(rendered(&output).contains("Set OLED pixel brightness to 65%."));
}

#[test]
fn brightness_returns_ok_when_dialog_is_cancelled() {
    let mock = MockTv::default();
    let reachability = FakeReachabilityChecker::reachable();
    let ui = FakeBrightnessUi::cancelled();
    let notifier = RecordingNotifier::default();
    let deps = BrightnessDeps {
        tv_client: &mock,
        reachability: &reachability,
        ui: &ui,
        notifier: &notifier,
    };

    let mut output = String::new();
    brightness(&mut output, &sample_config(HdmiInput::Hdmi2), deps)
        .expect("cancel should exit cleanly");

    assert_eq!(ui.initial_values(), vec![50]);
    assert_call_commands(&mock, &["get_picture_settings"]);
    assert!(notifier.messages().is_empty());
    assert!(rendered(&output).is_empty());
}

#[test]
fn brightness_shows_error_and_fails_when_tv_is_unreachable() {
    let mock = MockTv::default();
    let reachability = FakeReachabilityChecker::unreachable();
    let ui = FakeBrightnessUi::selected(50);
    let notifier = RecordingNotifier::default();
    let deps = BrightnessDeps {
        tv_client: &mock,
        reachability: &reachability,
        ui: &ui,
        notifier: &notifier,
    };

    let mut output = String::new();
    let err = brightness(&mut output, &sample_config(HdmiInput::Hdmi2), deps)
        .expect_err("unreachable tv should fail");

    assert!(matches!(err, RunError::Policy(_)));
    assert!(mock.calls().is_empty());
    assert!(notifier.messages().is_empty());
    assert_eq!(
        ui.error_messages(),
        vec![(
            "LG Buddy".to_string(),
            "TV is not reachable at 192.0.2.42.".to_string(),
        )]
    );
}

#[test]
fn brightness_defaults_to_fifty_when_current_brightness_query_fails() {
    let mock = MockTv::default();
    mock.queue_error("get_picture_settings", "offline");
    let reachability = FakeReachabilityChecker::reachable();
    let ui = FakeBrightnessUi::cancelled();
    let notifier = RecordingNotifier::default();
    let deps = BrightnessDeps {
        tv_client: &mock,
        reachability: &reachability,
        ui: &ui,
        notifier: &notifier,
    };

    let mut output = String::new();
    brightness(&mut output, &sample_config(HdmiInput::Hdmi2), deps)
        .expect("fallback to default brightness should still allow cancellation");

    assert_eq!(ui.initial_values(), vec![BRIGHTNESS_DEFAULT_VALUE]);
    assert_call_commands(&mock, &["get_picture_settings"]);
    assert!(notifier.messages().is_empty());
    assert!(rendered(&output).is_empty());
}

#[test]
fn brightness_notifies_and_fails_when_tv_update_fails() {
    let mock = MockTv::default();
    mock.queue_error("set_settings", "offline");
    let reachability = FakeReachabilityChecker::reachable();
    let ui = FakeBrightnessUi::selected(30);
    let notifier = RecordingNotifier::default();
    let deps = BrightnessDeps {
        tv_client: &mock,
        reachability: &reachability,
        ui: &ui,
        notifier: &notifier,
    };

    let mut output = String::new();
    let err = brightness(&mut output, &sample_config(HdmiInput::Hdmi2), deps)
        .expect_err("tv command failure should fail");

    assert!(matches!(err, RunError::Policy(_)));
    assert_eq!(ui.initial_values(), vec![50]);
    assert_eq!(
        notifier.messages(),
        vec![("LG TV".to_string(), "Failed to set brightness".to_string())]
    );
    assert_call_commands(&mock, &["get_picture_settings", "set_settings"]);
    assert!(rendered(&output).is_empty());
}

#[test]
fn shutdown_ignores_reboot() {
    let mock = MockTv::default();
    let detector = FakeRebootDetector::pending();

    let mut output = String::new();
    shutdown(
        &mut output,
        &sample_config(HdmiInput::Hdmi2),
        &mock,
        &detector,
    )
    .expect("reboot should be ignored");

    assert_call_commands(&mock, &[]);
    assert!(rendered(&output).contains("Reboot; ignoring"));
}

#[test]
fn shutdown_powers_off_when_configured_input_is_active() {
    let mock = MockTv::default();
    mock.set_input("HDMI_3");
    let detector = FakeRebootDetector::clear();

    let mut output = String::new();
    shutdown(
        &mut output,
        &sample_config(HdmiInput::Hdmi3),
        &mock,
        &detector,
    )
    .expect("matching input should power off");

    assert_call_commands(&mock, &["get_input", "power_off"]);
    assert!(rendered(&output).contains("TV is on HDMI_3. Turning off for shutdown."));
}

#[test]
fn shutdown_skips_when_tv_is_on_different_input() {
    let mock = MockTv::default();
    mock.set_input("HDMI_1");
    let detector = FakeRebootDetector::clear();

    let mut output = String::new();
    shutdown(
        &mut output,
        &sample_config(HdmiInput::Hdmi4),
        &mock,
        &detector,
    )
    .expect("nonmatching input should skip");

    assert_call_commands(&mock, &["get_input"]);
    assert!(rendered(&output).contains("TV is on HDMI_1 (not HDMI_4). Skipping."));
}

#[test]
fn shutdown_falls_back_to_power_off_when_input_query_fails() {
    let mock = MockTv::default();
    mock.queue_error("get_input", "offline");
    let detector = FakeRebootDetector::clear();

    let mut output = String::new();
    shutdown(
        &mut output,
        &sample_config(HdmiInput::Hdmi2),
        &mock,
        &detector,
    )
    .expect("query failure should still power off");

    assert_call_commands(&mock, &["get_input", "power_off"]);
    assert!(rendered(&output).contains("Could not query TV input. Proceeding with power_off."));
}

#[test]
fn shutdown_logs_power_off_failure_but_does_not_error() {
    let mock = MockTv::default();
    mock.set_input("HDMI_2");
    mock.queue_error("power_off", "already off");
    let detector = FakeRebootDetector::clear();

    let mut output = String::new();
    shutdown(
        &mut output,
        &sample_config(HdmiInput::Hdmi2),
        &mock,
        &detector,
    )
    .expect("power_off failure should not abort shutdown");

    assert_call_commands(&mock, &["get_input", "power_off"]);
    assert!(rendered(&output).contains("power_off failed, continuing shutdown."));
}

#[test]
fn sleep_pre_powers_off_and_sets_system_marker_on_matching_input() {
    let marker = Marker::default();
    let mock = MockTv::default();
    mock.set_input("HDMI_3");
    let sleeper = RecordingSleeper::default();

    let mut output = String::new();
    sleep_pre(
        &mut output,
        &sample_config(HdmiInput::Hdmi3),
        &marker,
        &mock,
        &sleeper,
    )
    .expect("sleep-pre should succeed");

    assert!(marker.is_set());
    assert_call_commands(&mock, &["get_input", "power_off"]);
    assert!(rendered(&output).contains("Turning off for sleep."));
}

#[test]
fn sleep_pre_skips_and_clears_marker_on_different_input() {
    let marker = Marker::default();
    marker.create();
    let mock = MockTv::default();
    mock.set_input("HDMI_1");
    let sleeper = RecordingSleeper::default();

    let mut output = String::new();
    sleep_pre(
        &mut output,
        &sample_config(HdmiInput::Hdmi4),
        &marker,
        &mock,
        &sleeper,
    )
    .expect("sleep-pre skip should succeed");

    assert!(!marker.is_set());
    assert_call_commands(&mock, &["get_input"]);
    assert!(rendered(&output).contains("Skipping."));
}

#[test]
fn sleep_pre_falls_back_to_power_off_when_input_query_keeps_failing() {
    let marker = Marker::default();
    let mock = MockTv::default();
    for _ in 0..4 {
        mock.queue_error("get_input", "offline");
    }
    let sleeper = RecordingSleeper::default();

    let mut output = String::new();
    sleep_pre(
        &mut output,
        &sample_config(HdmiInput::Hdmi2),
        &marker,
        &mock,
        &sleeper,
    )
    .expect("sleep-pre fallback should succeed");

    assert!(marker.is_set());
    assert_call_commands(
        &mock,
        &[
            "get_input",
            "get_input",
            "get_input",
            "get_input",
            "power_off",
        ],
    );
    assert_eq!(
        sleeper.durations(),
        vec![
            1,
            1,
            1
        ]
    );
    assert!(rendered(&output).contains("Attempting power_off fallback."));
}

#[test]
fn sleep_skips_when_networkmanager_is_not_entering_sleep() {
    let marker = Marker::default();
    let mock = MockTv::default();
    let detector = FakeSleepRequestDetector::clear();
    let sleeper = RecordingSleeper::default();

    let mut output = String::new();
    sleep(
        &mut output,
        &sample_config(HdmiInput::Hdmi2),
        &marker,
        &mock,
        &detector,
        &sleeper,
    )
    .expect("sleep noop should succeed");

    assert!(!marker.is_set());
    assert_call_commands(&mock, &[]);
    assert!(rendered(&output).is_empty());
}

#[test]
fn sleep_powers_off_and_sets_marker_when_sleep_is_requested() {
    let marker = Marker::default();
    let mock = MockTv::default();
    mock.set_input("HDMI_2");
    let detector = FakeSleepRequestDetector::pending();
    let sleeper = RecordingSleeper::default();

    let mut output = String::new();
    sleep(
        &mut output,
        &sample_config(HdmiInput::Hdmi2),
        &marker,
        &mock,
        &detector,
        &sleeper,
    )
    .expect("sleep should power off");

    assert!(marker.is_set());
    assert_call_commands(&mock, &["get_input", "power_off"]);
}

#[test]
fn sleep_skips_when_tv_is_on_different_input() {
    let marker = Marker::default();
    marker.create();
    let mock = MockTv::default();
    mock.set_input("HDMI_1");
    let detector = FakeSleepRequestDetector::pending();
    let sleeper = RecordingSleeper::default();

    let mut output = String::new();
    sleep(
        &mut output,
        &sample_config(HdmiInput::Hdmi4),
        &marker,
        &mock,
        &detector,
        &sleeper,
    )
    .expect("sleep skip should succeed");

    assert!(!marker.is_set());
    assert_call_commands(&mock, &["get_input"]);
    assert!(rendered(&output).is_empty());
}

#[test]
fn what_screen_off_did_screen_on_undoes() {
    let marker = Marker::default();
    let mock = MockTv::default();
    mock.set_input("HDMI_2");
    let wol = RecordingWakeOnLanSender::default();
    let sleeper = RecordingSleeper::default();
    let config = sample_config(HdmiInput::Hdmi2);

    let mut output = String::new();
    screen_off(&mut output, &config, &marker, &mock).expect("screen-off");
    assert!(marker.is_set());
    assert!(!mock.state_snapshot().screen_on);

    screen_on(&mut output, &config, &marker, &mock, &wol, &sleeper).expect("screen-on");
    assert!(!marker.is_set());
    assert!(mock.state_snapshot().screen_on);
    assert_call_commands(&mock, &["get_input", "turn_screen_off", "turn_screen_on"]);
}

#[test]
fn what_sleep_did_startup_undoes() {
    let marker = Marker::default();
    let mock = MockTv::default();
    mock.set_input("HDMI_2");
    let wol = RecordingWakeOnLanSender::default();
    let sleeper = RecordingSleeper::default();
    let network = FakeNetworkWaiter::clear();
    let config = sample_config(HdmiInput::Hdmi2);

    let mut output = String::new();
    sleep_pre(&mut output, &config, &marker, &mock, &sleeper).expect("sleep-pre");
    assert!(marker.is_set());

    let deps = StartupDeps {
        tv_client: &mock,
        wol_sender: &wol,
        sleeper: &sleeper,
        network_waiter: &network,
    };
    startup(&mut output, &config, &marker, deps, StartupMode::Wake).expect("startup");
    assert!(!marker.is_set());
    assert_eq!(wol.calls(), vec![config.tv_mac]);
    assert_call_commands(&mock, &["get_input", "power_off", "set_input"]);
}

#[test]
fn a_start_waits_for_the_network_once_and_ignores_what_comes_of_it() {
    let outcome = |mode: StartupMode, set: bool, failures: usize, network: &FakeNetworkWaiter| {
        let marker = Marker::default();
        if set {
            marker.create();
        }
        let mock = MockTv::default();
        for _ in 0..failures {
            mock.queue_error("set_input", "not ready");
        }
        let wol = RecordingWakeOnLanSender::default();
        let sleeper = RecordingSleeper::default();
        let deps = StartupDeps {
            tv_client: &mock,
            wol_sender: &wol,
            sleeper: &sleeper,
            network_waiter: network,
        };
        let mut output = String::new();
        let config = sample_config(HdmiInput::Hdmi2);
        let result = startup(&mut output, &config, &marker, deps, mode);
        assert_eq!(network.calls(), 1);
        (
            result,
            output,
            mock.calls(),
            wol.calls(),
            sleeper.durations(),
            marker.is_set(),
        )
    };
    for mode in [StartupMode::Auto, StartupMode::Boot, StartupMode::Wake] {
        for set in [false, true] {
            for failures in [0, 1, 6] {
                assert_eq!(
                    outcome(mode, set, failures, &FakeNetworkWaiter::clear()),
                    outcome(mode, set, failures, &FakeNetworkWaiter::failing("offline")),
                );
            }
        }
    }
    let skipped = outcome(
        StartupMode::Wake,
        false,
        0,
        &FakeNetworkWaiter::failing("offline"),
    );
    assert!(skipped.2.is_empty());
    assert!(skipped.3.is_empty());
}

fn sample_config(input: HdmiInput) -> Config {
    sample_config_with_restore_policy(input, ScreenRestorePolicy::MarkerOnly)
}

fn sample_config_with_restore_policy(
    input: HdmiInput,
    screen_restore_policy: ScreenRestorePolicy,
) -> Config {
    Config {
        tv_ip: "192.0.2.42".parse::<Ipv4Addr>().expect("parse ipv4"),
        tv_mac: "aa:bb:cc:dd:ee:ff"
            .parse::<MacAddress>()
            .expect("parse mac"),
        tv_subnet: None,
        input,
        screen_backend: ScreenBackend::Auto,
        screen_idle_timeout: 300,
        screen_restore_policy,
    }
}

fn rendered(output: &str) -> String {
    output.to_string()
}

fn assert_call_commands(mock: &MockTv, expected: &[&str]) {
    assert_eq!(mock.calls(), expected);
}

/// An ownership marker in memory.
#[derive(Default)]
struct Marker {
    set: Cell<bool>,
}

impl Marker {
    fn create(&self) {
        self.set.set(true);
    }

    fn is_set(&self) -> bool {
        self.set.get()
    }
}

struct TvState {
    input: String,
    screen_on: bool,
    backlight: u8,
}

/// A television in memory: it fails where a failure is queued, and refuses to put a panel on
/// that is on.
struct MockTv {
    state: RefCell<TvState>,
    errors: RefCell<Vec<(String, String)>>,
    calls: RefCell<Vec<String>>,
}

impl Default for MockTv {
    fn default() -> Self {
        MockTv {
            state: RefCell::new(TvState {
                input: "HDMI_1".to_string(),
                screen_on: true,
                backlight: 50,
            }),
            errors: RefCell::new(Vec::new()),
            calls: RefCell::new(Vec::new()),
        }
    }
}

impl MockTv {
    fn set_input(&self, input: &str) {
        self.state.borrow_mut().input = input.to_string();
    }

    fn set_screen_on(&self, on: bool) {
        self.state.borrow_mut().screen_on = on;
    }

    fn set_backlight(&self, backlight: u8) {
        self.state.borrow_mut().backlight = backlight;
    }

    fn queue_error(&self, command: &str, message: &str) {
        self.errors
            .borrow_mut()
            .push((command.to_string(), message.to_string()));
    }

    fn calls(&self) -> Vec<String> {
        self.calls.borrow().clone()
    }

    fn state_snapshot(&self) -> std::cell::Ref<'_, TvState> {
        self.state.borrow()
    }

    fn call(&self, command: &str) -> Option<Outcome> {
        self.calls.borrow_mut().push(command.to_string());
        let mut errors = self.errors.borrow_mut();
        let at = errors.iter().position(|(name, _)| name == command)?;
        let (_, message) = errors.remove(at);
        Some(Outcome::TvFailed(TvError {
            message,
            active_screen: false,
        }))
    }

    fn perform(&self, command: TvCommand) -> Outcome {
        let name = match command {
            TvCommand::QueryInput => "get_input",
            TvCommand::SetInput(_) => "set_input",
            TvCommand::BlankScreen => "turn_screen_off",
            TvCommand::UnblankScreen => "turn_screen_on",
            TvCommand::PowerOff => "power_off",
            TvCommand::QueryBrightness => "get_picture_settings",
            TvCommand::SetBrightness(_) => "set_settings",
            TvCommand::Wake(_) => panic!("a wake packet is no television command"),
        };
        if let Some(failure) = self.call(name) {
            return failure;
        }
        let mut state = self.state.borrow_mut();
        match command {
            TvCommand::QueryInput => Outcome::Input(match HdmiInput::parse(&state.input) {
                Some(input) => CurrentInput::Hdmi(input),
                None => CurrentInput::Other(state.input.clone()),
            }),
            TvCommand::SetInput(input) => {
                state.input = input.as_str().to_string();
                Outcome::Done
            }
            TvCommand::BlankScreen => {
                state.screen_on = false;
                Outcome::Done
            }
            TvCommand::UnblankScreen => {
                if state.screen_on {
                    Outcome::TvFailed(TvError {
                        message: "the screen is active".to_string(),
                        active_screen: true,
                    })
                } else {
                    state.screen_on = true;
                    Outcome::Done
                }
            }
            TvCommand::QueryBrightness => Outcome::Brightness(state.backlight),
            TvCommand::SetBrightness(value) => {
                state.backlight = value;
                Outcome::Done
            }
            TvCommand::PowerOff | TvCommand::Wake(_) => Outcome::Done,
        }
    }
}

#[derive(Default)]
struct RecordingWakeOnLanSender {
    calls: RefCell<Vec<MacAddress>>,
}

impl RecordingWakeOnLanSender {
    fn calls(&self) -> Vec<MacAddress> {
        self.calls.borrow().clone()
    }
}

#[derive(Default)]
struct RecordingSleeper {
    durations: RefCell<Vec<u64>>,
}

impl RecordingSleeper {
    fn durations(&self) -> Vec<u64> {
        self.durations.borrow().clone()
    }
}

fn io_error(message: &str) -> IoError {
    IoError {
        kind: IoErrorKind::Other,
        message: message.to_string(),
    }
}

struct FakeNetworkWaiter {
    failure: Option<String>,
    calls: RefCell<u32>,
}

impl FakeNetworkWaiter {
    fn clear() -> Self {
        FakeNetworkWaiter {
            failure: None,
            calls: RefCell::new(0),
        }
    }

    fn failing(message: &str) -> Self {
        FakeNetworkWaiter {
            failure: Some(message.to_string()),
            calls: RefCell::new(0),
        }
    }

    fn calls(&self) -> u32 {
        *self.calls.borrow()
    }
}

struct FakeReachabilityChecker {
    reachable: Result<bool, String>,
}

impl FakeReachabilityChecker {
    fn reachable() -> Self {
        FakeReachabilityChecker {
            reachable: Ok(true),
        }
    }

    fn unreachable() -> Self {
        FakeReachabilityChecker {
            reachable: Ok(false),
        }
    }
}

struct FakeBrightnessUi {
    selection: Result<Option<u8>, String>,
    initial_values: RefCell<Vec<u8>>,
    error_messages: RefCell<Vec<(String, String)>>,
}

impl FakeBrightnessUi {
    fn selected(value: u8) -> Self {
        FakeBrightnessUi {
            selection: Ok(Some(value)),
            initial_values: RefCell::new(Vec::new()),
            error_messages: RefCell::new(Vec::new()),
        }
    }

    fn cancelled() -> Self {
        FakeBrightnessUi {
            selection: Ok(None),
            initial_values: RefCell::new(Vec::new()),
            error_messages: RefCell::new(Vec::new()),
        }
    }

    fn initial_values(&self) -> Vec<u8> {
        self.initial_values.borrow().clone()
    }

    fn error_messages(&self) -> Vec<(String, String)> {
        self.error_messages.borrow().clone()
    }
}

#[derive(Default)]
struct RecordingNotifier {
    messages: RefCell<Vec<(String, String)>>,
}

impl RecordingNotifier {
    fn messages(&self) -> Vec<(String, String)> {
        self.messages.borrow().clone()
    }
}

struct FakeRebootDetector {
    pending: Result<bool, String>,
}

impl FakeRebootDetector {
    fn clear() -> Self {
        FakeRebootDetector { pending: Ok(false) }
    }

    fn pending() -> Self {
        FakeRebootDetector { pending: Ok(true) }
    }
}

struct FakeSleepRequestDetector {
    requested: Result<bool, String>,
}

impl FakeSleepRequestDetector {
    fn clear() -> Self {
        FakeSleepRequestDetector {
            requested: Ok(false),
        }
    }

    fn pending() -> Self {
        FakeSleepRequestDetector {
            requested: Ok(true),
        }
    }
}

struct StartupDeps<'a> {
    tv_client: &'a MockTv,
    wol_sender: &'a RecordingWakeOnLanSender,
    sleeper: &'a RecordingSleeper,
    network_waiter: &'a FakeNetworkWaiter,
}

struct BrightnessDeps<'a> {
    tv_client: &'a MockTv,
    reachability: &'a FakeReachabilityChecker,
    ui: &'a FakeBrightnessUi,
    notifier: &'a RecordingNotifier,
}

/// What a command can reach. Asking for what it should not reach fails the test.
struct World<'a> {
    output: &'a mut String,
    tv: &'a MockTv,
    marker: Option<&'a Marker>,
    wol: Option<&'a RecordingWakeOnLanSender>,
    sleeper: Option<&'a RecordingSleeper>,
    network: Option<&'a FakeNetworkWaiter>,
    brightness: Option<&'a BrightnessDeps<'a>>,
    reboot: Option<&'a FakeRebootDetector>,
    sleep_request: Option<&'a FakeSleepRequestDetector>,
}

fn flag(answer: &Result<bool, String>) -> Outcome {
    match answer {
        Ok(value) => Outcome::Flag(*value),
        Err(message) => Outcome::IoFailed(io_error(message)),
    }
}

impl<'a> World<'a> {
    fn new(output: &'a mut String, tv: &'a MockTv) -> Self {
        World {
            output,
            tv,
            marker: None,
            wol: None,
            sleeper: None,
            network: None,
            brightness: None,
            reboot: None,
            sleep_request: None,
        }
    }

    fn perform(&mut self, action: &Action) -> Outcome {
        match action {
            Action::MarkerExists => Outcome::Flag(self.marker.unwrap().is_set()),
            Action::MarkerCreate => {
                self.marker.unwrap().create();
                Outcome::Done
            }
            Action::MarkerClear => {
                self.marker.unwrap().set.set(false);
                Outcome::Done
            }
            Action::Log(line) => {
                self.output.push_str(line);
                self.output.push('\n');
                Outcome::Done
            }
            Action::WaitForNetwork => {
                let network = self.network.unwrap();
                *network.calls.borrow_mut() += 1;
                match &network.failure {
                    Some(message) => Outcome::IoFailed(io_error(message)),
                    None => Outcome::Done,
                }
            }
            Action::Sleep(seconds) => {
                self.sleeper.unwrap().durations.borrow_mut().push(*seconds);
                Outcome::Done
            }
            Action::Tv(_, TvCommand::Wake(mac)) => {
                self.wol.unwrap().calls.borrow_mut().push(*mac);
                Outcome::Done
            }
            Action::Tv(ip, command) => {
                assert_eq!(ip.to_string(), "192.0.2.42");
                self.tv.perform(*command)
            }
            Action::CheckReboot => flag(&self.reboot.unwrap().pending),
            Action::CheckSleepRequest => flag(&self.sleep_request.unwrap().requested),
            Action::CheckReachable(_) => flag(&self.brightness.unwrap().reachability.reachable),
            Action::PromptBrightness(initial) => {
                let ui = self.brightness.unwrap().ui;
                ui.initial_values.borrow_mut().push(*initial);
                match &ui.selection {
                    Ok(choice) => Outcome::Choice(*choice),
                    Err(message) => Outcome::IoFailed(io_error(message)),
                }
            }
            Action::ShowError { title, message } => {
                let ui = self.brightness.unwrap().ui;
                ui.error_messages
                    .borrow_mut()
                    .push((title.clone(), message.clone()));
                Outcome::Done
            }
            Action::Notify { title, message } => {
                let notifier = self.brightness.unwrap().notifier;
                notifier
                    .messages
                    .borrow_mut()
                    .push((title.clone(), message.clone()));
                Outcome::Done
            }
            Action::ReadEnvironment
            | Action::ReadConfig(_)
            | Action::OpenMarker(_)
            | Action::BuildClient(_)
            | Action::Finish(_) => panic!("unexpected action {:?}", action),
        }
    }

    fn drive(mut self, run: Run) -> Result<(), RunError> {
        let mut run = run;
        while !matches!(run.pending(), Action::Finish(_)) {
            let outcome = self.perform(run.pending());
            assert!(run.accepts(&outcome));
            run = run.step(outcome);
        }
        run.into_result().unwrap()
    }
}

fn screen_off(
    output: &mut String,
    config: &Config,
    marker: &Marker,
    tv: &MockTv,
) -> Result<(), RunError> {
    let mut world = World::new(output, tv);
    world.marker = Some(marker);
    world.drive(run_screen_off_with(config))
}

fn screen_on(
    output: &mut String,
    config: &Config,
    marker: &Marker,
    tv: &MockTv,
    wol: &RecordingWakeOnLanSender,
    sleeper: &RecordingSleeper,
) -> Result<(), RunError> {
    let mut world = World::new(output, tv);
    world.marker = Some(marker);
    world.wol = Some(wol);
    world.sleeper = Some(sleeper);
    world.drive(run_screen_on_with(config, Delays::usual()))
}

fn startup(
    output: &mut String,
    config: &Config,
    marker: &Marker,
    deps: StartupDeps<'_>,
    mode: StartupMode,
) -> Result<(), RunError> {
    let mut world = World::new(output, deps.tv_client);
    world.marker = Some(marker);
    world.wol = Some(deps.wol_sender);
    world.sleeper = Some(deps.sleeper);
    world.network = Some(deps.network_waiter);
    world.drive(run_startup_with(config, mode, Delays::usual()))
}

fn brightness(
    output: &mut String,
    config: &Config,
    deps: BrightnessDeps<'_>,
) -> Result<(), RunError> {
    let mut world = World::new(output, deps.tv_client);
    world.brightness = Some(&deps);
    world.drive(run_brightness_with(config))
}

fn shutdown(
    output: &mut String,
    config: &Config,
    tv: &MockTv,
    detector: &FakeRebootDetector,
) -> Result<(), RunError> {
    let mut world = World::new(output, tv);
    world.reboot = Some(detector);
    world.drive(run_shutdown_with(config))
}

fn sleep_pre(
    output: &mut String,
    config: &Config,
    marker: &Marker,
    tv: &MockTv,
    sleeper: &RecordingSleeper,
) -> Result<(), RunError> {
    let mut world = World::new(output, tv);
    world.marker = Some(marker);
    world.sleeper = Some(sleeper);
    world.drive(run_sleep_pre_with(config, Delays::usual()))
}

fn sleep(
    output: &mut String,
    config: &Config,
    marker: &Marker,
    tv: &MockTv,
    detector: &FakeSleepRequestDetector,
    sleeper: &RecordingSleeper,
) -> Result<(), RunError> {
    let mut world = World::new(output, tv);
    world.marker = Some(marker);
    world.sleep_request = Some(detector);
    world.sleeper = Some(sleeper);
    world.drive(run_sleep_with(config, Delays::usual()))
}
