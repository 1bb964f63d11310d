use lg_buddy::effects::{Action, Outcome};
use lg_buddy::failure::{IoError, IoErrorKind};
use lg_buddy::net::Ipv4Addr;
use lg_buddy::process::{
    answer_of, invocation_of, is_reboot_pending, is_sleep_requested, parse_brightness, prompt_brightness,
    reboot_is_listed, sleep_is_told, Program, ProgramOutput,
};

fn wrote(bytes: &[u8]) -> ProgramOutput {
    ProgramOutput {
        success: true,
        stdout: bytes.to_vec(),
    }
}

fn failed(bytes: &[u8]) -> ProgramOutput {
    ProgramOutput {
        success: false,
        stdout: bytes.to_vec(),
    }
}

const JOBS: &[u8] = b"JOB UNIT TYPE STATE\n12 reboot.target start waiting\n";

#[test]
fn a_reboot_is_pending_where_its_start_is_listed() {
    assert!(is_reboot_pending(&wrote(JOBS)));
    assert!(!is_reboot_pending(&failed(JOBS)));
    assert!(!is_reboot_pending(&wrote(b"")));
    assert!(!is_reboot_pending(&wrote(b"12 poweroff.target start waiting\n")));
    assert!(!is_reboot_pending(&wrote(
        b"12 reboot.target stop waiting\n13 x.service start running\n"
    )));
    assert!(reboot_is_listed("a\r\nstart reboot.target\r\n"));
    assert!(!reboot_is_listed("reboot.target\nstart"));
}

#[test]
fn what_is_no_text_is_read_as_far_as_it_is_text() {
    assert!(is_reboot_pending(&wrote(b"\xff\xfe reboot.target \xc3 start\n")));
    assert!(!is_reboot_pending(&wrote(b"reboot.\xfftarget start\n")));
    assert_eq!(
        prompt_brightness(&wrote(b"4\xff2\n")),
        Err(IoError {
            kind: IoErrorKind::InvalidData,
            message: "invalid zenity brightness value `4\u{fffd}2`: invalid digit found in string"
                .to_string(),
        })
    );
}

#[test]
fn a_sleep_is_requested_where_the_journal_says_so() {
    let line = b"NetworkManager[1]: <info> manager: sleep: sleep requested (sleeping: no)\n";
    assert!(is_sleep_requested(&wrote(line)));
    assert!(!is_sleep_requested(&failed(line)));
    assert!(!is_sleep_requested(&wrote(b"manager: sleep: wake requested\n")));
    assert!(sleep_is_told("manager: sleep: sleep requested"));
    assert!(!sleep_is_told("manager: sleep:\nsleep requested"));
}

#[test]
fn the_chosen_brightness_is_a_percentage() {
    assert_eq!(prompt_brightness(&wrote(b"65\n")), Ok(Some(65)));
    assert_eq!(prompt_brightness(&wrote(b" 0 ")), Ok(Some(0)));
    assert_eq!(prompt_brightness(&wrote(b"100\r\n")), Ok(Some(100)));
    assert_eq!(prompt_brightness(&failed(b"65\n")), Ok(None));
    for value in 0..=100_u8 {
        assert_eq!(parse_brightness(&value.to_string()), Ok(value));
    }
    for (text, message) in [
        ("101", "zenity brightness value out of range: 101"),
        ("255\n", "zenity brightness value out of range: 255"),
        (
            "256\n",
            "invalid zenity brightness value `256`: number too large to fit in target type",
        ),
        (
            "\n",
            "invalid zenity brightness value ``: cannot parse integer from empty string",
        ),
        (
            "-5",
            "invalid zenity brightness value `-5`: invalid digit found in string",
        ),
    ] {
        assert_eq!(
            parse_brightness(text),
            Err(IoError {
                kind: IoErrorKind::InvalidData,
                message: message.to_string(),
            })
        );
    }
}

fn call(action: Action) -> Option<(Program, String)> {
    invocation_of(&action).map(|(program, arguments)| (program, arguments.join("|")))
}

#[test]
fn programs_are_called_with_their_arguments() {
    assert_eq!(
        call(Action::CheckReboot),
        Some((Program::Systemctl, "list-jobs".to_string()))
    );
    assert_eq!(
        call(Action::CheckSleepRequest),
        Some((
            Program::Journalctl,
            "-u|NetworkManager|-n|30|--no-pager".to_string()
        ))
    );
    assert_eq!(
        call(Action::WaitForNetwork),
        Some((Program::NmOnline, "-q|-t|60".to_string()))
    );
    assert_eq!(
        call(Action::CheckReachable(Ipv4Addr::new(192, 0, 2, 42))),
        Some((Program::Ping, "-c|1|-W|2|192.0.2.42".to_string()))
    );
    assert_eq!(
        call(Action::PromptBrightness(72)),
        Some((
            Program::Zenity,
            "--scale|--title=LG TV Brightness|--text=Set OLED Pixel Brightness:|--min-value=0|--max-value=100|--value=72|--step=5"
                .to_string()
        ))
    );
    assert_eq!(
        call(Action::ShowError {
            title: "LG Buddy".to_string(),
            message: "gone".to_string(),
        }),
        Some((
            Program::Zenity,
            "--error|--title=LG Buddy|--text=gone".to_string()
        ))
    );
    assert_eq!(
        call(Action::Notify {
            title: "LG TV".to_string(),
            message: "Brightness set to 65%".to_string(),
        }),
        Some((
            Program::NotifySend,
            "LG TV|Brightness set to 65%".to_string()
        ))
    );
    assert_eq!(call(Action::MarkerExists), None);
    assert_eq!(call(Action::Sleep(3)), None);
}

#[test]
fn variables_say_where_the_programs_are() {
    for (program, variable, name) in [
        (Program::Systemctl, "LG_BUDDY_SYSTEMCTL", "systemctl"),
        (Program::Journalctl, "LG_BUDDY_JOURNALCTL", "journalctl"),
        (Program::NmOnline, "LG_BUDDY_NM_ONLINE", "nm-online"),
        (Program::Ping, "LG_BUDDY_PING", "ping"),
        (Program::Zenity, "LG_BUDDY_ZENITY", "zenity"),
        (Program::NotifySend, "LG_BUDDY_NOTIFY_SEND", "notify-send"),
    ] {
        assert_eq!(program.variable(), variable);
        assert_eq!(program.from_env(None), name.as_bytes());
        assert_eq!(program.from_env(Some(b"/opt/x".to_vec())), b"/opt/x");
    }
}

#[test]
fn programs_answer_the_actions_that_need_them() {
    let reachable = Action::CheckReachable(Ipv4Addr::new(192, 0, 2, 42));
    assert_eq!(
        answer_of(&Action::CheckReboot, &wrote(JOBS)),
        Some(Outcome::Flag(true))
    );
    assert_eq!(
        answer_of(&Action::CheckSleepRequest, &wrote(JOBS)),
        Some(Outcome::Flag(false))
    );
    assert_eq!(answer_of(&reachable, &wrote(b"")), Some(Outcome::Flag(true)));
    assert_eq!(
        answer_of(&reachable, &failed(b"")),
        Some(Outcome::Flag(false))
    );
    assert_eq!(
        answer_of(&Action::WaitForNetwork, &failed(b"")),
        Some(Outcome::Done)
    );
    assert_eq!(
        answer_of(&Action::PromptBrightness(50), &wrote(b"65")),
        Some(Outcome::Choice(Some(65)))
    );
    assert_eq!(
        answer_of(&Action::PromptBrightness(50), &failed(b"")),
        Some(Outcome::Choice(None))
    );
    assert!(matches!(
        answer_of(&Action::PromptBrightness(50), &wrote(b"x")),
        Some(Outcome::IoFailed(_))
    ));
    assert_eq!(answer_of(&Action::MarkerExists, &wrote(b"")), None);
}
