//! The programs that are asked about the system and the user, and what their answers mean.

use crate::effects::{Action, ActionView, Outcome, OutcomeView};
use crate::failure::{IoError, IoErrorKind, IoErrorView};
use crate::number::{decimal, decimal_round_trip, decimal_string, lemma_decimal_digits, numbers_are_read, parse_number, read_number, zeros};
use crate::text::{contains_text, has_part, is_space, lemma_lines_of_parts, lines, lines_end_at_line_feeds, occurs_at, part_occurs_where_it_stands, split_lines, text2, trim, trim_leaves_the_core, trimmed, views};
use crate::net::Ipv4Addr;
use vstd::prelude::*;
use vstd::string::StrSliceExecFns;
use vstd::utf8::{decode_utf8, encode_utf8, valid_utf8};

verus! {

/// The programs.
#[derive(Debug, Clone, Copy, PartialEq, Eq, Structural)]
pub enum Program {
    /// Lists the jobs of the system manager.
    Systemctl,
    /// Shows the journal.
    Journalctl,
    /// Waits for the network.
    NmOnline,
    /// Asks a machine for an answer.
    Ping,
    /// Shows windows.
    Zenity,
    /// Shows notices.
    NotifySend,
}

/// What a program left behind.
#[derive(Debug, PartialEq, Eq)]
pub struct ProgramOutput {
    /// Whether it says that it succeeded.
    pub success: bool,
    /// What it wrote.
    pub stdout: Vec<u8>,
}

impl Program {
    /// The name of the variable that overrides where the program is.
    pub open spec fn variable_text(self) -> Seq<char> {
        match self {
            Program::Systemctl => "LG_BUDDY_SYSTEMCTL"@,
            Program::Journalctl => "LG_BUDDY_JOURNALCTL"@,
            Program::NmOnline => "LG_BUDDY_NM_ONLINE"@,
            Program::Ping => "LG_BUDDY_PING"@,
            Program::Zenity => "LG_BUDDY_ZENITY"@,
            Program::NotifySend => "LG_BUDDY_NOTIFY_SEND"@,
        }
    }

    /// The usual name of the program.
    pub open spec fn text(self) -> Seq<char> {
        match self {
            Program::Systemctl => "systemctl"@,
            Program::Journalctl => "journalctl"@,
            Program::NmOnline => "nm-online"@,
            Program::Ping => "ping"@,
            Program::Zenity => "zenity"@,
            Program::NotifySend => "notify-send"@,
        }
    }

    /// The name of the variable that overrides where the program is.
    pub fn variable(&self) -> (name: &'static str)
        ensures
            name@ == self.variable_text(),
    {
        match self {
            Program::Systemctl => "LG_BUDDY_SYSTEMCTL",
            Program::Journalctl => "LG_BUDDY_JOURNALCTL",
            Program::NmOnline => "LG_BUDDY_NM_ONLINE",
            Program::Ping => "LG_BUDDY_PING",
            Program::Zenity => "LG_BUDDY_ZENITY",
            Program::NotifySend => "LG_BUDDY_NOTIFY_SEND",
        }
    }

    /// The usual name of the program.
    pub fn as_str(&self) -> (name: &'static str)
        ensures
            name@ == self.text(),
    {
        match self {
            Program::Systemctl => "systemctl",
            Program::Journalctl => "journalctl",
            Program::NmOnline => "nm-online",
            Program::Ping => "ping",
            Program::Zenity => "zenity",
            Program::NotifySend => "notify-send",
        }
    }

    /// Where the program is: where its variable says, else where its usual name leads.
    pub fn from_env(&self, variable: Option<Vec<u8>>) -> (path: Vec<u8>)
        ensures
            path@ == (match variable {
                Some(path) => path@,
                None => encode_utf8(self.text()),
            }),
    {
        match variable {
            Some(path) => path,
            None => self.as_str().as_bytes_vec(),
        }
    }
}

/// The program that an action needs, and the arguments that it is called with.
pub open spec fn invocation(action: ActionView) -> Option<(Program, Seq<Seq<char>>)> {
    match action {
        ActionView::CheckReboot => Some((Program::Systemctl, seq!["list-jobs"@])),
        ActionView::CheckSleepRequest => Some(
            (
                Program::Journalctl,
                seq!["-u"@, "NetworkManager"@, "-n"@, "30"@, "--no-pager"@],
            ),
        ),
        ActionView::WaitForNetwork => Some((Program::NmOnline, seq!["-q"@, "-t"@, "60"@])),
        ActionView::CheckReachable(ip) => Some(
            (Program::Ping, seq!["-c"@, "1"@, "-W"@, "2"@, ip.text()]),
        ),
        ActionView::PromptBrightness(initial) => Some(
            (
                Program::Zenity,
                seq![
                    "--scale"@,
                    "--title=LG TV Brightness"@,
                    "--text=Set OLED Pixel Brightness:"@,
                    "--min-value=0"@,
                    "--max-value=100"@,
                    "--value="@ + decimal(initial as nat),
                    "--step=5"@,
                ],
            ),
        ),
        ActionView::ShowError { title, message } => Some(
            (Program::Zenity, seq!["--error"@, "--title="@ + title, "--text="@ + message]),
        ),
        ActionView::Notify { title, message } => Some((Program::NotifySend, seq![title, message])),
        _ => None,
    }
}

/// The texts of a list of strings.
pub open spec fn texts(parts: Seq<String>) -> Seq<Seq<char>> {
    Seq::new(parts.len(), |i: int| parts[i]@)
}

/// The program that an action needs, and the arguments that it is called with.
pub fn invocation_of(action: &Action) -> (call: Option<(Program, Vec<String>)>)
    ensures
        match call {
            Some((program, arguments)) => invocation(action@) == Some(
                (program, texts(arguments@)),
            ),
            None => invocation(action@) is None,
        },
{
    let call: Option<(Program, Vec<String>)> = match action {
        Action::CheckReboot => Some((Program::Systemctl, vec!["list-jobs".to_owned()])),
        Action::CheckSleepRequest => Some(
            (
                Program::Journalctl,
                vec![
                    "-u".to_owned(),
                    "NetworkManager".to_owned(),
                    "-n".to_owned(),
                    "30".to_owned(),
                    "--no-pager".to_owned(),
                ],
            ),
        ),
        Action::WaitForNetwork => Some(
            (Program::NmOnline, vec!["-q".to_owned(), "-t".to_owned(), "60".to_owned()]),
        ),
        Action::CheckReachable(ip) => Some(
            (
                Program::Ping,
                vec![
                    "-c".to_owned(),
                    "1".to_owned(),
                    "-W".to_owned(),
                    "2".to_owned(),
                    ip.to_string(),
                ],
            ),
        ),
        Action::PromptBrightness(initial) => Some(
            (
                Program::Zenity,
                vec![
                    "--scale".to_owned(),
                    "--title=LG TV Brightness".to_owned(),
                    "--text=Set OLED Pixel Brightness:".to_owned(),
                    "--min-value=0".to_owned(),
                    "--max-value=100".to_owned(),
                    text2("--value=", decimal_string(*initial as u64).as_str()),
                    "--step=5".to_owned(),
                ],
            ),
        ),
        Action::ShowError { title, message } => Some(
            (
                Program::Zenity,
                vec![
                    "--error".to_owned(),
                    text2("--title=", title.as_str()),
                    text2("--text=", message.as_str()),
                ],
            ),
        ),
        Action::Notify { title, message } => Some(
            (Program::NotifySend, vec![title.clone(), message.clone()]),
        ),
        _ => None,
    };
    proof {
        if call is Some {
            assert(texts(call->Some_0.1@) =~= invocation(action@)->Some_0.1);
        }
    }
    call
}

/// What `String::from_utf8_lossy` makes of bytes.
pub uninterp spec fn lossy_text(bytes: Seq<u8>) -> Seq<char>;

/// Calls `String::from_utf8_lossy`. The text is a function of the bytes. Where the bytes are
/// well-formed UTF-8 it is what they encode; where they are not, this says no more of it.
#[verifier::external_body]
fn decode_lossy(bytes: &[u8]) -> (text: String)
    ensures
        text@ == lossy_text(bytes@),
        valid_utf8(bytes@) ==> text@ == decode_utf8(bytes@),
{
    String::from_utf8_lossy(bytes).into_owned()
}

/// Whether a list of jobs has a line about the start of a reboot.
pub open spec fn lists_reboot(text: Seq<char>) -> bool {
    exists|i: int|
        0 <= i < lines(text).len() && has_part(#[trigger] lines(text)[i], "reboot.target"@)
            && has_part(lines(text)[i], "start"@)
}

/// Whether a list of jobs has a line about the start of a reboot.
pub fn reboot_is_listed(text: &str) -> (listed: bool)
    ensures
        listed == lists_reboot(text@),
{
    let all = split_lines(text);
    let ghost whole = lines(text@);
    for i in 0..all.len()
        invariant
            views(all@) == whole,
            whole == lines(text@),
            forall|j: int|
                0 <= j < i ==> !(has_part(#[trigger] whole[j], "reboot.target"@) && has_part(
                    whole[j],
                    "start"@,
                )),
    {
        assert(whole[i as int] == all[i as int]@);
        if contains_text(all[i], "reboot.target") && contains_text(all[i], "start") {
            return true;
        }
    }
    false
}

/// Whether the list of jobs says that the computer is about to reboot. A list that could not
/// be made says no.
pub fn is_reboot_pending(output: &ProgramOutput) -> (pending: bool)
    ensures
        pending == (output.success && lists_reboot(lossy_text(output.stdout@))),
        output.success && valid_utf8(output.stdout@) ==> pending == lists_reboot(
            decode_utf8(output.stdout@),
        ),
{
    if !output.success {
        return false;
    }
    reboot_is_listed(decode_lossy(output.stdout.as_slice()).as_str())
}

/// Whether a journal tells of a request to sleep.
pub open spec fn tells_of_sleep(text: Seq<char>) -> bool {
    has_part(text, "manager: sleep: sleep requested"@)
}

/// Whether a journal tells of a request to sleep.
pub fn sleep_is_told(text: &str) -> (told: bool)
    ensures
        told == tells_of_sleep(text@),
{
    contains_text(text, "manager: sleep: sleep requested")
}

/// Whether the journal says that the computer is about to sleep. A journal that could not be
/// shown says no.
pub fn is_sleep_requested(output: &ProgramOutput) -> (requested: bool)
    ensures
        requested == (output.success && tells_of_sleep(lossy_text(output.stdout@))),
        output.success && valid_utf8(output.stdout@) ==> requested == tells_of_sleep(
            decode_utf8(output.stdout@),
        ),
{
    if !output.success {
        return false;
    }
    sleep_is_told(decode_lossy(output.stdout.as_slice()).as_str())
}

/// The brightness that a text stands for: a number up to a hundred, with whitespace around
/// it.
pub open spec fn read_brightness(text: Seq<char>) -> Result<u8, IoErrorView> {
    match read_number(trim(text), u8::MAX as nat) {
        Err(error) => Err(
            IoErrorView {
                kind: IoErrorKind::InvalidData,
                message: "invalid zenity brightness value `"@ + trim(text) + "`: "@
                    + error.text(),
            },
        ),
        Ok(value) => if value > 100 {
            Err(
                IoErrorView {
                    kind: IoErrorKind::InvalidData,
                    message: "zenity brightness value out of range: "@ + decimal(value),
                },
            )
        } else {
            Ok(value as u8)
        },
    }
}

/// What was read, or what the failure says.
pub open spec fn brightness_result(result: Result<u8, IoError>) -> Result<u8, IoErrorView> {
    match result {
        Ok(value) => Ok(value),
        Err(error) => Err(error@),
    }
}

/// The brightness that a text stands for.
pub fn parse_brightness(text: &str) -> (brightness: Result<u8, IoError>)
    ensures
        brightness_result(brightness) == read_brightness(text@),
{
    let shown = trimmed(text);
    match parse_number(shown, u8::MAX as u64) {
        Err(error) => Err(
            IoError {
                kind: IoErrorKind::InvalidData,
                message: text2("invalid zenity brightness value `", shown).concat("`: ").concat(
                    error.as_str(),
                ),
            },
        ),
        Ok(value) => if value > 100 {
            Err(
                IoError {
                    kind: IoErrorKind::InvalidData,
                    message: text2(
                        "zenity brightness value out of range: ",
                        decimal_string(value).as_str(),
                    ),
                },
            )
        } else {
            Ok(value as u8)
        },
    }
}

/// The brightness that the user chose, if any. A window that was closed chose none.
pub fn prompt_brightness(output: &ProgramOutput) -> (choice: Result<Option<u8>, IoError>)
    ensures
        match choice {
            Ok(None) => !output.success,
            Ok(Some(value)) => output.success && read_brightness(lossy_text(output.stdout@)) == Ok::<
                u8,
                IoErrorView,
            >(value),
            Err(error) => output.success && read_brightness(lossy_text(output.stdout@)) == Err::<
                u8,
                IoErrorView,
            >(error@),
        },
        output.success && valid_utf8(output.stdout@) ==> match choice {
            Ok(None) => false,
            Ok(Some(value)) => read_brightness(decode_utf8(output.stdout@)) == Ok::<
                u8,
                IoErrorView,
            >(value),
            Err(error) => read_brightness(decode_utf8(output.stdout@)) == Err::<u8, IoErrorView>(
                error@,
            ),
        },
{
    if !output.success {
        return Ok(None);
    }
    match parse_brightness(decode_lossy(output.stdout.as_slice()).as_str()) {
        Ok(value) => Ok(Some(value)),
        Err(error) => Err(error),
    }
}

/// What comes of an action whose program succeeded or failed and wrote the given text.
pub open spec fn answer(action: ActionView, success: bool, text: Seq<char>) -> Option<OutcomeView> {
    match action {
        ActionView::CheckReboot => Some(OutcomeView::Flag(success && lists_reboot(text))),
        ActionView::CheckSleepRequest => Some(OutcomeView::Flag(success && tells_of_sleep(text))),
        ActionView::CheckReachable(_) => Some(OutcomeView::Flag(success)),
        ActionView::PromptBrightness(_) => Some(
            if !success {
                OutcomeView::Choice(None)
            } else {
                match read_brightness(text) {
                    Ok(value) => OutcomeView::Choice(Some(value)),
                    Err(error) => OutcomeView::IoFailed(error),
                }
            },
        ),
        ActionView::WaitForNetwork
        | ActionView::ShowError { .. }
        | ActionView::Notify { .. } => Some(OutcomeView::Done),
        _ => None,
    }
}

/// An outcome, or the lack of one, by what it says.
pub open spec fn outcome_view(outcome: Option<Outcome>) -> Option<OutcomeView> {
    match outcome {
        Some(found) => Some(found@),
        None => None,
    }
}

/// What comes of an action whose program left this behind.
pub fn answer_of(action: &Action, output: &ProgramOutput) -> (outcome: Option<Outcome>)
    ensures
        outcome_view(outcome) == answer(
            action@,
            output.success,
            lossy_text(output.stdout@),
        ),
        valid_utf8(output.stdout@) ==> outcome_view(outcome) == answer(
            action@,
            output.success,
            decode_utf8(output.stdout@),
        ),
{
    match action {
        Action::CheckReboot => Some(Outcome::Flag(is_reboot_pending(output))),
        Action::CheckSleepRequest => Some(Outcome::Flag(is_sleep_requested(output))),
        Action::CheckReachable(_) => Some(Outcome::Flag(output.success)),
        Action::PromptBrightness(_) => Some(
            match prompt_brightness(output) {
                Ok(choice) => Outcome::Choice(choice),
                Err(error) => Outcome::IoFailed(error),
            },
        ),
        Action::WaitForNetwork | Action::ShowError { .. } | Action::Notify { .. } => Some(
            Outcome::Done,
        ),
        _ => None,
    }
}

/// A program that an action needs answers it, whatever the program does.
pub proof fn programs_answer(action: ActionView, success: bool, text: Seq<char>)
    ensures
        answer(action, success, text) is Some <==> invocation(action) is Some,
        answer(action, success, text) matches Some(outcome) ==> action.answered_by(outcome),
{
}

/// Every brightness that is read is a percentage, and every percentage that is written is
/// read.
pub proof fn brightness_round_trip(value: u8)
    requires
        value <= 100,
    ensures
        read_brightness(decimal(value as nat)) == Ok::<u8, IoErrorView>(value),
        forall|text: Seq<char>|
            #[trigger] read_brightness(text) matches Ok(found) ==> found <= 100,
{
    lemma_decimal_digits(value as nat, u8::MAX as nat);
    decimal_round_trip(value as nat, u8::MAX as nat);
    let text = decimal(value as nat);
    assert(trim(text) == text);
}

/// A reboot is found wherever its line stands in the list, and where no line tells of the
/// start of a reboot none is found.
pub proof fn reboot_is_found_in_any_line(head: Seq<char>, line: Seq<char>, tail: Seq<char>)
    requires
        head.len() == 0 || head.last() == '\n',
        !line.contains('\n'),
        has_part(line, "reboot.target"@),
        has_part(line, "start"@),
    ensures
        lists_reboot(head + line + seq!['\n'] + tail),
        lists_reboot(head + line),
{
    lemma_line_without_return(line);
    reveal_strlit("reboot.target");
    assert(line.len() > 0);
    let rest = line + seq!['\n'] + tail;
    lines_end_at_line_feeds(line, tail);
    lemma_lines_of_parts(head, rest);
    assert(head + line + seq!['\n'] + tail =~= head + rest);
    let kept = lines(rest)[0];
    assert(lines(head + rest)[lines(head).len() as int] == kept);
    lemma_lines_of_parts(head, line);
    assert(lines(head + line)[lines(head).len() as int] == lines(line)[0]);
}

/// Where no line has both parts, no reboot is found.
pub proof fn no_line_no_reboot(text: Seq<char>)
    requires
        forall|i: int|
            0 <= i < lines(text).len() ==> !(has_part(
                #[trigger] lines(text)[i],
                "reboot.target"@,
            ) && has_part(lines(text)[i], "start"@)),
    ensures
        !lists_reboot(text),
{
}

/// The parts of a line are found without the carriage return at its end too.
proof fn lemma_line_without_return(line: Seq<char>)
    ensures
        line.len() > 0 && line.last() == '\r' && has_part(line, "reboot.target"@) ==> has_part(
            line.drop_last(),
            "reboot.target"@,
        ),
        line.len() > 0 && line.last() == '\r' && has_part(line, "start"@) ==> has_part(
            line.drop_last(),
            "start"@,
        ),
{
    reveal_strlit("reboot.target");
    reveal_strlit("start");
    if line.len() > 0 && line.last() == '\r' {
        let short = line.drop_last();
        if has_part(line, "reboot.target"@) {
            let part = "reboot.target"@;
            let at = choose|at: int| occurs_at(line, part, at);
            if at + part.len() == line.len() {
                assert(line.subrange(at, at + part.len())[part.len() - 1] == line.last());
                assert(part[part.len() - 1] == 't');
            }
            assert(short.subrange(at, at + part.len()) =~= line.subrange(at, at + part.len()));
            assert(occurs_at(short, part, at));
        }
        if has_part(line, "start"@) {
            let part = "start"@;
            let at = choose|at: int| occurs_at(line, part, at);
            if at + part.len() == line.len() {
                assert(line.subrange(at, at + part.len())[part.len() - 1] == line.last());
                assert(part[part.len() - 1] == 't');
            }
            assert(short.subrange(at, at + part.len()) =~= line.subrange(at, at + part.len()));
            assert(occurs_at(short, part, at));
        }
    }
}

/// A journal tells of a request to sleep wherever the words stand in it, and nowhere else.
pub proof fn sleep_is_told_anywhere(head: Seq<char>, tail: Seq<char>)
    ensures
        tells_of_sleep(head + "manager: sleep: sleep requested"@ + tail),
        forall|text: Seq<char>| #[trigger]
            tells_of_sleep(text) ==> exists|f: Seq<char>, b: Seq<char>|
                text == #[trigger] (f + "manager: sleep: sleep requested"@ + b),
{
    part_occurs_where_it_stands(head, "manager: sleep: sleep requested"@, tail);
    assert forall|text: Seq<char>| #[trigger] tells_of_sleep(text) implies exists|
        f: Seq<char>,
        b: Seq<char>,
    | text == #[trigger] (f + "manager: sleep: sleep requested"@ + b) by {
        assert(has_part(text, "manager: sleep: sleep requested"@));
    }
}

/// A choice is read with whitespace around it: a percentage is taken, a greater number is out
/// of range, and what is no number is refused with what was written.
pub proof fn choices_are_read(front: Seq<char>, value: nat, back: Seq<char>, text: Seq<char>)
    requires
        forall|i: int| 0 <= i < front.len() ==> is_space(#[trigger] front[i]),
        forall|i: int| 0 <= i < back.len() ==> is_space(#[trigger] back[i]),
    ensures
        value <= 100 ==> read_brightness(front + decimal(value) + back) == Ok::<u8, IoErrorView>(
            value as u8,
        ),
        100 < value <= 255 ==> read_brightness(front + decimal(value) + back) == Err::<
            u8,
            IoErrorView,
        >(
            IoErrorView {
                kind: IoErrorKind::InvalidData,
                message: "zenity brightness value out of range: "@ + decimal(value),
            },
        ),
        value > 255 ==> read_brightness(front + decimal(value) + back) == Err::<u8, IoErrorView>(
            IoErrorView {
                kind: IoErrorKind::InvalidData,
                message: "invalid zenity brightness value `"@ + decimal(value) + "`: "@
                    + "number too large to fit in target type"@,
            },
        ),
        read_number(trim(text), 255) matches Err(error) ==> read_brightness(text) == Err::<
            u8,
            IoErrorView,
        >(
            IoErrorView {
                kind: IoErrorKind::InvalidData,
                message: "invalid zenity brightness value `"@ + trim(text) + "`: "@ + error.text(),
            },
        ),
{
    let digits = decimal(value);
    numbers_are_read(false, 0, value, 255);
    assert(zeros(0) + digits =~= digits);
    lemma_decimal_digits(value, value);
    assert(!is_space(digits[0]) && !is_space(digits.last()));
    trim_leaves_the_core(front, digits, back);
}

/// Arguments that depend on what is asked carry it whole.
pub proof fn invocations_carry_what_is_asked(
    ip: Ipv4Addr,
    initial: u8,
    title: Seq<char>,
    message: Seq<char>,
)
    ensures
        invocation(ActionView::CheckReachable(ip)) == Some(
            (Program::Ping, seq!["-c"@, "1"@, "-W"@, "2"@, ip.text()]),
        ),
        ({
            &&& invocation(ActionView::PromptBrightness(initial)) matches Some((program, arguments))
            &&& program == Program::Zenity
            &&& arguments.len() == 7
            &&& arguments[0] == "--scale"@
            &&& arguments[1] == "--title=LG TV Brightness"@
            &&& arguments[2] == "--text=Set OLED Pixel Brightness:"@
            &&& arguments[3] == "--min-value=0"@
            &&& arguments[4] == "--max-value=100"@
            &&& arguments[5] == "--value="@ + decimal(initial as nat)
            &&& arguments[6] == "--step=5"@
        }),
        invocation(ActionView::ShowError { title, message }) == Some(
            (Program::Zenity, seq!["--error"@, "--title="@ + title, "--text="@ + message]),
        ),
        invocation(ActionView::Notify { title, message }) == Some(
            (Program::NotifySend, seq![title, message]),
        ),
{
}

/// A program that failed says no to every question and chooses nothing; one that succeeded
/// makes an address reachable, and otherwise says what it wrote. What was only to be shown or
/// waited for is done either way.
pub proof fn failed_programs_say_no(action: ActionView, text: Seq<char>, success: bool)
    ensures
        action is CheckReboot ==> answer(action, false, text) == Some(OutcomeView::Flag(false)),
        action is CheckReboot ==> answer(action, true, text) == Some(
            OutcomeView::Flag(lists_reboot(text)),
        ),
        action is CheckSleepRequest ==> answer(action, false, text) == Some(
            OutcomeView::Flag(false),
        ),
        action is CheckSleepRequest ==> answer(action, true, text) == Some(
            OutcomeView::Flag(tells_of_sleep(text)),
        ),
        action is CheckReachable ==> answer(action, success, text) == Some(
            OutcomeView::Flag(success),
        ),
        action is PromptBrightness ==> answer(action, false, text) == Some(
            OutcomeView::Choice(None),
        ),
        action is PromptBrightness ==> (match read_brightness(text) {
            Ok(value) => answer(action, true, text) == Some(OutcomeView::Choice(Some(value))),
            Err(error) => answer(action, true, text) == Some(OutcomeView::IoFailed(error)),
        }),
        action is WaitForNetwork || action is ShowError || action is Notify ==> answer(
            action,
            success,
            text,
        ) == Some(OutcomeView::Done),
{
}

/// What programs answer is told in full.
pub proof fn answers_are_told_in_full(outcome: Outcome, value: u8, error: IoError)
    ensures
        outcome_view(Some(outcome)) == Some(outcome@),
        outcome_view(None) is None,
        brightness_result(Ok(value)) == Ok::<u8, IoErrorView>(value),
        brightness_result(Err(error)) == Err::<u8, IoErrorView>(
            IoErrorView { kind: error.kind, message: error.message@ },
        ),
{
}

} // verus!
