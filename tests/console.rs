use neoterm::clock::WallClock;
use neoterm::command::{classify, parse_command, Command};
use neoterm::console::{AppState, Task};
use neoterm::message::{drain_all, AppMessage};
use neoterm::text::{decimal_text, find_space, text_eq};
use tokio::sync::mpsc::{channel, Receiver, Sender};

fn console(capacity: usize, viewport: usize) -> (AppState, Sender<AppMessage>) {
    let (tx, rx): (Sender<AppMessage>, Receiver<AppMessage>) = channel(64);
    (AppState::new(capacity, viewport, rx), tx)
}

fn lines(s: &AppState) -> Vec<String> {
    s.text_buffer().lines().to_vec()
}

fn last_line(s: &AppState) -> String {
    lines(s).last().cloned().unwrap()
}

fn clock(year: i32) -> WallClock {
    WallClock { year, month: 3, day: 7, hour: 9, minute: 5, second: 42 }
}

#[test]
fn starts_with_banner_and_nominal_status() {
    let (s, _tx) = console(1000, 20);
    let l = lines(&s);
    assert_eq!(l.len(), 8);
    assert_eq!(l[7], "Welcome to Neo-Term. Standby for commands.");
    assert_eq!(l[6], "");
    assert_eq!(s.status_message(), "STATUS: System nominal.");
}

#[test]
fn echo_keeps_argument_verbatim() {
    let (mut s, _tx) = console(1000, 20);
    let task = s.process_command("echo hello world");
    assert_eq!(task, None);
    assert_eq!(last_line(&s), "hello world");
}

#[test]
fn echo_keeps_case_and_inner_spaces() {
    let (mut s, _tx) = console(1000, 20);
    s.process_command("  ECHO Hello  World ");
    assert_eq!(last_line(&s), "Hello  World");
    let before = lines(&s).len();
    s.process_command("echo");
    assert_eq!(lines(&s).len(), before + 1);
    assert_eq!(last_line(&s), "");
}

#[test]
fn unknown_verb_reports_diagnostic() {
    let (mut s, _tx) = console(1000, 20);
    s.process_command("bogus");
    assert_eq!(last_line(&s), "Unknown command: 'bogus'. Type 'help' for available commands.");
}

#[test]
fn unknown_command_is_lower_cased() {
    let (mut s, _tx) = console(1000, 20);
    s.process_command(" BoGuS Stuff ");
    assert_eq!(last_line(&s), "Unknown command: 'bogus stuff'. Type 'help' for available commands.");
}

#[test]
fn verbs_match_without_case() {
    let (mut s, _tx) = console(1000, 20);
    let before = lines(&s).len();
    s.process_command("HELP");
    let l = lines(&s);
    assert_eq!(l.len(), before + 11);
    assert_eq!(l[before], "Available commands:");
    assert_eq!(l[before + 10], "  scroll-bottom    - Scroll to bottom");
    s.process_command("?");
    assert_eq!(lines(&s).len(), before + 22);
}

#[test]
fn empty_input_does_nothing() {
    let (mut s, _tx) = console(1000, 20);
    let before = lines(&s);
    assert_eq!(s.process_command("   "), None);
    assert_eq!(s.submit_input(" \t "), None);
    assert_eq!(lines(&s), before);
}

#[test]
fn clear_resets_lines_and_offset() {
    let (mut s, _tx) = console(1000, 3);
    s.text_buffer_mut().scroll_to_top();
    s.process_command("clear");
    assert_eq!(s.text_buffer().len(), 0);
    assert_eq!(s.text_buffer().scroll_offset(), 0);
    assert_eq!(s.text_buffer().capacity(), 1000);
    s.submit_input("Clear");
    assert_eq!(s.text_buffer().len(), 0);
    assert_eq!(s.text_buffer().scroll_offset(), 0);
}

#[test]
fn status_shows_status_line() {
    let (mut s, _tx) = console(1000, 20);
    s.process_command("status");
    assert_eq!(last_line(&s), "System Status: STATUS: System nominal.");
}

#[test]
fn scroll_commands_confirm() {
    let (mut s, _tx) = console(1000, 3);
    s.process_command("scroll-top");
    assert_eq!(last_line(&s), "Scrolled to top.");
    assert_eq!(s.text_buffer().scroll_offset(), 0);
    s.process_command("scroll-bottom");
    assert_eq!(last_line(&s), "Scrolled to bottom.");
    assert!(s.text_buffer().is_at_bottom());
}

#[test]
fn task_commands_ask_for_tasks() {
    let (mut s, _tx) = console(1000, 20);
    let before = lines(&s).len();
    assert_eq!(s.process_command("async-task"), Some(Task::CommandSlowTask));
    assert_eq!(last_line(&s), "Async task initiated.");
    assert_eq!(s.process_command("log"), Some(Task::CommandLog));
    assert_eq!(lines(&s).len(), before + 1);
}

#[test]
fn submit_echoes_prompt_then_runs() {
    let (mut s, _tx) = console(1000, 20);
    let before = lines(&s).len();
    let task = s.submit_input("  Echo Hi ");
    assert_eq!(task, None);
    let l = lines(&s);
    assert_eq!(l.len(), before + 2);
    assert_eq!(l[before], ">   Echo Hi ");
    assert_eq!(l[before + 1], "Hi");
}

#[test]
fn time_and_date_lines_are_formatted() {
    let (mut s, _tx) = console(1000, 20);
    assert_eq!(s.submit_at("time", &clock(2024)), None);
    assert_eq!(last_line(&s), "Current time: 09:05:42");
    s.submit_at("DATE", &clock(2024));
    assert_eq!(last_line(&s), "Current date: 2024-03-07");
}

#[test]
fn clock_lines_from_local_time_have_fixed_shape() {
    let (mut s, _tx) = console(1000, 20);
    s.process_command("time");
    let t = last_line(&s);
    assert!(t.starts_with("Current time: "));
    assert_eq!(t.len(), "Current time: ".len() + 8);
    s.process_command("date");
    let d = last_line(&s);
    assert!(d.starts_with("Current date: "));
    assert_eq!(&d[18..19], "-");
}

#[test]
fn year_formatting_follows_sign_rules() {
    assert_eq!(clock(987).format_date(), "0987-03-07");
    assert_eq!(clock(12345).format_date(), "+12345-03-07");
    assert_eq!(clock(-44).format_date(), "-0044-03-07");
    assert_eq!(clock(2024).format_time(), "09:05:42");
}

#[test]
fn task_messages() {
    let now = clock(2024);
    let opening = Task::CommandLog.opening(&now);
    assert!(matches!(opening, AppMessage::NewLine(ref t) if t == "[COMMAND] Log entry at 09:05:42"));
    let panel = Task::PanelLog.opening(&now);
    assert!(matches!(panel, AppMessage::NewLine(ref t) if t == "[LOG] Sample log entry at 09:05:42"));
    assert_eq!(Task::CommandSlowTask.delay_secs(), 1);
    assert_eq!(Task::PanelSlowTask.delay_secs(), 2);
    assert!(matches!(Task::CommandSlowTask.completion(),
        Some(AppMessage::TaskCompleted(ref t)) if t == "Command executed successfully."));
    assert!(Task::PanelLog.completion().is_none());
    let live = Task::PanelSlowTask.opening_now();
    assert!(matches!(live, AppMessage::NewLine(ref t) if t == "[ASYNC] Task started..."));
}

#[test]
fn task_lines_arrive_in_order() {
    let (mut s, tx) = console(1000, 20);
    let tx2 = tx.clone();
    tx.try_send(AppMessage::NewLine("start".to_string())).unwrap();
    tx2.try_send(AppMessage::NewLine("other start".to_string())).unwrap();
    s.tick();
    tx2.try_send(AppMessage::TaskCompleted("other done".to_string())).unwrap();
    tx.try_send(AppMessage::TaskCompleted("done".to_string())).unwrap();
    s.tick();
    let l = lines(&s);
    let n = l.len();
    assert_eq!(&l[n - 4..], &["start", "other start", "[ASYNC] other done", "[ASYNC] done"]);
    assert_eq!(s.status_message(), "STATUS: done");
}

#[test]
fn one_drain_after_both_sends() {
    let (mut s, tx) = console(1000, 20);
    tx.try_send(AppMessage::NewLine("start".to_string())).unwrap();
    tx.try_send(AppMessage::TaskCompleted("done".to_string())).unwrap();
    s.tick();
    let l = lines(&s);
    let n = l.len();
    assert_eq!(&l[n - 2..], &["start", "[ASYNC] done"]);
}

#[test]
fn second_drain_is_empty() {
    let (tx, mut rx) = channel::<AppMessage>(8);
    tx.try_send(AppMessage::NewLine("a".to_string())).unwrap();
    tx.try_send(AppMessage::NewLine("b".to_string())).unwrap();
    let first = drain_all(&mut rx);
    assert_eq!(first.len(), 2);
    let second = drain_all(&mut rx);
    assert!(second.is_empty());
}

#[test]
fn drain_with_nothing_queued() {
    let (tx, mut rx) = channel::<AppMessage>(8);
    assert!(drain_all(&mut rx).is_empty());
    drop(tx);
    assert!(drain_all(&mut rx).is_empty());
}

#[test]
fn tick_applies_task_completion() {
    let (mut s, tx) = console(1000, 20);
    tx.try_send(AppMessage::TaskCompleted("ok".to_string())).unwrap();
    s.tick();
    assert_eq!(last_line(&s), "[ASYNC] ok");
    assert_eq!(s.status_message(), "STATUS: ok");
    s.tick();
    assert_eq!(last_line(&s), "[ASYNC] ok");
}

#[test]
fn classify_reads_given_lowered_forms() {
    assert!(matches!(classify("Echo Hi", "echo", "echo hi"), Command::Echo(ref t) if t == "Hi"));
    assert!(matches!(classify("X", "clear", "clear"), Command::Clear));
    assert!(matches!(classify("help me", "help", "help me"), Command::Unknown(ref t) if t == "help me"));
    assert!(matches!(classify("", "", ""), Command::Empty));
    assert!(matches!(parse_command("\tScroll-Top\n"), Command::ScrollTop));
}

#[test]
fn text_helpers() {
    assert!(text_eq("abc", "abc"));
    assert!(!text_eq("abc", "abd"));
    assert!(!text_eq("ab", "abc"));
    assert_eq!(find_space("ab cd"), Some(2));
    assert_eq!(find_space("abcd"), None);
    assert_eq!(decimal_text(7, 2), "07");
    assert_eq!(decimal_text(0, 0), "0");
    assert_eq!(decimal_text(123, 2), "123");
    assert_eq!(decimal_text(4294967295, 4), "4294967295");
}
