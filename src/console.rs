use tokio::sync::mpsc::Receiver;
use vstd::prelude::*;
use crate::buffer::{BufferModel, TextBuffer, last_n, lemma_add_all_lines, texts};
use crate::clock::{WallClock, date_text, local_now, time_text};
use crate::command::{Command, CommandView, parse_command, parsed};
use crate::message::{AppMessage, drain_all};
use crate::text::{trim_text, trimmed};

verus! {

/// A piece of background work that a command or a panel button asks for.
/// The caller runs it: it sends `opening`, and where there is a
/// `completion`, waits `delay_secs` seconds and sends that too.
#[derive(PartialEq, Eq, Structural, Clone, Copy, Debug)]
pub enum Task {
    /// The `async-task` command.
    CommandSlowTask,
    /// The panel's slow-task button.
    PanelSlowTask,
    /// The `log` command.
    CommandLog,
    /// The panel's log button.
    PanelLog,
}

/// The line that a message adds to the buffer.
pub open spec fn line_of(m: AppMessage) -> Seq<char> {
    match m {
        AppMessage::NewLine(t) => t@,
        AppMessage::TaskCompleted(r) => "[ASYNC] "@ + r@,
    }
}

pub open spec fn opening_text(t: Task, now: WallClock) -> Seq<char> {
    match t {
        Task::CommandSlowTask => "[COMMAND] Async task started..."@,
        Task::PanelSlowTask => "[ASYNC] Task started..."@,
        Task::CommandLog => "[COMMAND] Log entry at "@ + time_text(now),
        Task::PanelLog => "[LOG] Sample log entry at "@ + time_text(now),
    }
}

pub open spec fn completion_text(t: Task) -> Option<Seq<char>> {
    match t {
        Task::CommandSlowTask => Some("Command executed successfully."@),
        Task::PanelSlowTask => Some("Task completed successfully."@),
        _ => None,
    }
}

impl Task {
    /// The first message the task sends, as of the time `now`.
    pub fn opening(&self, now: &WallClock) -> (r: AppMessage)
        ensures
            r matches AppMessage::NewLine(s) && s@ == opening_text(*self, *now),
    {
        match self {
            Task::CommandSlowTask => AppMessage::NewLine(
                String::from_str("[COMMAND] Async task started..."),
            ),
            Task::PanelSlowTask => AppMessage::NewLine(String::from_str("[ASYNC] Task started...")),
            Task::CommandLog => AppMessage::NewLine(
                String::from_str("[COMMAND] Log entry at ").concat(now.format_time().as_str()),
            ),
            Task::PanelLog => AppMessage::NewLine(
                String::from_str("[LOG] Sample log entry at ").concat(now.format_time().as_str()),
            ),
        }
    }

    /// The first message the task sends, as of the local time now.
    pub fn opening_now(&self) -> (r: AppMessage)
        ensures
            exists|now: WallClock|
                now.wf() && (r matches AppMessage::NewLine(s) && s@ == #[trigger] opening_text(
                    *self,
                    now,
                )),
    {
        let now = local_now();
        self.opening(&now)
    }

    /// Seconds to wait between the first message and the completion.
    pub fn delay_secs(&self) -> (r: u64)
        ensures
            r == match self {
                Task::CommandSlowTask => 1u64,
                Task::PanelSlowTask => 2u64,
                _ => 0u64,
            },
    {
        match self {
            Task::CommandSlowTask => 1,
            Task::PanelSlowTask => 2,
            _ => 0,
        }
    }

    /// The message that reports the task done, if it sends one.
    pub fn completion(&self) -> (r: Option<AppMessage>)
        ensures
            completion_text(*self) matches Some(text) ==> (r matches Some(
                AppMessage::TaskCompleted(s),
            ) && s@ == text),
            completion_text(*self) is None ==> r is None,
    {
        match self {
            Task::CommandSlowTask => Some(
                AppMessage::TaskCompleted(String::from_str("Command executed successfully.")),
            ),
            Task::PanelSlowTask => Some(
                AppMessage::TaskCompleted(String::from_str("Task completed successfully.")),
            ),
            _ => None,
        }
    }
}

/// What the console shows: its buffer and its status line.
pub ghost struct ConsoleModel {
    pub buffer: BufferModel,
    pub status: Seq<char>,
}

impl ConsoleModel {
    pub open spec fn with_buffer(self, buffer: BufferModel) -> ConsoleModel {
        ConsoleModel { buffer, ..self }
    }

    pub open spec fn add(self, line: Seq<char>) -> ConsoleModel {
        self.with_buffer(self.buffer.add(line))
    }

    /// Applying one message from a background task.
    pub open spec fn apply(self, m: AppMessage) -> ConsoleModel {
        match m {
            AppMessage::NewLine(t) => self.add(t@),
            AppMessage::TaskCompleted(r) => ConsoleModel {
                buffer: self.buffer.add(line_of(m)),
                status: "STATUS: "@ + r@,
            },
        }
    }

    /// Applying messages in the order given.
    pub open spec fn apply_all(self, ms: Seq<AppMessage>) -> ConsoleModel
        decreases ms.len(),
    {
        if ms.len() == 0 {
            self
        } else {
            self.apply_all(ms.drop_last()).apply(ms.last())
        }
    }

    /// What a command does to the console, with `now` as the local time.
    pub open spec fn run(self, cmd: CommandView, now: WallClock) -> ConsoleModel {
        match cmd {
            CommandView::Help => self.with_buffer(self.buffer.add_all(help_text())),
            CommandView::Clear => self.with_buffer(self.buffer.cleared()),
            CommandView::Status => self.add("System Status: "@ + self.status),
            CommandView::Echo(s) => self.add(s),
            CommandView::Time => self.add("Current time: "@ + time_text(now)),
            CommandView::Date => self.add("Current date: "@ + date_text(now)),
            CommandView::AsyncTask => self.add("Async task initiated."@),
            CommandView::Log => self,
            CommandView::ScrollTop => self.with_buffer(
                self.buffer.with_offset(0).add("Scrolled to top."@),
            ),
            CommandView::ScrollBottom => self.with_buffer(
                self.buffer.with_offset(self.buffer.max_scroll()).add("Scrolled to bottom."@),
            ),
            CommandView::Empty => self,
            CommandView::Unknown(s) => self.add(unknown_text(s)),
        }
    }

    /// Submitting a raw input line: a line that is blank once trimmed does
    /// nothing; any other is echoed after a prompt sign and then run.
    pub open spec fn submit(self, input: Seq<char>, now: WallClock) -> ConsoleModel {
        if trimmed(input).len() == 0 {
            self
        } else {
            self.add("> "@ + input).run(parsed(input), now)
        }
    }
}

/// The lines that messages add, in order.
pub open spec fn lines_of(ms: Seq<AppMessage>) -> Seq<Seq<char>> {
    ms.map_values(|m: AppMessage| line_of(m))
}

/// Applying two batches of messages one after the other is applying both
/// in one batch, in the same order.
pub proof fn lemma_two_drains(c: ConsoleModel, first: Seq<AppMessage>, second: Seq<AppMessage>)
    ensures
        c.apply_all(first).apply_all(second) == c.apply_all(first + second),
    decreases second.len(),
{
    if second.len() == 0 {
        assert(first + second =~= first);
    } else {
        lemma_two_drains(c, first, second.drop_last());
        assert((first + second).drop_last() =~= first + second.drop_last());
        assert((first + second).last() == second.last());
    }
}

/// Messages change the buffer only by appending their lines in order.
pub proof fn lemma_apply_buffer(c: ConsoleModel, ms: Seq<AppMessage>)
    ensures
        c.apply_all(ms).buffer == c.buffer.add_all(lines_of(ms)),
    decreases ms.len(),
{
    if ms.len() > 0 {
        lemma_apply_buffer(c, ms.drop_last());
        assert(lines_of(ms).drop_last() =~= lines_of(ms.drop_last()));
    } else {
        assert(lines_of(ms) =~= Seq::<Seq<char>>::empty());
    }
}

/// Where the buffer has room for every message, each message's line lands
/// right after what the buffer held, at its own position among the
/// messages; so a task's first line comes before its completion line
/// whenever its messages arrived in that order, whatever arrived between.
pub proof fn lemma_lines_in_arrival_order(c: ConsoleModel, ms: Seq<AppMessage>)
    requires
        c.buffer.wf(),
        c.buffer.lines.len() + ms.len() <= c.buffer.capacity,
    ensures
        c.apply_all(ms).buffer.lines.len() == c.buffer.lines.len() + ms.len(),
        forall|k: int|
            0 <= k < ms.len() ==> c.apply_all(ms).buffer.lines[c.buffer.lines.len() + k]
                == line_of(#[trigger] ms[k]),
        forall|k: int|
            0 <= k < c.buffer.lines.len() ==> #[trigger] c.apply_all(ms).buffer.lines[k]
                == c.buffer.lines[k],
{
    lemma_apply_buffer(c, ms);
    lemma_add_all_lines(c.buffer, lines_of(ms));
    let all = c.buffer.lines + lines_of(ms);
    assert(last_n(all, c.buffer.capacity) == all);
}

/// `clear` leaves the buffer empty with its viewport at the top, whatever
/// it held before; the capacity stays.
pub proof fn lemma_clear_resets(c: ConsoleModel, input: Seq<char>, now: WallClock)
    requires
        parsed(input) == CommandView::Clear,
    ensures
        c.submit(input, now).buffer.lines.len() == 0,
        c.submit(input, now).buffer.scroll_offset == 0,
        c.submit(input, now).buffer.capacity == c.buffer.capacity,
{
}

/// The task that a command asks for, if any.
pub open spec fn task_of(cmd: CommandView) -> Option<Task> {
    match cmd {
        CommandView::AsyncTask => Some(Task::CommandSlowTask),
        CommandView::Log => Some(Task::CommandLog),
        _ => None,
    }
}

pub open spec fn unknown_text(cmd: Seq<char>) -> Seq<char> {
    "Unknown command: '"@ + cmd + "'. Type 'help' for available commands."@
}

pub open spec fn help_text() -> Seq<Seq<char>> {
    seq![
        "Available commands:"@,
        "  help, ?          - Show this help message"@,
        "  clear            - Clear the terminal"@,
        "  status           - Show system status"@,
        "  echo <text>      - Echo text back"@,
        "  time             - Show current time"@,
        "  date             - Show current date"@,
        "  async-task       - Run async task"@,
        "  log              - Generate log entry"@,
        "  scroll-top       - Scroll to top"@,
        "  scroll-bottom    - Scroll to bottom"@,
    ]
}

pub open spec fn banner_text() -> Seq<Seq<char>> {
    seq![
        "███╗   ██╗███████╗ ██████╗"@,
        "████╗  ██║██╔════╝██╔═══██╗"@,
        "██╔██╗ ██║█████╗  ██║   ██║"@,
        "██║╚██╗██║██╔══╝  ██║   ██║"@,
        "██║ ╚████║███████╗╚██████╔╝"@,
        "╚═╝  ╚═══╝╚══════╝ ╚═════╝ "@,
        ""@,
        "Welcome to Neo-Term. Standby for commands."@,
    ]
}

pub open spec fn initial_status() -> Seq<char> {
    "STATUS: System nominal."@
}

fn help_lines() -> (r: Vec<String>)
    ensures
        texts(r@) == help_text(),
{
    let mut v: Vec<String> = Vec::new();
    v.push(String::from_str("Available commands:"));
    v.push(String::from_str("  help, ?          - Show this help message"));
    v.push(String::from_str("  clear            - Clear the terminal"));
    v.push(String::from_str("  status           - Show system status"));
    v.push(String::from_str("  echo <text>      - Echo text back"));
    v.push(String::from_str("  time             - Show current time"));
    v.push(String::from_str("  date             - Show current date"));
    v.push(String::from_str("  async-task       - Run async task"));
    v.push(String::from_str("  log              - Generate log entry"));
    v.push(String::from_str("  scroll-top       - Scroll to top"));
    v.push(String::from_str("  scroll-bottom    - Scroll to bottom"));
    assert(texts(v@) =~= help_text());
    v
}

fn banner_lines() -> (r: Vec<String>)
    ensures
        texts(r@) == banner_text(),
{
    let mut v: Vec<String> = Vec::new();
    v.push(String::from_str("███╗   ██╗███████╗ ██████╗"));
    v.push(String::from_str("████╗  ██║██╔════╝██╔═══██╗"));
    v.push(String::from_str("██╔██╗ ██║█████╗  ██║   ██║"));
    v.push(String::from_str("██║╚██╗██║██╔══╝  ██║   ██║"));
    v.push(String::from_str("██║ ╚████║███████╗╚██████╔╝"));
    v.push(String::from_str("╚═╝  ╚═══╝╚══════╝ ╚═════╝ "));
    v.push(String::from_str(""));
    v.push(String::from_str("Welcome to Neo-Term. Standby for commands."));
    assert(texts(v@) =~= banner_text());
    v
}

/// The console's state: its buffer, its status line, and the receiving end
/// of the channel through which background tasks send it messages.
pub struct AppState {
    text_buffer: TextBuffer,
    status_message: String,
    message_receiver: Receiver<AppMessage>,
}

impl View for AppState {
    type V = ConsoleModel;

    closed spec fn view(&self) -> ConsoleModel {
        ConsoleModel { buffer: self.text_buffer@, status: self.status_message@ }
    }
}

impl AppState {
    pub open spec fn wf(&self) -> bool {
        self@.buffer.wf()
    }

    /// A console that holds at most `capacity` lines and shows
    /// `viewport_height` of them, starting with the banner and a nominal
    /// status.
    pub fn new(capacity: usize, viewport_height: usize, message_receiver: Receiver<AppMessage>) -> (r: AppState)
        ensures
            r.wf(),
            r@.buffer == BufferModel::empty(capacity as nat, viewport_height as nat).add_all(
                banner_text(),
            ),
            r@.status == initial_status(),
    {
        let mut text_buffer = TextBuffer::with_viewport(capacity, viewport_height);
        text_buffer.add_lines(banner_lines());
        AppState {
            text_buffer,
            status_message: String::from_str("STATUS: System nominal."),
            message_receiver,
        }
    }

    pub fn text_buffer(&self) -> (r: &TextBuffer)
        ensures
            r@ == self@.buffer,
    {
        &self.text_buffer
    }

    pub fn status_message(&self) -> (r: &str)
        ensures
            r@ == self@.status,
    {
        self.status_message.as_str()
    }

    /// The buffer, for the viewport and scroll controls; whatever is done
    /// with it must leave it well formed.
    pub fn text_buffer_mut(&mut self) -> (r: &mut TextBuffer)
        ensures
            r@ == old(self)@.buffer,
            final(self)@ == (ConsoleModel { buffer: final(r)@, status: old(self)@.status }),
    {
        &mut self.text_buffer
    }

    fn add(&mut self, line: String)
        requires
            old(self).wf(),
        ensures
            final(self).wf(),
            final(self)@ == old(self)@.add(line@),
    {
        self.text_buffer.add_line(line);
    }

    /// Applies one message from a background task.
    pub fn apply_message(&mut self, message: AppMessage)
        requires
            old(self).wf(),
        ensures
            final(self).wf(),
            final(self)@ == old(self)@.apply(message),
    {
        match message {
            AppMessage::NewLine(line) => self.add(line),
            AppMessage::TaskCompleted(result) => {
                self.status_message = String::from_str("STATUS: ").concat(result.as_str());
                let line = String::from_str("[ASYNC] ").concat(result.as_str());
                self.text_buffer.add_line(line);
            },
        }
    }

    /// Applies messages in the order given.
    pub fn apply_messages(&mut self, messages: Vec<AppMessage>)
        requires
            old(self).wf(),
        ensures
            final(self).wf(),
            final(self)@ == old(self)@.apply_all(messages@),
    {
        let ghost all = messages@;
        let ghost start = self@;
        let mut rest = messages;
        while rest.len() > 0
            invariant
                self.wf(),
                rest@.len() <= all.len(),
                rest@ == all.subrange(all.len() - rest@.len(), all.len() as int),
                self@ == start.apply_all(all.subrange(0, all.len() - rest@.len())),
            decreases rest@.len(),
        {
            let ghost done = all.len() - rest@.len();
            let m = rest.remove(0);
            self.apply_message(m);
            proof {
                let next = all.subrange(0, done + 1);
                assert(next.drop_last() =~= all.subrange(0, done));
                assert(rest@ =~= all.subrange(all.len() - rest@.len(), all.len() as int));
            }
        }
        assert(all.subrange(0, all.len() as int) =~= all);
    }

    /// Takes the messages that background tasks have queued and applies
    /// them in the order they arrived.
    pub fn tick(&mut self)
        requires
            old(self).wf(),
        ensures
            final(self).wf(),
            exists|ms: Seq<AppMessage>| final(self)@ == #[trigger] old(self)@.apply_all(ms),
    {
        let messages = drain_all(&mut self.message_receiver);
        let ghost ms = messages@;
        self.apply_messages(messages);
        assert(self@ == old(self)@.apply_all(ms));
    }

    /// Runs a parsed command with `now` as the local time, and returns the
    /// background task it asks for, if any.
    pub fn run_command(&mut self, command: Command, now: &WallClock) -> (r: Option<Task>)
        requires
            old(self).wf(),
        ensures
            final(self).wf(),
            final(self)@ == old(self)@.run(command@, *now),
            r == task_of(command@),
    {
        match command {
            Command::Help => {
                self.text_buffer.add_lines(help_lines());
                None
            },
            Command::Clear => {
                self.text_buffer.clear();
                None
            },
            Command::Status => {
                let line = String::from_str("System Status: ").concat(self.status_message.as_str());
                self.add(line);
                None
            },
            Command::Echo(text) => {
                self.add(text);
                None
            },
            Command::Time => {
                self.add(String::from_str("Current time: ").concat(now.format_time().as_str()));
                None
            },
            Command::Date => {
                self.add(String::from_str("Current date: ").concat(now.format_date().as_str()));
                None
            },
            Command::AsyncTask => {
                self.add(String::from_str("Async task initiated."));
                Some(Task::CommandSlowTask)
            },
            Command::Log => Some(Task::CommandLog),
            Command::ScrollTop => {
                self.text_buffer.scroll_to_top();
                self.add(String::from_str("Scrolled to top."));
                None
            },
            Command::ScrollBottom => {
                self.text_buffer.scroll_to_bottom();
                self.add(String::from_str("Scrolled to bottom."));
                None
            },
            Command::Empty => None,
            Command::Unknown(verb) => {
                let line = String::from_str("Unknown command: '").concat(verb.as_str()).concat(
                    "'. Type 'help' for available commands.",
                );
                self.add(line);
                None
            },
        }
    }

    /// Parses and runs a raw input line, reading the local clock for the
    /// commands that show the time or the date; returns the background task
    /// that the command asks for, if any.
    pub fn process_command(&mut self, command: &str) -> (r: Option<Task>)
        requires
            old(self).wf(),
        ensures
            final(self).wf(),
            exists|now: WallClock|
                now.wf() && final(self)@ == #[trigger] old(self)@.run(parsed(command@), now),
            r == task_of(parsed(command@)),
    {
        let parsed_command = parse_command(command);
        let now = local_now();
        self.run_command(parsed_command, &now)
    }

    /// Submits a raw input line with `now` as the local time: a line that is
    /// blank once trimmed is ignored; any other is echoed after a prompt sign
    /// and run.
    pub fn submit_at(&mut self, input: &str, now: &WallClock) -> (r: Option<Task>)
        requires
            old(self).wf(),
        ensures
            final(self).wf(),
            final(self)@ == old(self)@.submit(input@, *now),
            r == if trimmed(input@).len() == 0 {
                None
            } else {
                task_of(parsed(input@))
            },
    {
        if trim_text(input).unicode_len() == 0 {
            return None;
        }
        self.add(String::from_str("> ").concat(input));
        let parsed_command = parse_command(input);
        self.run_command(parsed_command, now)
    }

    /// Submits a raw input line, as `submit_at` does, at the local time now.
    pub fn submit_input(&mut self, input: &str) -> (r: Option<Task>)
        requires
            old(self).wf(),
        ensures
            final(self).wf(),
            exists|now: WallClock| now.wf() && final(self)@ == #[trigger] old(self)@.submit(input@, now),
            r == if trimmed(input@).len() == 0 {
                None
            } else {
                task_of(parsed(input@))
            },
    {
        let now = local_now();
        self.submit_at(input, &now)
    }
}

} // verus!
