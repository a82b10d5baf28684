//! The `:` command line of the music view: line editing, history, timed
//! feedback messages, and the parser for the commands typed into it.

use std::time::Duration;
use vstd::prelude::*;

use crate::text::{
    chars_of, equals_str, find_char, find_from, lemma_rfind_before_bounds, lower,
    lower_chars, parse_i64, parse_i64_chars, parse_u8_chars, parse_unsigned, rfind_before,
    rfind_char, skip_char, skip_char_from, slice_chars, string_of, trim, trim_chars,
};

verus! {

/// Result of executing a command – the `App` dispatches these.
#[derive(Debug, Clone)]
pub enum CommandAction {
    /// Nothing to do (an unknown or malformed command).
    NoOp,
    AddUrl(String),
    LoadUrl(String),
    LoadRadio,
    ClearQueue,
    SetVolume(u8),
    Seek(i64),
    StationAdd { name: String, url: String },
    StationRemove(String),
    StationList,
    ShowSources,
    ShowHelp,
}

/// The abstract value of a `CommandAction`: its strings as character sequences.
pub enum ActionView {
    NoOp,
    AddUrl(Seq<char>),
    LoadUrl(Seq<char>),
    LoadRadio,
    ClearQueue,
    SetVolume(int),
    Seek(int),
    StationAdd(Seq<char>, Seq<char>),
    StationRemove(Seq<char>),
    StationList,
    ShowSources,
    ShowHelp,
}

impl View for CommandAction {
    type V = ActionView;

    open spec fn view(&self) -> ActionView {
        match self {
            CommandAction::NoOp => ActionView::NoOp,
            CommandAction::AddUrl(u) => ActionView::AddUrl(u@),
            CommandAction::LoadUrl(u) => ActionView::LoadUrl(u@),
            CommandAction::LoadRadio => ActionView::LoadRadio,
            CommandAction::ClearQueue => ActionView::ClearQueue,
            CommandAction::SetVolume(v) => ActionView::SetVolume(*v as int),
            CommandAction::Seek(s) => ActionView::Seek(*s as int),
            CommandAction::StationAdd { name, url } => ActionView::StationAdd(name@, url@),
            CommandAction::StationRemove(n) => ActionView::StationRemove(n@),
            CommandAction::StationList => ActionView::StationList,
            CommandAction::ShowSources => ActionView::ShowSources,
            CommandAction::ShowHelp => ActionView::ShowHelp,
        }
    }
}

/// The keys the command line reacts to; every other key is `Other`.
#[derive(Debug, Clone, Copy, PartialEq, Eq, Structural)]
pub enum KeyCode {
    Esc,
    Enter,
    Backspace,
    Delete,
    Left,
    Right,
    Home,
    End,
    Up,
    Down,
    Char(char),
    Tab,
    Other,
}

#[derive(Debug, Clone, Copy, PartialEq, Eq, Structural)]
pub enum CmdMode {
    Inactive,
    Input,
    Message,
}

/// How long a feedback message stays, in milliseconds.
pub const MESSAGE_MS: u64 = 3000;

// ---------------------------------------------------------------------------
// The command grammar
// ---------------------------------------------------------------------------

/// The first word of `s` (up to the first space) and the rest after that space.
pub open spec fn head_word(s: Seq<char>) -> Seq<char> {
    s.take(find_from(s, ' ', 0))
}

pub open spec fn after_head_word(s: Seq<char>) -> Seq<char> {
    let k = find_from(s, ' ', 0);
    if k < s.len() {
        s.skip(k + 1)
    } else {
        Seq::empty()
    }
}

/// `:station <sub> <rest>`.
pub open spec fn spec_parse_station(arg: Seq<char>) -> ActionView {
    let sub = lower(head_word(arg));
    let rest = trim(after_head_word(arg));
    if sub == "add"@ || sub == "a"@ {
        let j = rfind_before(rest, ' ', rest.len() as int);
        if j < 0 {
            ActionView::NoOp
        } else {
            let name = trim(rest.take(j));
            let url = trim(rest.skip(j + 1));
            if name.len() > 0 && url.len() > 0 {
                ActionView::StationAdd(name, url)
            } else {
                ActionView::NoOp
            }
        }
    } else if sub == "rm"@ || sub == "remove"@ || sub == "del"@ || sub == "delete"@ {
        if rest.len() == 0 {
            ActionView::NoOp
        } else {
            ActionView::StationRemove(rest)
        }
    } else if sub == "list"@ || sub == "ls"@ || sub.len() == 0 {
        ActionView::StationList
    } else {
        ActionView::NoOp
    }
}

/// The command that a (trimmed, non-empty) input line stands for.
pub open spec fn spec_parse_command(input: Seq<char>) -> ActionView {
    let cmd = lower(head_word(input));
    let arg = trim(after_head_word(input));
    if (cmd == "add"@ || cmd == "a"@) && arg.len() > 0 {
        ActionView::AddUrl(arg)
    } else if (cmd == "load"@ || cmd == "open"@ || cmd == "o"@) && arg.len() > 0 {
        ActionView::LoadUrl(arg)
    } else if cmd == "radio"@ || cmd == "r"@ {
        ActionView::LoadRadio
    } else if cmd == "clear"@ || cmd == "c"@ {
        ActionView::ClearQueue
    } else if cmd == "vol"@ || cmd == "volume"@ || cmd == "v"@ {
        match parse_unsigned(arg, 255) {
            Some(level) => ActionView::SetVolume(if level > 100 { 100 } else { level }),
            None => ActionView::NoOp,
        }
    } else if cmd == "seek"@ || cmd == "sk"@ {
        match parse_i64(arg.skip(skip_char_from(arg, '+', 0))) {
            Some(secs) => ActionView::Seek(secs),
            None => ActionView::NoOp,
        }
    } else if cmd == "station"@ || cmd == "st"@ {
        spec_parse_station(arg)
    } else if cmd == "sources"@ || cmd == "src"@ {
        ActionView::ShowSources
    } else if cmd == "help"@ || cmd == "h"@ || cmd == "?"@ {
        ActionView::ShowHelp
    } else {
        ActionView::NoOp
    }
}

/// Splits `v` at its first space: the word before it and the text after it.
fn split_head(v: &Vec<char>) -> (r: (Vec<char>, Vec<char>))
    ensures
        r.0@ == head_word(v@),
        r.1@ == after_head_word(v@),
{
    let k = find_char(v, ' ', 0);
    let head = slice_chars(v, 0, k);
    let rest = if k < v.len() {
        slice_chars(v, k + 1, v.len())
    } else {
        Vec::new()
    };
    proof {
        assert(head@ =~= head_word(v@));
        assert(rest@ =~= after_head_word(v@));
    }
    (head, rest)
}

/// Parses a `:station` argument.
pub fn parse_station_subcommand(arg: &str) -> (r: CommandAction)
    ensures
        r@ == spec_parse_station(arg@),
{
    let argv = chars_of(arg);
    parse_station_chars(&argv)
}

fn parse_station_chars(argv: &Vec<char>) -> (r: CommandAction)
    ensures
        r@ == spec_parse_station(argv@),
{
    let (sub_raw, rest_raw) = split_head(argv);
    let sub = lower_chars(&sub_raw);
    let rest = trim_chars(&rest_raw);
    if equals_str(&sub, "add") || equals_str(&sub, "a") {
        match rfind_char(&rest, ' ') {
            Some(j) => {
                proof {
                    lemma_rfind_before_bounds(rest@, ' ', rest@.len() as int);
                }
                let left = slice_chars(&rest, 0, j);
                let right = slice_chars(&rest, j + 1, rest.len());
                let name = trim_chars(&left);
                let url = trim_chars(&right);
                proof {
                    assert(left@ =~= rest@.take(j as int));
                    assert(right@ =~= rest@.skip(j + 1));
                }
                if name.len() > 0 && url.len() > 0 {
                    CommandAction::StationAdd { name: string_of(&name), url: string_of(&url) }
                } else {
                    CommandAction::NoOp
                }
            },
            None => CommandAction::NoOp,
        }
    } else if equals_str(&sub, "rm") || equals_str(&sub, "remove") || equals_str(&sub, "del")
        || equals_str(&sub, "delete") {
        if rest.len() == 0 {
            CommandAction::NoOp
        } else {
            CommandAction::StationRemove(string_of(&rest))
        }
    } else if equals_str(&sub, "list") || equals_str(&sub, "ls") || sub.len() == 0 {
        CommandAction::StationList
    } else {
        CommandAction::NoOp
    }
}

/// Parses a command line (without its leading `:`).
pub fn parse_command(input: &str) -> (r: CommandAction)
    ensures
        r@ == spec_parse_command(input@),
{
    let v = chars_of(input);
    parse_command_chars(&v)
}

fn parse_command_chars(v: &Vec<char>) -> (r: CommandAction)
    ensures
        r@ == spec_parse_command(v@),
{
    let (cmd_raw, arg_raw) = split_head(v);
    let cmd = lower_chars(&cmd_raw);
    let arg = trim_chars(&arg_raw);
    if (equals_str(&cmd, "add") || equals_str(&cmd, "a")) && arg.len() > 0 {
        CommandAction::AddUrl(string_of(&arg))
    } else if (equals_str(&cmd, "load") || equals_str(&cmd, "open") || equals_str(&cmd, "o"))
        && arg.len() > 0 {
        CommandAction::LoadUrl(string_of(&arg))
    } else if equals_str(&cmd, "radio") || equals_str(&cmd, "r") {
        CommandAction::LoadRadio
    } else if equals_str(&cmd, "clear") || equals_str(&cmd, "c") {
        CommandAction::ClearQueue
    } else if equals_str(&cmd, "vol") || equals_str(&cmd, "volume") || equals_str(&cmd, "v") {
        match parse_u8_chars(&arg) {
            Some(level) => CommandAction::SetVolume(if level > 100 {
                100
            } else {
                level
            }),
            None => CommandAction::NoOp,
        }
    } else if equals_str(&cmd, "seek") || equals_str(&cmd, "sk") {
        let start = skip_char(&arg, '+', 0);
        let trimmed = slice_chars(&arg, start, arg.len());
        assert(trimmed@ =~= arg@.skip(start as int));
        match parse_i64_chars(&trimmed) {
            Some(secs) => CommandAction::Seek(secs),
            None => CommandAction::NoOp,
        }
    } else if equals_str(&cmd, "station") || equals_str(&cmd, "st") {
        parse_station_chars(&arg)
    } else if equals_str(&cmd, "sources") || equals_str(&cmd, "src") {
        CommandAction::ShowSources
    } else if equals_str(&cmd, "help") || equals_str(&cmd, "h") || equals_str(&cmd, "?") {
        CommandAction::ShowHelp
    } else {
        CommandAction::NoOp
    }
}

// ---------------------------------------------------------------------------
// The line editor
// ---------------------------------------------------------------------------

/// The abstract state of the command line.
pub struct CommandLineModel {
    pub mode: CmdMode,
    pub buffer: Seq<char>,
    /// Cursor position, in characters.
    pub cursor: nat,
    pub message: Seq<char>,
    /// Milliseconds on the clock at which the message goes away.
    pub message_until: Option<nat>,
    pub history: Seq<Seq<char>>,
    pub history_index: Option<nat>,
}

pub open spec fn cmdline_wf(m: CommandLineModel) -> bool {
    &&& m.cursor <= m.buffer.len()
    &&& m.history_index matches Some(i) ==> i < m.history.len()
}

/// Leaving input mode: the line is cleared.
pub open spec fn model_dismiss(m: CommandLineModel) -> CommandLineModel {
    CommandLineModel {
        mode: CmdMode::Inactive,
        buffer: Seq::empty(),
        cursor: 0,
        history_index: None,
        ..m
    }
}

pub open spec fn model_activate(m: CommandLineModel) -> CommandLineModel {
    CommandLineModel {
        mode: CmdMode::Input,
        buffer: Seq::empty(),
        cursor: 0,
        history_index: None,
        ..m
    }
}

pub open spec fn model_show_message(m: CommandLineModel, msg: Seq<char>, now: nat) -> CommandLineModel {
    CommandLineModel {
        message: msg,
        message_until: Some(
            if now + MESSAGE_MS <= u64::MAX {
                (now + MESSAGE_MS) as nat
            } else {
                u64::MAX as nat
            },
        ),
        mode: CmdMode::Message,
        ..m
    }
}

pub open spec fn model_tick(m: CommandLineModel, now: nat) -> CommandLineModel {
    if m.mode == CmdMode::Message && (m.message_until matches Some(t) && now >= t) {
        model_dismiss(m)
    } else {
        m
    }
}

/// The line after one key press, and the command that Enter submits.
pub open spec fn model_key(m: CommandLineModel, key: KeyCode) -> (CommandLineModel, Option<ActionView>) {
    match key {
        KeyCode::Esc => (model_dismiss(m), None),
        KeyCode::Enter => {
            let input = trim(m.buffer);
            let cleared = model_dismiss(m);
            if input.len() == 0 {
                (cleared, None)
            } else {
                (
                    CommandLineModel { history: m.history.push(input), ..cleared },
                    Some(spec_parse_command(input)),
                )
            }
        },
        KeyCode::Backspace => if m.cursor > 0 {
            (
                CommandLineModel {
                    buffer: m.buffer.remove(m.cursor - 1),
                    cursor: (m.cursor - 1) as nat,
                    ..m
                },
                None,
            )
        } else {
            (m, None)
        },
        KeyCode::Delete => if m.cursor < m.buffer.len() {
            (CommandLineModel { buffer: m.buffer.remove(m.cursor as int), ..m }, None)
        } else {
            (m, None)
        },
        KeyCode::Left => (
            CommandLineModel {
                cursor: if m.cursor > 0 {
                    (m.cursor - 1) as nat
                } else {
                    0
                },
                ..m
            },
            None,
        ),
        KeyCode::Right => if m.cursor < m.buffer.len() {
            (CommandLineModel { cursor: m.cursor + 1, ..m }, None)
        } else {
            (m, None)
        },
        KeyCode::Home => (CommandLineModel { cursor: 0, ..m }, None),
        KeyCode::End => (CommandLineModel { cursor: m.buffer.len(), ..m }, None),
        KeyCode::Up => if m.history.len() > 0 {
            let idx: nat = match m.history_index {
                Some(i) => if i > 0 {
                    (i - 1) as nat
                } else {
                    0
                },
                None => (m.history.len() - 1) as nat,
            };
            (
                CommandLineModel {
                    history_index: Some(idx),
                    buffer: m.history[idx as int],
                    cursor: m.history[idx as int].len(),
                    ..m
                },
                None,
            )
        } else {
            (m, None)
        },
        KeyCode::Down => match m.history_index {
            Some(i) => if i + 1 < m.history.len() {
                (
                    CommandLineModel {
                        history_index: Some(i + 1),
                        buffer: m.history[i + 1 as int],
                        cursor: m.history[i + 1 as int].len(),
                        ..m
                    },
                    None,
                )
            } else {
                (
                    CommandLineModel {
                        history_index: None,
                        buffer: Seq::empty(),
                        cursor: 0,
                        ..m
                    },
                    None,
                )
            },
            None => (m, None),
        },
        KeyCode::Char(ch) => (
            CommandLineModel {
                buffer: m.buffer.insert(m.cursor as int, ch),
                cursor: m.cursor + 1,
                ..m
            },
            None,
        ),
        KeyCode::Tab | KeyCode::Other => (m, None),
    }
}

pub open spec fn action_option_view(r: Option<CommandAction>) -> Option<ActionView> {
    match r {
        Some(a) => Some(a@),
        None => None,
    }
}

#[verifier::external_type_specification]
#[verifier::external_body]
pub struct ExInstant(std::time::Instant);

/// `Instant::now`: the present instant of the monotonic clock.
#[verifier::external_body]
fn instant_now() -> std::time::Instant {
    std::time::Instant::now()
}

/// `Instant::elapsed`: the time since `origin` on the monotonic clock. Nothing is stated
/// of it: it depends on when it is asked.
#[verifier::external_body]
fn elapsed_since(origin: &std::time::Instant) -> Duration {
    origin.elapsed()
}

/// `Duration::as_millis`: the whole milliseconds of a duration.
pub uninterp spec fn duration_millis(d: Duration) -> nat;

/// The whole milliseconds of `d` (`Duration::as_millis`).
#[verifier::external_body]
fn whole_millis(d: Duration) -> (ms: u128)
    ensures
        ms == duration_millis(d),
{
    d.as_millis()
}

pub struct CommandLine {
    mode: CmdMode,
    buffer: String,
    cursor: usize,
    message: String,
    message_until: Option<u64>,
    history: Vec<String>,
    history_index: Option<usize>,
    /// The instant from which the message clock counts.
    origin: std::time::Instant,
}

impl View for CommandLine {
    type V = CommandLineModel;

    closed spec fn view(&self) -> CommandLineModel {
        CommandLineModel {
            mode: self.mode,
            buffer: self.buffer@,
            cursor: self.cursor as nat,
            message: self.message@,
            message_until: match self.message_until {
                Some(t) => Some(t as nat),
                None => None,
            },
            history: self.history@.map_values(|h: String| h@),
            history_index: match self.history_index {
                Some(i) => Some(i as nat),
                None => None,
            },
        }
    }
}

impl CommandLine {
    pub fn new() -> (c: Self)
        ensures
            c@.mode == CmdMode::Inactive,
            c@.buffer.len() == 0,
            c@.cursor == 0,
            c@.message.len() == 0,
            c@.message_until is None,
            c@.history.len() == 0,
            c@.history_index is None,
            cmdline_wf(c@),
    {
        let c = CommandLine {
            mode: CmdMode::Inactive,
            buffer: String::new(),
            cursor: 0,
            message: String::new(),
            message_until: None,
            history: Vec::new(),
            history_index: None,
            origin: instant_now(),
        };
        assert(c@.history =~= Seq::<Seq<char>>::empty());
        c
    }

    /// Whether the command line is capturing input (should steal all key events).
    pub fn is_active(&self) -> (r: bool)
        ensures
            r == (self@.mode == CmdMode::Input),
    {
        self.mode == CmdMode::Input
    }

    /// Whether there is a message to display (input or feedback).
    pub fn is_visible(&self) -> (r: bool)
        ensures
            r == (self@.mode != CmdMode::Inactive),
    {
        self.mode != CmdMode::Inactive
    }

    /// The display string for the status bar, with the cursor position.
    pub fn display(&self) -> (r: (&str, usize))
        ensures
            self@.mode == CmdMode::Input ==> r.0@ == self@.buffer && r.1 == self@.cursor,
            self@.mode == CmdMode::Message ==> r.0@ == self@.message && r.1 == 0,
            self@.mode == CmdMode::Inactive ==> r.0@.len() == 0 && r.1 == 0,
    {
        match self.mode {
            CmdMode::Input => (self.buffer.as_str(), self.cursor),
            CmdMode::Message => (self.message.as_str(), 0),
            CmdMode::Inactive => {
                let empty = "";
                proof {
                    reveal_strlit("");
                }
                (empty, 0)
            },
        }
    }

    /// Is this showing an input prompt (with `:` prefix)?
    pub fn is_input(&self) -> (r: bool)
        ensures
            r == (self@.mode == CmdMode::Input),
    {
        self.mode == CmdMode::Input
    }

    /// Activate the command line (called when `:` is pressed).
    pub fn activate(&mut self)
        requires
            cmdline_wf(old(self)@),
        ensures
            final(self)@ == model_activate(old(self)@),
            cmdline_wf(final(self)@),
    {
        self.mode = CmdMode::Input;
        self.buffer = String::new();
        self.cursor = 0;
        self.history_index = None;
    }

    /// Dismiss the command line.
    pub fn dismiss(&mut self)
        requires
            cmdline_wf(old(self)@),
        ensures
            final(self)@ == model_dismiss(old(self)@),
            cmdline_wf(final(self)@),
    {
        self.mode = CmdMode::Inactive;
        self.buffer = String::new();
        self.cursor = 0;
        self.history_index = None;
    }

    /// Milliseconds on the monotonic clock since the command line was made, saturated
    /// at `u64::MAX`.
    fn clock_ms(&self) -> u64 {
        let ms = whole_millis(elapsed_since(&self.origin));
        if ms > u64::MAX as u128 {
            u64::MAX
        } else {
            ms as u64
        }
    }

    /// Show a feedback message for a short duration, starting now.
    pub fn show_message(&mut self, msg: String)
        requires
            cmdline_wf(old(self)@),
        ensures
            exists|now: nat| final(self)@ == model_show_message(old(self)@, msg@, now),
            cmdline_wf(final(self)@),
    {
        let now = self.clock_ms();
        self.show_message_at(msg, now);
    }

    /// Show a feedback message from `now` (milliseconds) for `MESSAGE_MS`.
    pub fn show_message_at(&mut self, msg: String, now: u64)
        requires
            cmdline_wf(old(self)@),
        ensures
            final(self)@ == model_show_message(old(self)@, msg@, now as nat),
            cmdline_wf(final(self)@),
    {
        self.message = msg;
        self.message_until = Some(now.saturating_add(MESSAGE_MS));
        self.mode = CmdMode::Message;
    }

    /// Call each frame – auto-dismiss timed messages.
    pub fn tick(&mut self)
        requires
            cmdline_wf(old(self)@),
        ensures
            exists|now: nat| final(self)@ == model_tick(old(self)@, now),
            cmdline_wf(final(self)@),
    {
        let now = self.clock_ms();
        self.tick_at(now);
    }

    /// Dismisses a message whose time is up at `now` (milliseconds).
    pub fn tick_at(&mut self, now: u64)
        requires
            cmdline_wf(old(self)@),
        ensures
            final(self)@ == model_tick(old(self)@, now as nat),
            cmdline_wf(final(self)@),
    {
        if self.mode == CmdMode::Message {
            let expired = match self.message_until {
                Some(t) => now >= t,
                None => false,
            };
            if expired {
                self.dismiss();
            }
        }
    }

    /// Handle a key event while in Input mode. Returns `Some(action)` on Enter.
    pub fn handle_key(&mut self, code: KeyCode) -> (r: Option<CommandAction>)
        requires
            cmdline_wf(old(self)@),
        ensures
            (final(self)@, action_option_view(r)) == model_key(old(self)@, code),
            cmdline_wf(final(self)@),
    {
        match code {
            KeyCode::Esc => {
                self.dismiss();
                None
            },
            KeyCode::Enter => {
                let buf = chars_of(self.buffer.as_str());
                let input = trim_chars(&buf);
                let ghost hist = self@.history;
                if input.len() > 0 {
                    let line = string_of(&input);
                    self.history.push(line);
                    assert(self@.history =~= hist.push(input@));
                }
                self.mode = CmdMode::Inactive;
                self.buffer = String::new();
                self.cursor = 0;
                self.history_index = None;
                if input.len() == 0 {
                    return None;
                }
                Some(parse_command_chars(&input))
            },
            KeyCode::Backspace => {
                if self.cursor > 0 {
                    let mut buf = chars_of(self.buffer.as_str());
                    buf.remove(self.cursor - 1);
                    self.buffer = string_of(&buf);
                    self.cursor = self.cursor - 1;
                }
                None
            },
            KeyCode::Delete => {
                let mut buf = chars_of(self.buffer.as_str());
                if self.cursor < buf.len() {
                    buf.remove(self.cursor);
                    self.buffer = string_of(&buf);
                }
                None
            },
            KeyCode::Left => {
                self.cursor = self.cursor.saturating_sub(1);
                None
            },
            KeyCode::Right => {
                let len = chars_of(self.buffer.as_str()).len();
                if self.cursor < len {
                    self.cursor = self.cursor + 1;
                }
                None
            },
            KeyCode::Home => {
                self.cursor = 0;
                None
            },
            KeyCode::End => {
                self.cursor = chars_of(self.buffer.as_str()).len();
                None
            },
            KeyCode::Up => {
                if self.history.len() > 0 {
                    let idx = match self.history_index {
                        Some(i) => i.saturating_sub(1),
                        None => self.history.len() - 1,
                    };
                    self.history_index = Some(idx);
                    let entry = chars_of(self.history[idx].as_str());
                    self.buffer = string_of(&entry);
                    self.cursor = entry.len();
                }
                None
            },
            KeyCode::Down => {
                if let Some(idx) = self.history_index {
                    assert(self.history@.len() == self@.history.len());
                    assert(self@.history_index == Some(idx as nat));
                    assert(idx < self.history.len());
                    if idx + 1 < self.history.len() {
                        let next = idx + 1;
                        self.history_index = Some(next);
                        let entry = chars_of(self.history[next].as_str());
                        self.buffer = string_of(&entry);
                        self.cursor = entry.len();
                    } else {
                        self.history_index = None;
                        self.buffer = String::new();
                        self.cursor = 0;
                    }
                }
                None
            },
            KeyCode::Char(ch) => {
                let mut buf = chars_of(self.buffer.as_str());
                buf.insert(self.cursor, ch);
                let new_len = buf.len();
                self.buffer = string_of(&buf);
                self.cursor = self.cursor + 1;
                None
            },
            KeyCode::Tab | KeyCode::Other => None,
        }
    }
}

// ---------------------------------------------------------------------------
// Laws
// ---------------------------------------------------------------------------

/// Every key keeps the cursor within the line and the history position within the history.
pub proof fn law_keys_keep_wf(m: CommandLineModel, key: KeyCode)
    requires
        cmdline_wf(m),
    ensures
        cmdline_wf(model_key(m, key).0),
{
}

/// Typing a character and then Backspace leaves the line as it was.
pub proof fn law_backspace_undoes_char(m: CommandLineModel, ch: char)
    requires
        cmdline_wf(m),
    ensures
        model_key(model_key(m, KeyCode::Char(ch)).0, KeyCode::Backspace).0 == m,
{
    let m1 = model_key(m, KeyCode::Char(ch)).0;
    assert(m1.buffer.remove(m.cursor as int) =~= m.buffer);
}

/// Enter submits the trimmed line, records it in the history and leaves input
/// mode; an empty line submits nothing and records nothing.
pub proof fn law_enter_submits(m: CommandLineModel)
    ensures
        model_key(m, KeyCode::Enter).0.mode == CmdMode::Inactive,
        model_key(m, KeyCode::Enter).0.buffer.len() == 0,
        trim(m.buffer).len() > 0 ==> model_key(m, KeyCode::Enter).0.history == m.history.push(
            trim(m.buffer),
        ) && model_key(m, KeyCode::Enter).1 == Some(spec_parse_command(trim(m.buffer))),
        trim(m.buffer).len() == 0 ==> model_key(m, KeyCode::Enter).0.history == m.history
            && model_key(m, KeyCode::Enter).1 is None,
{
}

/// Up from a fresh prompt recalls the latest entry; Down from there clears the line.
pub proof fn law_history_recall(m: CommandLineModel)
    requires
        cmdline_wf(m),
        m.history.len() > 0,
        m.history_index is None,
    ensures
        model_key(m, KeyCode::Up).0.buffer == m.history.last(),
        model_key(model_key(m, KeyCode::Up).0, KeyCode::Down).0.buffer.len() == 0,
        model_key(model_key(m, KeyCode::Up).0, KeyCode::Down).0.history_index is None,
{
}

/// A volume command never asks for more than 100.
pub proof fn law_volume_at_most_100(input: Seq<char>)
    ensures
        spec_parse_command(input) matches ActionView::SetVolume(v) ==> v <= 100,
{
}

} // verus!
