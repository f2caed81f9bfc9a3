//! The state of the full-screen terminal: the input line, the history of what was shown,
//! the mode, the panels and the new-terminal dialog, and how each key changes them.
//! Drawing is left to the caller, which asks here for the texts and colours to draw.
use vstd::prelude::*;

use crate::monitor::pair_views;
use crate::text::{concat, concat3, owned, str_eq};

verus! {

/// How a logged command ended, as shown in the side panel.
#[derive(Clone, Copy, Debug, PartialEq, Eq, Structural)]
pub enum LogStatus {
    Success,
    Error,
    Blocked,
}

/// A line of the side panel's log.
pub struct LogEntry {
    pub timestamp: String,
    pub command: String,
    pub status: LogStatus,
}

impl Clone for LogEntry {
    fn clone(&self) -> (r: Self)
        ensures
            r.timestamp@ == self.timestamp@,
            r.command@ == self.command@,
            r.status == self.status,
    {
        LogEntry {
            timestamp: self.timestamp.clone(),
            command: self.command.clone(),
            status: self.status,
        }
    }
}

/// The state of the full-screen terminal.
pub struct TuiApp {
    /// The selected panel (0 to 4).
    pub current_tab: usize,
    /// The line being typed.
    pub input: String,
    /// What the terminal has shown: (kind, text) per line.
    pub terminal_history: Vec<(String, String)>,
    /// The side panel's log.
    pub logs: Vec<LogEntry>,
    /// The mode's name.
    pub mode: String,
    /// The first history line shown.
    pub scroll: usize,
    /// Whether the new-terminal dialog is open.
    pub show_new_tab: bool,
    /// The name typed into the new-terminal dialog.
    pub new_tab_name: String,
}

/// A key, as the terminal reports it.
#[derive(Clone, Copy, Debug, PartialEq, Eq, Structural)]
pub enum Key {
    Char(char),
    Tab,
    BackTab,
    Enter,
    Backspace,
    Up,
    Down,
    Other,
}

/// A key event: the key, whether Control was held, and whether it is a press (rather
/// than a release or repeat).
#[derive(Clone, Copy, Debug, PartialEq, Eq, Structural)]
pub struct KeyInput {
    pub key: Key,
    pub control: bool,
    pub press: bool,
}

/// What the terminal loop does after a key.
#[derive(Clone, Copy, Debug, PartialEq, Eq, Structural)]
pub enum KeyOutcome {
    Continue,
    Quit,
}

/// Colours the terminal draws in.
#[derive(Clone, Copy, Debug, PartialEq, Eq, Structural)]
pub enum Colour {
    Yellow,
    Red,
    Green,
    Magenta,
    Cyan,
    White,
}

/// The name of the normal mode.
pub open spec fn normal_label() -> Seq<char> {
    "普通模式"@
}

/// The name of the strict mode.
pub open spec fn strict_label() -> Seq<char> {
    "严格模式"@
}

/// A history line.
pub open spec fn line(kind: &str, text: Seq<char>) -> (Seq<char>, Seq<char>) {
    (kind@, text)
}

/// The history after running `command` (not empty) in `mode`: the echoed command, then
/// its answer; `clear` empties everything, the echo included.
pub open spec fn history_after(
    history: Seq<(Seq<char>, Seq<char>)>,
    mode: Seq<char>,
    command: Seq<char>,
) -> Seq<(Seq<char>, Seq<char>)> {
    let echoed = history.push(line("command", "luoli> "@ + command));
    if command == "help"@ {
        echoed + seq![
            line("output", "可用命令:"@),
            line("output", "  help  - 显示帮助"@),
            line("output", "  mode  - 查看当前模式"@),
            line("output", "  clear - 清屏"@),
            line("output", "  exit  - 退出"@),
        ]
    } else if command == "mode"@ {
        echoed.push(line("output", "当前模式: "@ + mode))
    } else if command == "clear"@ {
        seq![]
    } else if command == "exit"@ {
        echoed.push(line("output", "再见!"@))
    } else {
        echoed.push(line("success", "执行: "@ + command)).push(line("output", "命令执行成功"@))
    }
}

/// `n - 10`, or 0 when `n` is smaller.
pub open spec fn scroll_for(n: nat) -> usize {
    if n >= 10 {
        (n - 10) as usize
    } else {
        0
    }
}

/// The terminal's state, as plain values.
#[verifier::ext_equal]
pub struct AppView {
    pub current_tab: usize,
    pub input: Seq<char>,
    pub history: Seq<(Seq<char>, Seq<char>)>,
    pub logs: Seq<LogEntry>,
    pub mode: Seq<char>,
    pub scroll: usize,
    pub show_new_tab: bool,
    pub new_tab_name: Seq<char>,
}

impl View for TuiApp {
    type V = AppView;

    open spec fn view(&self) -> AppView {
        AppView {
            current_tab: self.current_tab,
            input: self.input@,
            history: pair_views(self.terminal_history@),
            logs: self.logs@,
            mode: self.mode@,
            scroll: self.scroll,
            show_new_tab: self.show_new_tab,
            new_tab_name: self.new_tab_name@,
        }
    }
}

/// The state after running the typed line: nothing changes when it is empty; otherwise
/// the line is echoed and answered, the input emptied, and the view scrolled to the last
/// ten lines.
pub open spec fn run_line(v: AppView) -> AppView {
    if v.input.len() == 0 {
        v
    } else {
        let h = history_after(v.history, v.mode, v.input);
        AppView { history: h, input: seq![], scroll: scroll_for(h.len()), ..v }
    }
}

/// The state after switching the mode: the other mode, with the switch noted.
pub open spec fn switch_mode(v: AppView) -> AppView {
    if v.mode == normal_label() {
        AppView {
            mode: strict_label(),
            history: v.history.push(line("warning", "系统: 已切换到严格模式"@)),
            ..v
        }
    } else {
        AppView {
            mode: normal_label(),
            history: v.history.push(line("success", "系统: 已切换到普通模式"@)),
            ..v
        }
    }
}

/// The state after a key, and whether the terminal goes on: only presses count.  `q`
/// closes the new-terminal dialog or quits; Control-C quits; Tab and Shift-Tab cycle the
/// five panels; `1`..`5` pick one; `m` switches the mode; `n` opens the dialog; Enter
/// closes the dialog (forgetting the name) or runs the input; other characters and
/// Backspace edit the dialog's name or the input; Up and Down scroll within the history.
pub open spec fn key_step(v: AppView, k: KeyInput) -> (AppView, KeyOutcome) {
    if !k.press {
        (v, KeyOutcome::Continue)
    } else {
        match k.key {
            Key::Char(c) => if c == 'q' {
                if v.show_new_tab {
                    (AppView { show_new_tab: false, ..v }, KeyOutcome::Continue)
                } else {
                    (v, KeyOutcome::Quit)
                }
            } else if c == 'c' && k.control {
                (v, KeyOutcome::Quit)
            } else if c == '1' {
                (AppView { current_tab: 0, ..v }, KeyOutcome::Continue)
            } else if c == '2' {
                (AppView { current_tab: 1, ..v }, KeyOutcome::Continue)
            } else if c == '3' {
                (AppView { current_tab: 2, ..v }, KeyOutcome::Continue)
            } else if c == '4' {
                (AppView { current_tab: 3, ..v }, KeyOutcome::Continue)
            } else if c == '5' {
                (AppView { current_tab: 4, ..v }, KeyOutcome::Continue)
            } else if c == 'm' {
                (switch_mode(v), KeyOutcome::Continue)
            } else if c == 'n' {
                (AppView { show_new_tab: true, ..v }, KeyOutcome::Continue)
            } else if v.show_new_tab {
                (AppView { new_tab_name: v.new_tab_name.push(c), ..v }, KeyOutcome::Continue)
            } else {
                (AppView { input: v.input.push(c), ..v }, KeyOutcome::Continue)
            },
            Key::Tab => (
                AppView { current_tab: ((v.current_tab + 1) % 5) as usize, ..v },
                KeyOutcome::Continue,
            ),
            Key::BackTab => (
                AppView { current_tab: ((v.current_tab + 4) % 5) as usize, ..v },
                KeyOutcome::Continue,
            ),
            Key::Enter => if v.show_new_tab {
                (AppView { show_new_tab: false, new_tab_name: seq![], ..v }, KeyOutcome::Continue)
            } else {
                (run_line(v), KeyOutcome::Continue)
            },
            Key::Backspace => if v.show_new_tab {
                (
                    AppView {
                        new_tab_name: if v.new_tab_name.len() > 0 {
                            v.new_tab_name.drop_last()
                        } else {
                            v.new_tab_name
                        },
                        ..v
                    },
                    KeyOutcome::Continue,
                )
            } else {
                (
                    AppView {
                        input: if v.input.len() > 0 {
                            v.input.drop_last()
                        } else {
                            v.input
                        },
                        ..v
                    },
                    KeyOutcome::Continue,
                )
            },
            Key::Up => (
                AppView { scroll: if v.scroll > 0 { (v.scroll - 1) as usize } else { v.scroll }, ..v },
                KeyOutcome::Continue,
            ),
            Key::Down => (
                AppView {
                    scroll: if v.scroll + 1 < v.history.len() {
                        (v.scroll + 1) as usize
                    } else {
                        v.scroll
                    },
                    ..v
                },
                KeyOutcome::Continue,
            ),
            Key::Other => (v, KeyOutcome::Continue),
        }
    }
}

impl TuiApp {
    /// A fresh terminal: the welcome lines, three sample log entries, normal mode, the
    /// first panel, nothing typed.
    pub fn new() -> (app: TuiApp)
        ensures
            app@.history == seq![
                line("info", "🦞 洛璃终端助手 v0.1.0"@),
                line("info", "当前模式: 普通模式"@),
                line("info", "输入 'help' 查看帮助"@),
                line("info", ""@),
            ],
            app.logs@.len() == 3,
            app.logs@[0].timestamp@ == "10:30:45"@ && app.logs@[0].command@ == "ls -la"@
                && app.logs@[0].status == LogStatus::Success,
            app.logs@[1].timestamp@ == "10:28:12"@ && app.logs@[1].command@ == "rm -rf /"@
                && app.logs@[1].status == LogStatus::Error,
            app.logs@[2].timestamp@ == "10:25:33"@ && app.logs@[2].command@
                == "curl http://malicious.com"@ && app.logs@[2].status == LogStatus::Blocked,
            app.current_tab == 0,
            app.input@.len() == 0,
            app.mode@ == normal_label(),
            app.scroll == 0,
            !app.show_new_tab,
            app.new_tab_name@.len() == 0,
    {
        let mut terminal_history: Vec<(String, String)> = Vec::new();
        terminal_history.push((owned("info"), owned("🦞 洛璃终端助手 v0.1.0")));
        terminal_history.push((owned("info"), owned("当前模式: 普通模式")));
        terminal_history.push((owned("info"), owned("输入 'help' 查看帮助")));
        terminal_history.push((owned("info"), owned("")));
        let mut logs: Vec<LogEntry> = Vec::new();
        logs.push(
            LogEntry {
                timestamp: owned("10:30:45"),
                command: owned("ls -la"),
                status: LogStatus::Success,
            },
        );
        logs.push(
            LogEntry {
                timestamp: owned("10:28:12"),
                command: owned("rm -rf /"),
                status: LogStatus::Error,
            },
        );
        logs.push(
            LogEntry {
                timestamp: owned("10:25:33"),
                command: owned("curl http://malicious.com"),
                status: LogStatus::Blocked,
            },
        );
        let app = TuiApp {
            current_tab: 0,
            input: String::new(),
            terminal_history,
            logs,
            mode: owned("普通模式"),
            scroll: 0,
            show_new_tab: false,
            new_tab_name: String::new(),
        };
        assert(app@.history =~= seq![
            line("info", "🦞 洛璃终端助手 v0.1.0"@),
            line("info", "当前模式: 普通模式"@),
            line("info", "输入 'help' 查看帮助"@),
            line("info", ""@),
        ]);
        app
    }

    /// Appends a history line.
    fn push_line(&mut self, kind: &str, text: String)
        ensures
            final(self)@ == (AppView { history: old(self)@.history.push((kind@, text@)), ..old(self)@ }),
    {
        let ghost before = self@.history;
        self.terminal_history.push((owned(kind), text));
        assert(self@.history =~= before.push((kind@, text@)));
    }

    /// Runs the typed line: nothing happens when it is empty; otherwise the line is
    /// echoed and answered (`help`, `mode`, `clear` and `exit` are known; anything else is
    /// reported as run), the input is emptied, and the view scrolls to the last ten lines.
    pub fn execute_command(&mut self)
        ensures
            final(self)@ == run_line(old(self)@),
    {
        let command = self.input.clone();
        if command.as_str().is_empty() {
            return;
        }
        proof {
            reveal_strlit("help");
            reveal_strlit("mode");
            reveal_strlit("clear");
            reveal_strlit("exit");
            assert("help"@[0] != "mode"@[0]);
            assert("help"@.len() != "clear"@.len());
            assert("help"@[0] != "exit"@[0]);
            assert("mode"@.len() != "clear"@.len());
            assert("mode"@[0] != "exit"@[0]);
            assert("clear"@.len() != "exit"@.len());
        }
        let ghost before = self@.history;
        self.push_line("command", concat("luoli> ", command.as_str()));
        if str_eq(command.as_str(), "help") {
            self.push_line("output", owned("可用命令:"));
            self.push_line("output", owned("  help  - 显示帮助"));
            self.push_line("output", owned("  mode  - 查看当前模式"));
            self.push_line("output", owned("  clear - 清屏"));
            self.push_line("output", owned("  exit  - 退出"));
        } else if str_eq(command.as_str(), "mode") {
            let text = concat("当前模式: ", self.mode.as_str());
            self.push_line("output", text);
        } else if str_eq(command.as_str(), "clear") {
            self.terminal_history.clear();
            assert(self@.history =~= Seq::<(Seq<char>, Seq<char>)>::empty());
        } else if str_eq(command.as_str(), "exit") {
            self.push_line("output", owned("再见!"));
        } else {
            self.push_line("success", concat("执行: ", command.as_str()));
            self.push_line("output", owned("命令执行成功"));
        }
        assert(self@.history =~= history_after(before, self.mode@, command@));
        self.input.clear();
        self.scroll = self.terminal_history.len().saturating_sub(10);
    }

    /// Switches between the normal and the strict mode, noting the switch in the history.
    pub fn toggle_mode(&mut self)
        ensures
            final(self)@ == switch_mode(old(self)@),
    {
        if str_eq(self.mode.as_str(), "普通模式") {
            self.mode = owned("严格模式");
            self.push_line("warning", owned("系统: 已切换到严格模式"));
        } else {
            self.mode = owned("普通模式");
            self.push_line("success", owned("系统: 已切换到普通模式"));
        }
    }

    /// Applies a key: only presses count.  `q` closes the new-terminal dialog or quits;
    /// Control-C quits; Tab and Shift-Tab cycle the five panels; `1`..`5` pick one; `m`
    /// switches the mode; `n` opens the dialog; Enter closes the dialog (forgetting the
    /// name) or runs the input; other characters and Backspace edit the dialog's name or
    /// the input; Up and Down scroll within the history.
    pub fn handle_key(&mut self, k: KeyInput) -> (r: KeyOutcome)
        requires
            old(self).current_tab <= usize::MAX - 4,
        ensures
            (final(self)@, r) == key_step(old(self)@, k),
    {
        if !k.press {
            return KeyOutcome::Continue;
        }
        match k.key {
            Key::Char('q') => {
                if self.show_new_tab {
                    self.show_new_tab = false;
                } else {
                    return KeyOutcome::Quit;
                }
            },
            Key::Char('c') if k.control => {
                return KeyOutcome::Quit;
            },
            Key::Tab => {
                self.current_tab = (self.current_tab + 1) % 5;
            },
            Key::BackTab => {
                self.current_tab = (self.current_tab + 4) % 5;
            },
            Key::Char('1') => {
                self.current_tab = 0;
            },
            Key::Char('2') => {
                self.current_tab = 1;
            },
            Key::Char('3') => {
                self.current_tab = 2;
            },
            Key::Char('4') => {
                self.current_tab = 3;
            },
            Key::Char('5') => {
                self.current_tab = 4;
            },
            Key::Char('m') => {
                self.toggle_mode();
            },
            Key::Char('n') => {
                self.show_new_tab = true;
            },
            Key::Enter => {
                if self.show_new_tab {
                    self.show_new_tab = false;
                    self.new_tab_name.clear();
                } else {
                    self.execute_command();
                }
            },
            Key::Char(c) => {
                if self.show_new_tab {
                    self.new_tab_name.push(c);
                } else {
                    self.input.push(c);
                }
            },
            Key::Backspace => {
                if self.show_new_tab {
                    let _ = self.new_tab_name.pop();
                } else {
                    let _ = self.input.pop();
                }
            },
            Key::Up => {
                if self.scroll > 0 {
                    self.scroll = self.scroll - 1;
                }
            },
            Key::Down => {
                if self.scroll < self.terminal_history.len().saturating_sub(1) {
                    self.scroll = self.scroll + 1;
                }
            },
            _ => {},
        }
        KeyOutcome::Continue
    }

    /// The colour of the mode in the status bar: red in strict mode, else green.
    pub fn mode_colour(&self) -> (c: Colour)
        ensures
            c == (if self.mode@ == strict_label() {
                Colour::Red
            } else {
                Colour::Green
            }),
    {
        if str_eq(self.mode.as_str(), "严格模式") {
            Colour::Red
        } else {
            Colour::Green
        }
    }

    /// The status bar's text.
    pub fn status_text(&self) -> (s: String)
        ensures
            s@ == " 模式: "@ + self.mode@ + " | 按 'm' 切换 | 按 'q' 退出 | 按 'n' 新建终端 | Tab 切换面板 "@,
    {
        concat3(
            " 模式: ",
            self.mode.as_str(),
            " | 按 'm' 切换 | 按 'q' 退出 | 按 'n' 新建终端 | Tab 切换面板 ",
        )
    }

    /// The input line's text.
    pub fn input_text(&self) -> (s: String)
        ensures
            s@ == "luoli> "@ + self.input@,
    {
        concat("luoli> ", self.input.as_str())
    }
}

/// Switching the mode twice comes back to the mode one started from (either of the two),
/// with both switches noted in the history and nothing else changed.
pub proof fn law_toggle_twice(v: AppView)
    requires
        v.mode == normal_label() || v.mode == strict_label(),
    ensures
        switch_mode(switch_mode(v)).mode == v.mode,
        switch_mode(switch_mode(v)).history.len() == v.history.len() + 2,
        switch_mode(switch_mode(v)).history.take(v.history.len() as int) == v.history,
        (AppView {
            mode: v.mode,
            history: v.history,
            ..switch_mode(switch_mode(v))
        }) == v,
{
    reveal_strlit("普通模式");
    reveal_strlit("严格模式");
    assert("普通模式"@[0] != "严格模式"@[0]);
    let w = switch_mode(switch_mode(v));
    assert(w.history.take(v.history.len() as int) =~= v.history);
}

/// The colour of a history line of kind `kind`.
pub open spec fn line_colour(kind: Seq<char>) -> Colour {
    if kind == "command"@ {
        Colour::Yellow
    } else if kind == "error"@ {
        Colour::Red
    } else if kind == "success"@ {
        Colour::Green
    } else if kind == "warning"@ {
        Colour::Magenta
    } else if kind == "info"@ {
        Colour::Cyan
    } else {
        Colour::White
    }
}

/// The colour of a history line of kind `kind`.
pub fn history_colour(kind: &str) -> (c: Colour)
    ensures
        c == line_colour(kind@),
{
    if str_eq(kind, "command") {
        Colour::Yellow
    } else if str_eq(kind, "error") {
        Colour::Red
    } else if str_eq(kind, "success") {
        Colour::Green
    } else if str_eq(kind, "warning") {
        Colour::Magenta
    } else if str_eq(kind, "info") {
        Colour::Cyan
    } else {
        Colour::White
    }
}

/// The mark and colour of a log entry in the side panel.
pub open spec fn log_mark(s: LogStatus) -> (Seq<char>, Colour) {
    match s {
        LogStatus::Success => ("✓"@, Colour::Green),
        LogStatus::Error => ("✗"@, Colour::Red),
        LogStatus::Blocked => ("⊘"@, Colour::Magenta),
    }
}

/// The side panel's line for a log entry, and its colour.
pub fn log_line(entry: &LogEntry) -> (r: (String, Colour))
    ensures
        r.0@ == entry.timestamp@ + " "@ + log_mark(entry.status).0 + " "@ + entry.command@,
        r.1 == log_mark(entry.status).1,
{
    let (mark, colour) = match entry.status {
        LogStatus::Success => ("✓", Colour::Green),
        LogStatus::Error => ("✗", Colour::Red),
        LogStatus::Blocked => ("⊘", Colour::Magenta),
    };
    let mut s = concat3(entry.timestamp.as_str(), " ", mark);
    s.append(" ");
    s.append(entry.command.as_str());
    (s, colour)
}

/// The shares of a centred box of `percent` (at most 100) of the space: the margin
/// before, the box, the margin after.
pub fn centred_shares(percent: u16) -> (r: (u16, u16, u16))
    requires
        percent <= 100,
    ensures
        r.0 == (100 - percent) / 2,
        r.1 == percent,
        r.2 == (100 - percent) / 2,
{
    ((100 - percent) / 2, percent, (100 - percent) / 2)
}

/// A key press without Control.
pub open spec fn press(key: Key) -> KeyInput {
    KeyInput { key, control: false, press: true }
}

/// Backspace edits the field that typing edits: the dialog's name while the new-terminal
/// dialog is shown, the input line otherwise, dropping its last character and leaving
/// the other field alone; so typing a plain character and then Backspace gives back the
/// state one started from.
pub proof fn law_backspace_undoes_typing(v: AppView, c: char)
    requires
        c != 'q' && c != '1' && c != '2' && c != '3' && c != '4' && c != '5' && c != 'm' && c
            != 'n',
    ensures
        key_step(key_step(v, press(Key::Char(c))).0, press(Key::Backspace)).0 == v,
        v.show_new_tab ==> key_step(v, press(Key::Backspace)).0.input == v.input,
        v.show_new_tab && v.new_tab_name.len() > 0 ==> key_step(v, press(Key::Backspace)).0.new_tab_name
            == v.new_tab_name.drop_last(),
        !v.show_new_tab ==> key_step(v, press(Key::Backspace)).0.new_tab_name == v.new_tab_name,
        !v.show_new_tab && v.input.len() > 0 ==> key_step(v, press(Key::Backspace)).0.input
            == v.input.drop_last(),
{
    let w = key_step(v, press(Key::Char(c))).0;
    if v.show_new_tab {
        assert(w.new_tab_name.drop_last() =~= v.new_tab_name);
    } else {
        assert(w.input.drop_last() =~= v.input);
    }
    assert(key_step(w, press(Key::Backspace)).0 =~= v);
}

} // verus!
