//! The decisions of the console program: how it starts, what a typed
//! command asks for, and how the download history is listed.

use vstd::prelude::*;

use crate::text::{
    opt_view, decimal_repr, eq_ignore_ascii_case, lower_seq, str_eq, string_push, string_push_str,
    to_ascii_lowercase, trim, trim_seq, u64_to_string,
};

verus! {

/// Whether the value of a yes/no environment variable means yes: `1`,
/// `true`, `yes` or `on`, without surrounding whitespace, in any ASCII case.
pub open spec fn env_flag_value(v: Seq<char>) -> bool {
    let l = lower_seq(trim_seq(v));
    l == "1"@ || l == "true"@ || l == "yes"@ || l == "on"@
}

/// Whether the value `v` of a yes/no environment variable means yes.
pub fn parse_env_flag(v: &str) -> (r: bool)
    ensures
        r == env_flag_value(v@),
{
    let t = trim(v);
    let l = to_ascii_lowercase(t.as_str());
    let s = l.as_str();
    str_eq(s, "1") || str_eq(s, "true") || str_eq(s, "yes") || str_eq(s, "on")
}

/// What the program does first, from its command-line switches.
#[derive(Clone, Copy, Debug, PartialEq, Eq, Structural)]
pub enum StartupRoute {
    /// Print the version and stop.
    ShowVersion,
    /// Run the self-update (answering yes by itself when asked to) and stop.
    SelfUpdate(bool),
    /// `--download` and `--update` were both given: stop with an error.
    Conflict,
    /// Go on starting.
    Continue,
}

/// The first decision of the program: the version switch wins, then the
/// self-update, then the conflict of `--download` with `--update`.
pub open spec fn startup_route_spec(
    version: bool,
    self_update: bool,
    self_update_yes: bool,
    has_download: bool,
    has_update: bool,
) -> StartupRoute {
    if version {
        StartupRoute::ShowVersion
    } else if self_update {
        StartupRoute::SelfUpdate(self_update_yes)
    } else if has_download && has_update {
        StartupRoute::Conflict
    } else {
        StartupRoute::Continue
    }
}

/// The first decision of the program.
pub fn startup_route(
    version: bool,
    self_update: bool,
    self_update_yes: bool,
    has_download: bool,
    has_update: bool,
) -> (r: StartupRoute)
    ensures
        r == startup_route_spec(version, self_update, self_update_yes, has_download, has_update),
{
    if version {
        StartupRoute::ShowVersion
    } else if self_update {
        StartupRoute::SelfUpdate(self_update_yes)
    } else if has_download && has_update {
        StartupRoute::Conflict
    } else {
        StartupRoute::Continue
    }
}

/// The message for `--download` together with `--update`.
pub fn conflict_message() -> (r: &'static str)
    ensures
        r@ == "--download и --update нельзя использовать одновременно"@,
{
    "--download и --update нельзя использовать одновременно"
}

/// What the program runs once it has started.
#[derive(Clone, Copy, Debug, PartialEq, Eq, Structural)]
pub enum RunRoute {
    /// New downloads from the command line are refused.
    DownloadDisabled,
    /// Update the book given with `--update`, without questions.
    UpdateBook,
    /// Serve the web interface.
    Server,
    /// The plain console menus.
    OldCli,
    /// The full-screen interface.
    Tui,
}

/// The second decision of the program: a download request is refused, an
/// update request runs alone, then the server switch, then the interface
/// that the settings choose.
pub open spec fn run_route_spec(has_download: bool, has_update: bool, server: bool, old_cli: bool) -> RunRoute {
    if has_download {
        RunRoute::DownloadDisabled
    } else if has_update {
        RunRoute::UpdateBook
    } else if server {
        RunRoute::Server
    } else if old_cli {
        RunRoute::OldCli
    } else {
        RunRoute::Tui
    }
}

/// The second decision of the program.
pub fn run_route(has_download: bool, has_update: bool, server: bool, old_cli: bool) -> (r: RunRoute)
    ensures
        r == run_route_spec(has_download, has_update, server, old_cli),
{
    if has_download {
        RunRoute::DownloadDisabled
    } else if has_update {
        RunRoute::UpdateBook
    } else if server {
        RunRoute::Server
    } else if old_cli {
        RunRoute::OldCli
    } else {
        RunRoute::Tui
    }
}

/// A command of the console main menu.
#[derive(Clone, Copy, Debug, PartialEq, Eq, Structural)]
pub enum MenuCommand {
    /// Nothing was typed: ask again.
    Nothing,
    Quit,
    Settings,
    History,
    UpdateBooks,
    CheckAppUpdate,
    SelfUpdate,
    /// Anything else: new downloads are not offered here.
    Unsupported,
}

/// The command typed as `input`: an exact capital `U` asks for the
/// self-update, as the prompt announces; otherwise letters are compared
/// without ASCII case, in the order `q s h u c`.
pub open spec fn menu_command(input: Seq<char>) -> MenuCommand {
    let t = trim_seq(input);
    let l = lower_seq(t);
    if t.len() == 0 {
        MenuCommand::Nothing
    } else if t == "U"@ {
        MenuCommand::SelfUpdate
    } else if l == "q"@ {
        MenuCommand::Quit
    } else if l == "s"@ {
        MenuCommand::Settings
    } else if l == "h"@ {
        MenuCommand::History
    } else if l == "u"@ {
        MenuCommand::UpdateBooks
    } else if l == "c"@ {
        MenuCommand::CheckAppUpdate
    } else {
        MenuCommand::Unsupported
    }
}

/// The command typed as `input` in the console main menu.
pub fn parse_menu_command(input: &str) -> (r: MenuCommand)
    ensures
        r == menu_command(input@),
{
    let t = trim(input);
    let s = t.as_str();
    if s.is_empty() {
        return MenuCommand::Nothing;
    }
    proof {
        reveal_strlit("q");
        reveal_strlit("s");
        reveal_strlit("h");
        reveal_strlit("u");
        reveal_strlit("c");
        assert(lower_seq("q"@) =~= "q"@);
        assert(lower_seq("s"@) =~= "s"@);
        assert(lower_seq("h"@) =~= "h"@);
        assert(lower_seq("u"@) =~= "u"@);
        assert(lower_seq("c"@) =~= "c"@);
    }
    if str_eq(s, "U") {
        MenuCommand::SelfUpdate
    } else if eq_ignore_ascii_case(s, "q") {
        MenuCommand::Quit
    } else if eq_ignore_ascii_case(s, "s") {
        MenuCommand::Settings
    } else if eq_ignore_ascii_case(s, "h") {
        MenuCommand::History
    } else if eq_ignore_ascii_case(s, "u") {
        MenuCommand::UpdateBooks
    } else if eq_ignore_ascii_case(s, "c") {
        MenuCommand::CheckAppUpdate
    } else {
        MenuCommand::Unsupported
    }
}

/// Whether the menu shows the prewarm failure `current`, given the one it
/// showed last: only a failure that differs from the last one shown.
pub fn should_show_iid_error(current: Option<&str>, shown: Option<&str>) -> (r: bool)
    ensures
        r == match current {
            Some(c) => match shown {
                Some(s) => c@ != s@,
                None => true,
            },
            None => false,
        },
{
    match current {
        Some(c) => match shown {
            Some(s) => !str_eq(c, s),
            None => true,
        },
        None => false,
    }
}

/// Whether the answer `ans` is yes: `y` or `yes`, in any ASCII case.
pub open spec fn yes_answer(ans: Seq<char>) -> bool {
    let l = lower_seq(trim_seq(ans));
    l == "y"@ || l == "yes"@
}

/// Whether the answer `ans` is yes.
pub fn is_yes_answer(ans: &str) -> (r: bool)
    ensures
        r == yes_answer(ans@),
{
    let t = trim(ans);
    let l = to_ascii_lowercase(t.as_str());
    str_eq(l.as_str(), "y") || str_eq(l.as_str(), "yes")
}

/// A command of the download history screen.
#[derive(Clone, Copy, Debug, PartialEq, Eq, Structural)]
pub enum HistoryCommand {
    /// Show the list again.
    Refresh,
    /// Leave the history.
    Back,
    /// Ask for a filter keyword.
    SetFilter,
    /// Drop the filter.
    ClearFilter,
}

/// The command typed as `input` on the history screen: `q f c` in any ASCII
/// case; anything else shows the list again.
pub open spec fn history_command(input: Seq<char>) -> HistoryCommand {
    let l = lower_seq(trim_seq(input));
    if l == "q"@ {
        HistoryCommand::Back
    } else if l == "f"@ {
        HistoryCommand::SetFilter
    } else if l == "c"@ {
        HistoryCommand::ClearFilter
    } else {
        HistoryCommand::Refresh
    }
}

/// The command typed as `input` on the history screen.
pub fn parse_history_command(input: &str) -> (r: HistoryCommand)
    ensures
        r == history_command(input@),
{
    let t = trim(input);
    proof {
        reveal_strlit("q");
        reveal_strlit("f");
        reveal_strlit("c");
        assert(lower_seq("q"@) =~= "q"@);
        assert(lower_seq("f"@) =~= "f"@);
        assert(lower_seq("c"@) =~= "c"@);
    }
    if eq_ignore_ascii_case(t.as_str(), "q") {
        HistoryCommand::Back
    } else if eq_ignore_ascii_case(t.as_str(), "f") {
        HistoryCommand::SetFilter
    } else if eq_ignore_ascii_case(t.as_str(), "c") {
        HistoryCommand::ClearFilter
    } else {
        HistoryCommand::Refresh
    }
}

/// The filter keyword typed as `input`: trimmed, and none when blank (the
/// filter then stays as it was).
pub fn filter_keyword(input: &str) -> (r: Option<String>)
    ensures
        match r {
            Some(k) => k@ == trim_seq(input@) && k@.len() > 0,
            None => trim_seq(input@).len() == 0,
        },
{
    let t = trim(input);
    if t.as_str().is_empty() {
        None
    } else {
        Some(t)
    }
}

/// What the history screen does after a command.
#[derive(Clone, Debug, PartialEq, Eq)]
pub struct HistoryStep {
    /// The filter keyword from now on.
    pub filter: Option<String>,
    /// Whether the screen is left; otherwise the list is shown again.
    pub leave: bool,
    /// Whether a filter keyword was asked for and came back blank, so that
    /// the screen says the filter stays.
    pub blank_keyword: bool,
}

/// The step of the history screen from the filter `filter` on `command`;
/// `keyword` is the text typed when a filter is asked for.
pub open spec fn history_step_spec(
    filter: Option<Seq<char>>,
    command: HistoryCommand,
    keyword: Option<Seq<char>>,
) -> (Option<Seq<char>>, bool, bool) {
    match command {
        HistoryCommand::Refresh => (filter, false, false),
        HistoryCommand::Back => (filter, true, false),
        HistoryCommand::ClearFilter => (None, false, false),
        HistoryCommand::SetFilter => {
            let k = match keyword {
                Some(t) => trim_seq(t),
                None => Seq::<char>::empty(),
            };
            if k.len() == 0 {
                (filter, false, true)
            } else {
                (Some(k), false, false)
            }
        },
    }
}

/// The step of the history screen from the filter `filter` on `command`,
/// with `keyword` the text typed when a filter was asked for: a blank
/// keyword keeps the filter, `c` drops it, `q` leaves.
pub fn history_step(filter: Option<String>, command: HistoryCommand, keyword: Option<&str>) -> (r: HistoryStep)
    ensures
        (opt_view(r.filter), r.leave, r.blank_keyword) == history_step_spec(
            opt_view(filter),
            command,
            match keyword {
                Some(t) => Some(t@),
                None => None,
            },
        ),
{
    match command {
        HistoryCommand::Refresh => HistoryStep { filter, leave: false, blank_keyword: false },
        HistoryCommand::Back => HistoryStep { filter, leave: true, blank_keyword: false },
        HistoryCommand::ClearFilter => HistoryStep { filter: None, leave: false, blank_keyword: false },
        HistoryCommand::SetFilter => {
            let k = match keyword {
                Some(t) => filter_keyword(t),
                None => None,
            };
            match k {
                Some(k) => HistoryStep { filter: Some(k), leave: false, blank_keyword: false },
                None => HistoryStep { filter, leave: false, blank_keyword: true },
            }
        },
    }
}

/// A finished or attempted download, as the history records it.
pub struct HistoryItem {
    pub timestamp: String,
    pub book_name: String,
    pub book_id: String,
    pub author: String,
    pub progress: String,
    pub status: String,
}

/// `n` in decimal, right-aligned in two columns.
pub open spec fn padded_number(n: nat) -> Seq<char> {
    if n < 10 {
        " "@ + decimal_repr(n)
    } else {
        decimal_repr(n)
    }
}

/// The history line of `item` at position `n` (from 1): the author, trimmed,
/// reads "неизвестен" when blank.
pub open spec fn history_line_text(
    n: nat,
    timestamp: Seq<char>,
    book_name: Seq<char>,
    book_id: Seq<char>,
    author: Seq<char>,
    progress: Seq<char>,
    status: Seq<char>,
) -> Seq<char> {
    let a = if trim_seq(author).len() == 0 {
        "неизвестен"@
    } else {
        trim_seq(author)
    };
    padded_number(n) + ". ["@ + timestamp + "] «"@ + book_name + "» ("@ + book_id + ") | автор: "@
        + a + " | "@ + progress + " | статус: "@ + status
}

/// The history line of `item` at position `n` (from 1).
pub fn history_line(n: u64, item: &HistoryItem) -> (r: String)
    ensures
        r@ == history_line_text(
            n as nat,
            item.timestamp@,
            item.book_name@,
            item.book_id@,
            item.author@,
            item.progress@,
            item.status@,
        ),
{
    let mut s = String::new();
    if n < 10 {
        string_push(&mut s, ' ');
    }
    let num = u64_to_string(n);
    string_push_str(&mut s, num.as_str());
    string_push_str(&mut s, ". [");
    string_push_str(&mut s, item.timestamp.as_str());
    string_push_str(&mut s, "] «");
    string_push_str(&mut s, item.book_name.as_str());
    string_push_str(&mut s, "» (");
    string_push_str(&mut s, item.book_id.as_str());
    string_push_str(&mut s, ") | автор: ");
    let author = trim(item.author.as_str());
    if author.as_str().is_empty() {
        string_push_str(&mut s, "неизвестен");
    } else {
        string_push_str(&mut s, author.as_str());
    }
    string_push_str(&mut s, " | ");
    string_push_str(&mut s, item.progress.as_str());
    string_push_str(&mut s, " | статус: ");
    string_push_str(&mut s, item.status.as_str());
    proof {
        reveal_strlit(" ");
        if n < 10 {
            assert(seq![' '] =~= " "@);
        }
    }
    s
}

/// How the start-up switches decide: `--version` wins over everything; then
/// `--self-update` runs the self-update, answering yes by itself exactly
/// when `--self-update-yes` was given; then `--download` with `--update` is
/// a conflict; anything else goes on starting.
pub proof fn law_startup_switches(self_update: bool, yes: bool, has_download: bool, has_update: bool)
    ensures
        startup_route_spec(true, self_update, yes, has_download, has_update)
            == StartupRoute::ShowVersion,
        startup_route_spec(false, true, yes, has_download, has_update) == StartupRoute::SelfUpdate(
            yes,
        ),
        startup_route_spec(false, true, true, has_download, has_update) != startup_route_spec(
            false,
            true,
            false,
            has_download,
            has_update,
        ),
        startup_route_spec(false, false, yes, true, true) == StartupRoute::Conflict,
        !(has_download && has_update) ==> startup_route_spec(
            false,
            false,
            yes,
            has_download,
            has_update,
        ) == StartupRoute::Continue,
{
}

/// How the program goes on once started: a download request is refused,
/// an update request runs alone, then the server switch wins, then the
/// plain console when the settings ask for it, else the full-screen
/// interface.
pub proof fn law_run_switches(has_update: bool, server: bool, old_cli: bool)
    ensures
        run_route_spec(true, has_update, server, old_cli) == RunRoute::DownloadDisabled,
        run_route_spec(false, true, server, old_cli) == RunRoute::UpdateBook,
        run_route_spec(false, false, true, old_cli) == RunRoute::Server,
        run_route_spec(false, false, false, true) == RunRoute::OldCli,
        run_route_spec(false, false, false, false) == RunRoute::Tui,
{
}

/// A yes/no environment variable means yes for `1`, `true`, `yes` and `on`
/// and no for `0`, `false`, `no`, `off` and an empty value, in any ASCII
/// case and with surrounding whitespace.
pub proof fn law_env_flag_words(v: Seq<char>)
    ensures
        ({
            let l = lower_seq(trim_seq(v));
            l == "1"@ || l == "true"@ || l == "yes"@ || l == "on"@
        }) ==> env_flag_value(v),
        ({
            let l = lower_seq(trim_seq(v));
            l == "0"@ || l == "false"@ || l == "no"@ || l == "off"@ || l.len() == 0
        }) ==> !env_flag_value(v),
{
    reveal_strlit("1");
    reveal_strlit("true");
    reveal_strlit("yes");
    reveal_strlit("on");
    reveal_strlit("0");
    reveal_strlit("false");
    reveal_strlit("no");
    reveal_strlit("off");
    assert("0"@[0] != "1"@[0]);
    assert("0"@.len() != "true"@.len());
    assert("0"@.len() != "yes"@.len());
    assert("0"@.len() != "on"@.len());
    assert("false"@.len() != "1"@.len());
    assert("false"@.len() != "true"@.len());
    assert("false"@.len() != "yes"@.len());
    assert("false"@.len() != "on"@.len());
    assert("no"@.len() != "1"@.len());
    assert("no"@.len() != "true"@.len());
    assert("no"@.len() != "yes"@.len());
    assert("no"@[0] != "on"@[0]);
    assert("off"@.len() != "1"@.len());
    assert("off"@.len() != "true"@.len());
    assert("off"@[0] != "yes"@[0]);
    assert("off"@.len() != "on"@.len());
    assert("1"@.len() > 0);
    assert("true"@.len() > 0);
    assert("yes"@.len() > 0);
    assert("on"@.len() > 0);
}

/// A yes/no question takes `y` and `yes` as yes and `n`, `no` and an empty
/// answer as no, in any ASCII case and with surrounding whitespace.
pub proof fn law_yes_answer_words(ans: Seq<char>)
    ensures
        ({
            let l = lower_seq(trim_seq(ans));
            l == "y"@ || l == "yes"@
        }) ==> yes_answer(ans),
        ({
            let l = lower_seq(trim_seq(ans));
            l == "n"@ || l == "no"@ || l.len() == 0
        }) ==> !yes_answer(ans),
{
    reveal_strlit("y");
    reveal_strlit("yes");
    reveal_strlit("n");
    reveal_strlit("no");
    assert("n"@[0] != "y"@[0]);
    assert("n"@.len() != "yes"@.len());
    assert("no"@.len() != "y"@.len());
    assert("no"@.len() != "yes"@.len());
    assert("y"@.len() > 0);
    assert("yes"@.len() > 0);
}

/// The letters of the console main menu, with surrounding whitespace: a
/// capital `U` alone asks for the self-update; otherwise `q`, `s`, `h`, `u`
/// and `c`, in either case, quit, open the settings, the history, the book
/// updates and the release check; nothing typed does nothing.
pub proof fn law_menu_letters(input: Seq<char>)
    ensures
        trim_seq(input).len() == 0 ==> menu_command(input) == MenuCommand::Nothing,
        trim_seq(input) == "U"@ ==> menu_command(input) == MenuCommand::SelfUpdate,
        trim_seq(input) != "U"@ && lower_seq(trim_seq(input)) == "u"@ ==> menu_command(input)
            == MenuCommand::UpdateBooks,
        lower_seq(trim_seq(input)) == "q"@ ==> menu_command(input) == MenuCommand::Quit,
        lower_seq(trim_seq(input)) == "s"@ ==> menu_command(input) == MenuCommand::Settings,
        lower_seq(trim_seq(input)) == "h"@ ==> menu_command(input) == MenuCommand::History,
        lower_seq(trim_seq(input)) == "c"@ ==> menu_command(input) == MenuCommand::CheckAppUpdate,
{
    reveal_strlit("U");
    reveal_strlit("q");
    reveal_strlit("s");
    reveal_strlit("h");
    reveal_strlit("u");
    reveal_strlit("c");
    let t = trim_seq(input);
    assert("q"@[0] != "s"@[0]);
    assert("q"@[0] != "u"@[0]);
    assert("s"@[0] != "u"@[0]);
    assert("h"@[0] != "q"@[0]);
    assert("h"@[0] != "s"@[0]);
    assert("h"@[0] != "u"@[0]);
    assert("c"@[0] != "q"@[0]);
    assert("c"@[0] != "s"@[0]);
    assert("c"@[0] != "h"@[0]);
    assert("c"@[0] != "u"@[0]);
    assert("U"@.len() == 1);
    if t == "U"@ {
        assert(lower_seq(t)[0] == 'u');
    }
    assert(lower_seq(t).len() == t.len());
}

} // verus!
