//! The About page of the full-screen interface: its text, and what its
//! buttons, keys and mouse clicks do.

use vstd::prelude::*;

use crate::release_notes::{preview_notes, preview_text};
use crate::text::{
    contains_seq, lemma_contains_within, occurs_at, opt_view, string_push_str, trim, trim_seq,
};

verus! {

/// What the last update check found.
#[derive(Clone, Debug)]
pub struct UpdateReport {
    pub current_tag: String,
    pub latest_tag: String,
    pub is_new_version: bool,
    pub is_dismissed: bool,
    pub html_url: Option<String>,
    pub body: Option<String>,
}

/// The repository of the program.
pub const REPO_URL: &'static str = "https://github.com/zhongbai2333/Tomato-Novel-Downloader";

/// The fixed head of the About text, up to the version line.
pub open spec fn about_head(version: Seq<char>) -> Seq<char> {
    "Репозиторий: https://github.com/zhongbai2333/Tomato-Novel-Downloader\n"@
        + "Fork From: https://github.com/Dlmily/Tomato-Novel-Downloader-Lite\n"@
        + "Автор: zhongbai2333\n"@
        + "Проект предназначен только для обучения и обмена опытом. Не используйте в коммерческих или незаконных целях.\n"@
        + "\nТекущая версия: v"@ + version + "\n"@
}

/// The notice that the program is free, shown by builds with the official
/// API.
pub open spec fn free_notice() -> Seq<char> {
    "\n===== Бесплатность =====\n"@
        + "Программа полностью бесплатна. Официальный репозиторий: https://github.com/zhongbai2333/Tomato-Novel-Downloader\n"@
        + "Если вы за неё заплатили — вас обманули.\n"@
}

/// The first lines of the update section: the two releases, the status and
/// whether the reminders were stopped.
pub open spec fn report_head(current_tag: Seq<char>, latest_tag: Seq<char>, is_new_version: bool, is_dismissed: bool) -> Seq<char> {
    let status = if is_new_version {
        "Статус: есть новая версия\n"@
    } else {
        "Статус: уже актуальная версия\n"@
    };
    let dismissed = if is_dismissed {
        "Подсказка: напоминание об этой версии отключено (ручная проверка всё ещё доступна)\n"@
    } else {
        Seq::<char>::empty()
    };
    "Текущая: "@ + current_tag + "\n"@ + "Последняя: "@ + latest_tag + "\n"@ + status + dismissed
}

/// The update section for a report.
pub open spec fn report_text(
    current_tag: Seq<char>,
    latest_tag: Seq<char>,
    is_new_version: bool,
    is_dismissed: bool,
    html_url: Option<Seq<char>>,
    body: Option<Seq<char>>,
) -> Seq<char> {
    report_head(current_tag, latest_tag, is_new_version, is_dismissed) + url_text(html_url) + notes_text(body)
}

/// The text of the About page for the program `version`: the project, the
/// free notice when `official_api`, and the update section, which in a
/// `docker` build only says how to update the image.
pub open spec fn about_text_spec(
    version: Seq<char>,
    official_api: bool,
    docker: bool,
    report: Option<(Seq<char>, Seq<char>, bool, bool, Option<Seq<char>>, Option<Seq<char>>)>,
) -> Seq<char> {
    let free = if official_api {
        free_notice()
    } else {
        Seq::<char>::empty()
    };
    let updates = if docker {
        "В Docker-сборке автообновление отключено. Обновите образ (docker pull).\n"@
    } else {
        match report {
            Some(r) => report_text(r.0, r.1, r.2, r.3, r.4, r.5),
            None => "Обновления не проверялись (нажмите «Проверить обновления»)\n"@,
        }
    };
    about_head(version) + free + "\n===== Обновления =====\n"@ + updates
}

/// A report as plain values.
pub open spec fn report_view(r: UpdateReport) -> (Seq<char>, Seq<char>, bool, bool, Option<Seq<char>>, Option<Seq<char>>) {
    (r.current_tag@, r.latest_tag@, r.is_new_version, r.is_dismissed, opt_view(r.html_url), opt_view(r.body))
}

/// An optional report as plain values.
pub open spec fn opt_report_view(r: Option<UpdateReport>) -> Option<(Seq<char>, Seq<char>, bool, bool, Option<Seq<char>>, Option<Seq<char>>)> {
    match r {
        Some(x) => Some(report_view(x)),
        None => None,
    }
}

fn push_report_head(text: &mut String, rep: &UpdateReport)
    ensures
        final(text)@ == old(text)@ + report_head(rep.current_tag@, rep.latest_tag@, rep.is_new_version, rep.is_dismissed),
{
    string_push_str(text, "Текущая: ");
    string_push_str(text, rep.current_tag.as_str());
    string_push_str(text, "\n");
    string_push_str(text, "Последняя: ");
    string_push_str(text, rep.latest_tag.as_str());
    string_push_str(text, "\n");
    if rep.is_new_version {
        string_push_str(text, "Статус: есть новая версия\n");
    } else {
        string_push_str(text, "Статус: уже актуальная версия\n");
    }
    if rep.is_dismissed {
        string_push_str(
            text,
            "Подсказка: напоминание об этой версии отключено (ручная проверка всё ещё доступна)\n",
        );
    }
    assert(text@ =~= old(text)@ + report_head(rep.current_tag@, rep.latest_tag@, rep.is_new_version, rep.is_dismissed));
}

fn push_report(text: &mut String, rep: &UpdateReport)
    ensures
        final(text)@ == old(text)@ + report_text(
            rep.current_tag@,
            rep.latest_tag@,
            rep.is_new_version,
            rep.is_dismissed,
            opt_view(rep.html_url),
            opt_view(rep.body),
        ),
{
    push_report_head(text, rep);
    push_url(text, &rep.html_url);
    push_notes(text, &rep.body);
    assert(text@ =~= old(text)@ + report_text(
        rep.current_tag@,
        rep.latest_tag@,
        rep.is_new_version,
        rep.is_dismissed,
        opt_view(rep.html_url),
        opt_view(rep.body),
    ));
}

/// The release link line of a report.
pub open spec fn url_text(html_url: Option<Seq<char>>) -> Seq<char> {
    match html_url {
        Some(u) => if trim_seq(u).len() > 0 {
            "Release: "@ + u + "\n"@
        } else {
            Seq::<char>::empty()
        },
        None => Seq::<char>::empty(),
    }
}

/// The change-log excerpt of a report.
pub open spec fn notes_text(body: Option<Seq<char>>) -> Seq<char> {
    match body {
        Some(b) => if trim_seq(b).len() > 0 {
            "\nСписок изменений (фрагмент):\n"@ + preview_text(trim_seq(b), 16, 1800) + "\n"@
        } else {
            Seq::<char>::empty()
        },
        None => Seq::<char>::empty(),
    }
}

fn push_url(text: &mut String, html_url: &Option<String>)
    ensures
        final(text)@ == old(text)@ + url_text(opt_view(*html_url)),
{
    match html_url {
        Some(url) => {
            let t = trim(url.as_str());
            if !t.as_str().is_empty() {
                string_push_str(text, "Release: ");
                string_push_str(text, url.as_str());
                string_push_str(text, "\n");
                assert(text@ =~= old(text)@ + url_text(opt_view(*html_url)));
            } else {
                assert(text@ =~= old(text)@ + url_text(opt_view(*html_url)));
            }
        },
        None => {
            assert(text@ =~= old(text)@ + url_text(opt_view(*html_url)));
        },
    }
}

fn push_notes(text: &mut String, body: &Option<String>)
    ensures
        final(text)@ == old(text)@ + notes_text(opt_view(*body)),
{
    match body {
        Some(body) => {
            let b = trim(body.as_str());
            if !b.as_str().is_empty() {
                string_push_str(text, "\nСписок изменений (фрагмент):\n");
                let p = preview_notes(b.as_str(), 16, 1800);
                string_push_str(text, p.as_str());
                string_push_str(text, "\n");
                assert(text@ =~= old(text)@ + notes_text(Some(body@)));
            } else {
                assert(text@ =~= old(text)@ + notes_text(Some(body@)));
            }
        },
        None => {
            assert(text@ =~= old(text)@ + notes_text(opt_view(*body)));
        },
    }
}

/// The text of the About page.
pub fn about_text(version: &str, official_api: bool, docker: bool, report: &Option<UpdateReport>) -> (r: String)
    ensures
        r@ == about_text_spec(version@, official_api, docker, opt_report_view(*report)),
{
    let mut text = String::new();
    string_push_str(&mut text, "Репозиторий: https://github.com/zhongbai2333/Tomato-Novel-Downloader\n");
    string_push_str(&mut text, "Fork From: https://github.com/Dlmily/Tomato-Novel-Downloader-Lite\n");
    string_push_str(&mut text, "Автор: zhongbai2333\n");
    string_push_str(
        &mut text,
        "Проект предназначен только для обучения и обмена опытом. Не используйте в коммерческих или незаконных целях.\n",
    );
    string_push_str(&mut text, "\nТекущая версия: v");
    string_push_str(&mut text, version);
    string_push_str(&mut text, "\n");
    let ghost head = text@;
    if official_api {
        string_push_str(&mut text, "\n===== Бесплатность =====\n");
        string_push_str(
            &mut text,
            "Программа полностью бесплатна. Официальный репозиторий: https://github.com/zhongbai2333/Tomato-Novel-Downloader\n",
        );
        string_push_str(&mut text, "Если вы за неё заплатили — вас обманули.\n");
    }
    string_push_str(&mut text, "\n===== Обновления =====\n");
    if docker {
        string_push_str(
            &mut text,
            "В Docker-сборке автообновление отключено. Обновите образ (docker pull).\n",
        );
    } else {
        match report {
            Some(rep) => push_report(&mut text, rep),
            None => string_push_str(
                &mut text,
                "Обновления не проверялись (нажмите «Проверить обновления»)\n",
            ),
        }
    }
    proof {
        assert(head =~= about_head(version@));
        assert(text@ =~= about_text_spec(version@, official_api, docker, opt_report_view(*report)));
    }
    text
}


/// A screen rectangle.
#[derive(Clone, Copy, Debug, PartialEq, Eq, Structural)]
pub struct Area {
    pub x: u16,
    pub y: u16,
    pub width: u16,
    pub height: u16,
}

/// The state of the About page that its buttons read and change.
pub struct AboutPage {
    /// The selected button.
    pub selected: Option<usize>,
    /// Whether the page was left for the home screen.
    pub at_home: bool,
    pub status: String,
    pub report: Option<UpdateReport>,
    pub self_update_requested: bool,
    pub self_update_auto_yes: bool,
    pub should_quit: bool,
    /// Where the buttons were drawn last.
    pub last_buttons: Option<Area>,
}

/// [`AboutPage`] as plain values.
pub struct AboutView {
    pub selected: Option<usize>,
    pub at_home: bool,
    pub status: Seq<char>,
    pub report: Option<(Seq<char>, Seq<char>, bool, bool, Option<Seq<char>>, Option<Seq<char>>)>,
    pub self_update_requested: bool,
    pub self_update_auto_yes: bool,
    pub should_quit: bool,
    pub last_buttons: Option<Area>,
}

impl View for AboutPage {
    type V = AboutView;

    open spec fn view(&self) -> AboutView {
        AboutView {
            selected: self.selected,
            at_home: self.at_home,
            status: self.status@,
            report: opt_report_view(self.report),
            self_update_requested: self.self_update_requested,
            self_update_auto_yes: self.self_update_auto_yes,
            should_quit: self.should_quit,
            last_buttons: self.last_buttons,
        }
    }
}

/// What the caller does after an event of the About page.
#[derive(Debug)]
pub enum AboutEffect {
    Nothing,
    /// Open the repository in the browser.
    OpenRepo,
    /// Start checking for an update.
    StartUpdateCheck,
    /// Stop reminding of this release, then call [`finish_dismiss`].
    Dismiss(String),
}

/// [`AboutEffect`] as plain values.
pub enum AboutEffectView {
    Nothing,
    OpenRepo,
    StartUpdateCheck,
    Dismiss(Seq<char>),
}

/// An effect as plain values.
pub open spec fn effect_view(e: AboutEffect) -> AboutEffectView {
    match e {
        AboutEffect::Nothing => AboutEffectView::Nothing,
        AboutEffect::OpenRepo => AboutEffectView::OpenRepo,
        AboutEffect::StartUpdateCheck => AboutEffectView::StartUpdateCheck,
        AboutEffect::Dismiss(t) => AboutEffectView::Dismiss(t@),
    }
}

/// A key of the About page.
#[derive(Clone, Copy, Debug, PartialEq, Eq, Structural)]
pub enum AboutKey {
    /// The letter `q`.
    Q,
    Esc,
    Enter,
    Up,
    Down,
    Other,
}

/// A mouse event over the About page.
#[derive(Clone, Copy, Debug, PartialEq, Eq, Structural)]
pub enum MouseKind {
    Moved,
    LeftDown,
    Other,
}

/// The page after going back to the home screen.
pub open spec fn leave_spec(p: AboutView) -> AboutView {
    AboutView { at_home: true, status: "Вернуться в главное меню"@, ..p }
}

/// The page after asking for the self-update, which runs once the interface
/// has closed and needs no further confirmation.
pub open spec fn self_update_spec(p: AboutView) -> AboutView {
    AboutView {
        status: "Сейчас выполнится автообновление (после выхода из TUI)…"@,
        self_update_requested: true,
        self_update_auto_yes: true,
        should_quit: true,
        ..p
    }
}

/// Asking to stop the reminders: only a report of a new release has one to
/// stop.
pub open spec fn dismiss_spec(p: AboutView) -> (AboutView, AboutEffectView) {
    match p.report {
        None => (
            AboutView { status: "Сведения об обновлении ещё не получены — сначала нажмите «Проверить обновления»"@, ..p },
            AboutEffectView::Nothing,
        ),
        Some(r) => if !r.2 {
            (AboutView { status: "Уже актуальная версия, напоминание не нужно"@, ..p }, AboutEffectView::Nothing)
        } else {
            (p, AboutEffectView::Dismiss(r.1))
        },
    }
}

/// Pressing button `idx`: open the repository, check for updates (in a
/// docker build: go back), run the self-update, stop the reminders, go back.
/// A docker build has only the first two buttons.
pub open spec fn press_spec(p: AboutView, idx: int, docker: bool) -> (AboutView, AboutEffectView) {
    if idx == 0 {
        (p, AboutEffectView::OpenRepo)
    } else if idx == 1 {
        if docker {
            (leave_spec(p), AboutEffectView::Nothing)
        } else {
            (AboutView { status: "Проверка обновлений…"@, ..p }, AboutEffectView::StartUpdateCheck)
        }
    } else if idx == 2 && !docker {
        (self_update_spec(p), AboutEffectView::Nothing)
    } else if idx == 3 && !docker {
        dismiss_spec(p)
    } else if idx == 4 && !docker {
        (leave_spec(p), AboutEffectView::Nothing)
    } else {
        (p, AboutEffectView::Nothing)
    }
}

/// The key `key` on a page of `n` buttons: `q` and Esc go back, Enter
/// presses the selected button, Up and Down move the selection around.
pub open spec fn key_spec(p: AboutView, key: AboutKey, pressed: bool, docker: bool, n: nat) -> (AboutView, AboutEffectView) {
    let idx: int = match p.selected {
        Some(i) => i as int,
        None => 0,
    };
    if !pressed {
        (p, AboutEffectView::Nothing)
    } else {
        match key {
            AboutKey::Q | AboutKey::Esc => (leave_spec(p), AboutEffectView::Nothing),
            AboutKey::Enter => match p.selected {
                Some(i) => press_spec(p, i as int, docker),
                None => (p, AboutEffectView::Nothing),
            },
            AboutKey::Up => (
                AboutView {
                    selected: Some(
                        if idx == 0 {
                            (n - 1) as usize
                        } else {
                            (idx - 1) as usize
                        },
                    ),
                    ..p
                },
                AboutEffectView::Nothing,
            ),
            AboutKey::Down => (AboutView { selected: Some(((idx + 1) % (n as int)) as usize), ..p }, AboutEffectView::Nothing),
            AboutKey::Other => (p, AboutEffectView::Nothing),
        }
    }
}

/// Whether the cell `(col, row)` lies in `a`.
pub open spec fn inside(a: Area, col: int, row: int) -> bool {
    a.x <= col < a.x + a.width && a.y <= row < a.y + a.height
}

/// The mouse event `kind` at `(col, row)` on a page of `n` buttons: over the
/// buttons, moving selects the button under the pointer and a left click
/// selects and presses it (in a docker build only the first two).
pub open spec fn mouse_spec(p: AboutView, col: int, row: int, kind: MouseKind, docker: bool, n: nat) -> (AboutView, AboutEffectView) {
    match p.last_buttons {
        None => (p, AboutEffectView::Nothing),
        Some(a) => if !inside(a, col, row) {
            (p, AboutEffectView::Nothing)
        } else {
            let idx: int = if row >= a.y + 1 {
                row - (a.y + 1)
            } else {
                0
            };
            match kind {
                MouseKind::Moved => if idx < n {
                    (AboutView { selected: Some(idx as usize), ..p }, AboutEffectView::Nothing)
                } else {
                    (p, AboutEffectView::Nothing)
                },
                MouseKind::LeftDown => if idx <= 1 || (idx <= 4 && !docker) {
                    press_spec(AboutView { selected: Some(idx as usize), ..p }, idx, docker)
                } else {
                    (p, AboutEffectView::Nothing)
                },
                MouseKind::Other => (p, AboutEffectView::Nothing),
            }
        },
    }
}

fn leave_about(page: &mut AboutPage)
    ensures
        final(page)@ == leave_spec(old(page)@),
{
    page.at_home = true;
    page.status = "Вернуться в главное меню".to_string();
}

/// Asks for the self-update.
pub fn request_self_update(page: &mut AboutPage)
    ensures
        final(page)@ == self_update_spec(old(page)@),
{
    page.status = "Сейчас выполнится автообновление (после выхода из TUI)…".to_string();
    page.self_update_requested = true;
    page.self_update_auto_yes = true;
    page.should_quit = true;
}

/// Starts an update check.
pub fn check_app_update(page: &mut AboutPage) -> (r: AboutEffect)
    ensures
        final(page)@ == (AboutView { status: "Проверка обновлений…"@, ..old(page)@ }),
        effect_view(r) == AboutEffectView::StartUpdateCheck,
{
    page.status = "Проверка обновлений…".to_string();
    AboutEffect::StartUpdateCheck
}

/// Asks to stop reminding of the reported release; the caller records that
/// and then calls [`finish_dismiss`].
pub fn dismiss_app_update(page: &mut AboutPage) -> (r: AboutEffect)
    ensures
        final(page)@ == dismiss_spec(old(page)@).0,
        effect_view(r) == dismiss_spec(old(page)@).1,
{
    match &page.report {
        None => {
            page.status = "Сведения об обновлении ещё не получены — сначала нажмите «Проверить обновления»".to_string();
            AboutEffect::Nothing
        },
        Some(rep) => {
            if !rep.is_new_version {
                page.status = "Уже актуальная версия, напоминание не нужно".to_string();
                AboutEffect::Nothing
            } else {
                AboutEffect::Dismiss(rep.latest_tag.clone())
            }
        },
    }
}

/// Records that the reminders of release `tag` were stopped.
pub fn finish_dismiss(page: &mut AboutPage, tag: &str)
    ensures
        final(page)@ == (AboutView {
            report: match old(page)@.report {
                Some(r) => Some((r.0, r.1, r.2, true, r.4, r.5)),
                None => None,
            },
            status: "Напоминание отключено для "@ + tag@,
            ..old(page)@
        }),
{
    match &mut page.report {
        Some(rep) => {
            rep.is_dismissed = true;
        },
        None => {},
    }
    let mut s = "Напоминание отключено для ".to_string();
    string_push_str(&mut s, tag);
    page.status = s;
}

fn press_button(page: &mut AboutPage, idx: usize, docker: bool) -> (r: AboutEffect)
    ensures
        final(page)@ == press_spec(old(page)@, idx as int, docker).0,
        effect_view(r) == press_spec(old(page)@, idx as int, docker).1,
{
    if idx == 0 {
        AboutEffect::OpenRepo
    } else if idx == 1 {
        if docker {
            leave_about(page);
            AboutEffect::Nothing
        } else {
            check_app_update(page)
        }
    } else if idx == 2 && !docker {
        request_self_update(page);
        AboutEffect::Nothing
    } else if idx == 3 && !docker {
        dismiss_app_update(page)
    } else if idx == 4 && !docker {
        leave_about(page);
        AboutEffect::Nothing
    } else {
        AboutEffect::Nothing
    }
}

/// Handles the key `key` on the About page with `button_count` buttons;
/// `pressed` is false for key releases, which do nothing.
pub fn handle_key_about(page: &mut AboutPage, key: AboutKey, pressed: bool, docker: bool, button_count: usize) -> (r: AboutEffect)
    requires
        button_count > 0,
        old(page).selected matches Some(i) ==> i < usize::MAX,
    ensures
        final(page)@ == key_spec(old(page)@, key, pressed, docker, button_count as nat).0,
        effect_view(r) == key_spec(old(page)@, key, pressed, docker, button_count as nat).1,
{
    if !pressed {
        return AboutEffect::Nothing;
    }
    match key {
        AboutKey::Q | AboutKey::Esc => {
            leave_about(page);
            AboutEffect::Nothing
        },
        AboutKey::Enter => match page.selected {
            Some(i) => press_button(page, i, docker),
            None => AboutEffect::Nothing,
        },
        AboutKey::Up => {
            let idx = match page.selected {
                Some(i) => i,
                None => 0,
            };
            let prev = if idx == 0 {
                button_count - 1
            } else {
                idx - 1
            };
            page.selected = Some(prev);
            AboutEffect::Nothing
        },
        AboutKey::Down => {
            let idx = match page.selected {
                Some(i) => i,
                None => 0,
            };
            let next = (idx + 1) % button_count;
            page.selected = Some(next);
            AboutEffect::Nothing
        },
        AboutKey::Other => AboutEffect::Nothing,
    }
}

/// Handles the mouse event `kind` at `(column, row)` on the About page with
/// `button_count` buttons.
pub fn handle_mouse_about(
    page: &mut AboutPage,
    column: u16,
    row: u16,
    kind: MouseKind,
    docker: bool,
    button_count: usize,
) -> (r: AboutEffect)
    requires
        old(page).last_buttons matches Some(a) ==> a.x + a.width <= u16::MAX && a.y + a.height
            <= u16::MAX,
    ensures
        final(page)@ == mouse_spec(old(page)@, column as int, row as int, kind, docker, button_count as nat).0,
        effect_view(r) == mouse_spec(old(page)@, column as int, row as int, kind, docker, button_count as nat).1,
{
    let area = match page.last_buttons {
        Some(a) => a,
        None => return AboutEffect::Nothing,
    };
    if !(column >= area.x && column < area.x + area.width && row >= area.y && row < area.y
        + area.height) {
        return AboutEffect::Nothing;
    }
    let top = area.y + 1;
    let idx: usize = if row >= top {
        (row - top) as usize
    } else {
        0
    };
    match kind {
        MouseKind::Moved => {
            if idx < button_count {
                page.selected = Some(idx);
            }
            AboutEffect::Nothing
        },
        MouseKind::LeftDown => {
            if idx <= 1 || (idx <= 4 && !docker) {
                page.selected = Some(idx);
                press_button(page, idx, docker)
            } else {
                AboutEffect::Nothing
            }
        },
        MouseKind::Other => AboutEffect::Nothing,
    }
}

/// Moving down and then up (or up and then down) comes back to the selected
/// button.
pub proof fn law_down_then_up(p: AboutView, docker: bool, n: nat)
    requires
        0 < n <= usize::MAX,
        p.selected matches Some(i) && i < n,
    ensures
        key_spec(key_spec(p, AboutKey::Down, true, docker, n).0, AboutKey::Up, true, docker, n).0.selected
            == p.selected,
        key_spec(key_spec(p, AboutKey::Up, true, docker, n).0, AboutKey::Down, true, docker, n).0.selected
            == p.selected,
{
    let i = p.selected.unwrap() as int;
    if i + 1 == n {
        assert((i + 1) % (n as int) == 0) by (nonlinear_arith)
            requires
                i + 1 == n,
                n > 0,
        ;
    } else {
        assert((i + 1) % (n as int) == i + 1) by (nonlinear_arith)
            requires
                0 <= i,
                i + 1 < n,
        ;
    }
    if i == 0 {
        assert(((n - 1) + 1) % (n as int) == 0) by (nonlinear_arith)
            requires
                n > 0,
        ;
    } else {
        assert(((i - 1) + 1) % (n as int) == i) by (nonlinear_arith)
            requires
                0 < i,
                i < n,
        ;
    }
}

/// Moving the selection with the keys keeps it on one of the `n` buttons.
pub proof fn law_key_selection_in_range(p: AboutView, key: AboutKey, docker: bool, n: nat)
    requires
        0 < n <= usize::MAX,
        p.selected matches Some(i) ==> i < n,
        key == AboutKey::Up || key == AboutKey::Down,
    ensures
        key_spec(p, key, true, docker, n).0.selected matches Some(j) && j < n,
{
    let idx: int = match p.selected {
        Some(i) => i as int,
        None => 0,
    };
    assert(0 <= (idx + 1) % (n as int) < n) by (nonlinear_arith)
        requires
            n > 0,
            idx >= 0,
    ;
}

/// Going back from the About page always reaches the home screen, whatever
/// button was selected.
pub proof fn law_escape_goes_home(p: AboutView, docker: bool, n: nat)
    ensures
        key_spec(p, AboutKey::Esc, true, docker, n).0.at_home,
        key_spec(p, AboutKey::Q, true, docker, n).0.at_home,
        key_spec(p, AboutKey::Esc, true, docker, n).0.selected == p.selected,
{
}


/// The status line of the update section.
spec fn status_line(is_new_version: bool) -> Seq<char> {
    if is_new_version {
        "Статус: есть новая версия\n"@
    } else {
        "Статус: уже актуальная версия\n"@
    }
}

/// A text holds itself.
proof fn lemma_contains_self(p: Seq<char>)
    ensures
        contains_seq(p, p),
{
    assert(p.subrange(0, p.len() as int) =~= p);
    assert(occurs_at(p, p, 0));
}

/// The status line of the About page follows the last update check: "есть
/// новая версия" when it found a newer release, "уже актуальная версия"
/// when it did not; the two lines differ, so the head of the update section
/// tells the two cases apart.
#[verifier::spinoff_prover]
pub proof fn law_about_status_follows_report(
    version: Seq<char>,
    official_api: bool,
    current_tag: Seq<char>,
    latest_tag: Seq<char>,
    is_new_version: bool,
    is_dismissed: bool,
    html_url: Option<Seq<char>>,
    body: Option<Seq<char>>,
)
    ensures
        is_new_version ==> contains_seq(
            about_text_spec(
                version,
                official_api,
                false,
                Some((current_tag, latest_tag, is_new_version, is_dismissed, html_url, body)),
            ),
            "Статус: есть новая версия\n"@,
        ),
        !is_new_version ==> contains_seq(
            about_text_spec(
                version,
                official_api,
                false,
                Some((current_tag, latest_tag, is_new_version, is_dismissed, html_url, body)),
            ),
            "Статус: уже актуальная версия\n"@,
        ),
        report_head(current_tag, latest_tag, false, is_dismissed) != report_head(
            current_tag,
            latest_tag,
            true,
            is_dismissed,
        ),
{
    let p = status_line(is_new_version);
    let e = Seq::<char>::empty();
    let dismissed = if is_dismissed {
        "Подсказка: напоминание об этой версии отключено (ручная проверка всё ещё доступна)\n"@
    } else {
        Seq::<char>::empty()
    };
    let pre = "Текущая: "@ + current_tag + "\n"@ + "Последняя: "@ + latest_tag + "\n"@;
    let head = report_head(current_tag, latest_tag, is_new_version, is_dismissed);
    lemma_contains_self(p);
    lemma_contains_within(pre, p, dismissed, p);
    assert(head == pre + p + dismissed);
    lemma_contains_within(e, head, url_text(html_url), p);
    assert(e + head =~= head);
    let hu = head + url_text(html_url);
    lemma_contains_within(e, hu, notes_text(body), p);
    assert(e + hu =~= hu);
    let updates = report_text(current_tag, latest_tag, is_new_version, is_dismissed, html_url, body);
    assert(updates == hu + notes_text(body));
    let free = if official_api {
        free_notice()
    } else {
        Seq::<char>::empty()
    };
    let a = about_head(version) + free + "\n===== Обновления =====\n"@;
    lemma_contains_within(a, updates, e, p);
    assert(a + updates + e =~= a + updates);
    lemma_status_heads_differ(current_tag, latest_tag, is_dismissed);
}

/// The heads of the update section for a newer release and for none differ
/// in length.
proof fn lemma_status_heads_differ(current_tag: Seq<char>, latest_tag: Seq<char>, is_dismissed: bool)
    ensures
        report_head(current_tag, latest_tag, false, is_dismissed) != report_head(
            current_tag,
            latest_tag,
            true,
            is_dismissed,
        ),
{
    reveal_strlit("Статус: есть новая версия\n");
    reveal_strlit("Статус: уже актуальная версия\n");
    assert(report_head(current_tag, latest_tag, false, is_dismissed).len() != report_head(
        current_tag,
        latest_tag,
        true,
        is_dismissed,
    ).len());
}

/// What the About page says, whatever else it holds: the running version;
/// the free notice in builds with the official API; in a Docker build, how
/// to update the image; and with no update check yet, that none was made.
#[verifier::spinoff_prover]
pub proof fn law_about_text_parts(
    version: Seq<char>,
    official_api: bool,
    docker: bool,
    report: Option<(Seq<char>, Seq<char>, bool, bool, Option<Seq<char>>, Option<Seq<char>>)>,
)
    ensures
        contains_seq(
            about_text_spec(version, official_api, docker, report),
            "\nТекущая версия: v"@ + version + "\n"@,
        ),
        official_api ==> contains_seq(
            about_text_spec(version, official_api, docker, report),
            free_notice(),
        ),
        docker ==> contains_seq(
            about_text_spec(version, official_api, docker, report),
            "В Docker-сборке автообновление отключено. Обновите образ (docker pull).\n"@,
        ),
        !docker && report is None ==> contains_seq(
            about_text_spec(version, official_api, docker, report),
            "Обновления не проверялись (нажмите «Проверить обновления»)\n"@,
        ),
{
    let e = Seq::<char>::empty();
    let free = if official_api {
        free_notice()
    } else {
        Seq::<char>::empty()
    };
    let sep = "\n===== Обновления =====\n"@;
    let updates = if docker {
        "В Docker-сборке автообновление отключено. Обновите образ (docker pull).\n"@
    } else {
        match report {
            Some(r) => report_text(r.0, r.1, r.2, r.3, r.4, r.5),
            None => "Обновления не проверялись (нажмите «Проверить обновления»)\n"@,
        }
    };
    let t = about_text_spec(version, official_api, docker, report);
    assert(t == about_head(version) + free + sep + updates);
    let vl = "\nТекущая версия: v"@ + version + "\n"@;
    let lead = "Репозиторий: https://github.com/zhongbai2333/Tomato-Novel-Downloader\n"@
        + "Fork From: https://github.com/Dlmily/Tomato-Novel-Downloader-Lite\n"@
        + "Автор: zhongbai2333\n"@
        + "Проект предназначен только для обучения и обмена опытом. Не используйте в коммерческих или незаконных целях.\n"@;
    lemma_contains_self(vl);
    lemma_contains_within(lead, vl, free + sep + updates, vl);
    assert(lead + vl + (free + sep + updates) =~= t);
    if official_api {
        lemma_contains_self(free);
        lemma_contains_within(about_head(version), free, sep + updates, free);
        assert(about_head(version) + free + (sep + updates) =~= t);
    }
    if docker || report is None {
        let front = about_head(version) + free + sep;
        lemma_contains_self(updates);
        lemma_contains_within(front, updates, e, updates);
        assert(front + updates + e =~= t);
    }
}

/// What the update section of a report holds, the About text holds.
proof fn lemma_report_in_about(
    p: Seq<char>,
    version: Seq<char>,
    official_api: bool,
    r: (Seq<char>, Seq<char>, bool, bool, Option<Seq<char>>, Option<Seq<char>>),
)
    requires
        contains_seq(report_text(r.0, r.1, r.2, r.3, r.4, r.5), p),
    ensures
        contains_seq(about_text_spec(version, official_api, false, Some(r)), p),
{
    let e = Seq::<char>::empty();
    let free = if official_api {
        free_notice()
    } else {
        Seq::<char>::empty()
    };
    let a = about_head(version) + free + "\n===== Обновления =====\n"@;
    let updates = report_text(r.0, r.1, r.2, r.3, r.4, r.5);
    lemma_contains_within(a, updates, e, p);
    assert(a + updates + e =~= a + updates);
}

/// What the head of a report holds, its whole update section holds; and so
/// does what its link line holds.
proof fn lemma_head_in_report(
    p: Seq<char>,
    current_tag: Seq<char>,
    latest_tag: Seq<char>,
    is_new_version: bool,
    is_dismissed: bool,
    html_url: Option<Seq<char>>,
    body: Option<Seq<char>>,
)
    requires
        contains_seq(report_head(current_tag, latest_tag, is_new_version, is_dismissed), p)
            || contains_seq(url_text(html_url), p) || contains_seq(notes_text(body), p),
    ensures
        contains_seq(
            report_text(current_tag, latest_tag, is_new_version, is_dismissed, html_url, body),
            p,
        ),
{
    let e = Seq::<char>::empty();
    let head = report_head(current_tag, latest_tag, is_new_version, is_dismissed);
    let ul = url_text(html_url);
    let nt = notes_text(body);
    if contains_seq(head, p) || contains_seq(ul, p) {
        if contains_seq(head, p) {
            lemma_contains_within(e, head, ul, p);
            assert(e + head =~= head);
        } else {
            lemma_contains_within(head, ul, e, p);
            assert(head + ul + e =~= head + ul);
        }
        lemma_contains_within(e, head + ul, nt, p);
        assert(e + (head + ul) =~= head + ul);
    } else {
        lemma_contains_within(head + ul, nt, e, p);
        assert(head + ul + nt + e =~= head + ul + nt);
    }
}

/// The update section of the About page for a report shows its release
/// link when it has one, the reminder note when reminders for the release
/// are stopped, and a change-log excerpt when the release has notes.
#[verifier::spinoff_prover]
pub proof fn law_about_report_parts(
    version: Seq<char>,
    official_api: bool,
    current_tag: Seq<char>,
    latest_tag: Seq<char>,
    is_new_version: bool,
    is_dismissed: bool,
    html_url: Option<Seq<char>>,
    body: Option<Seq<char>>,
)
    ensures
        is_dismissed ==> contains_seq(
            about_text_spec(
                version,
                official_api,
                false,
                Some((current_tag, latest_tag, is_new_version, is_dismissed, html_url, body)),
            ),
            "Подсказка: напоминание об этой версии отключено (ручная проверка всё ещё доступна)\n"@,
        ),
        html_url is Some && trim_seq(html_url->Some_0).len() > 0 ==> contains_seq(
            about_text_spec(
                version,
                official_api,
                false,
                Some((current_tag, latest_tag, is_new_version, is_dismissed, html_url, body)),
            ),
            "Release: "@ + html_url->Some_0 + "\n"@,
        ),
        body is Some && trim_seq(body->Some_0).len() > 0 ==> contains_seq(
            about_text_spec(
                version,
                official_api,
                false,
                Some((current_tag, latest_tag, is_new_version, is_dismissed, html_url, body)),
            ),
            "\nСписок изменений (фрагмент):\n"@,
        ),
{
    let r = (current_tag, latest_tag, is_new_version, is_dismissed, html_url, body);
    let e = Seq::<char>::empty();
    if is_dismissed {
        let dm = "Подсказка: напоминание об этой версии отключено (ручная проверка всё ещё доступна)\n"@;
        let pre = "Текущая: "@ + current_tag + "\n"@ + "Последняя: "@ + latest_tag + "\n"@;
        let st = status_line(is_new_version);
        lemma_contains_self(dm);
        lemma_contains_within(pre + st, dm, e, dm);
        assert(pre + st + dm + e =~= report_head(current_tag, latest_tag, is_new_version, is_dismissed));
        lemma_head_in_report(dm, current_tag, latest_tag, is_new_version, is_dismissed, html_url, body);
        lemma_report_in_about(dm, version, official_api, r);
    }
    if html_url is Some && trim_seq(html_url->Some_0).len() > 0 {
        let ul = "Release: "@ + html_url->Some_0 + "\n"@;
        lemma_contains_self(ul);
        assert(url_text(html_url) == ul);
        lemma_head_in_report(ul, current_tag, latest_tag, is_new_version, is_dismissed, html_url, body);
        lemma_report_in_about(ul, version, official_api, r);
    }
    if body is Some && trim_seq(body->Some_0).len() > 0 {
        let h = "\nСписок изменений (фрагмент):\n"@;
        let rest = preview_text(trim_seq(body->Some_0), 16, 1800) + "\n"@;
        lemma_contains_self(h);
        lemma_contains_within(e, h, rest, h);
        assert(e + h + rest =~= notes_text(body));
        lemma_head_in_report(h, current_tag, latest_tag, is_new_version, is_dismissed, html_url, body);
        lemma_report_in_about(h, version, official_api, r);
    }
}

} // verus!
