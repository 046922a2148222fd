use tomato_novel_downloader::cli::{
    conflict_message, filter_keyword, history_line, is_yes_answer, parse_env_flag,
    parse_history_command, parse_menu_command, run_route, should_show_iid_error, startup_route,
    history_step, HistoryCommand, HistoryItem, HistoryStep, MenuCommand, RunRoute, StartupRoute,
};
use tomato_novel_downloader::novel_updates::{
    announces_update, parse_list_choice, parse_update_menu_choice, update_label, NovelUpdateRow,
    UpdateChoice,
};

fn row(new_count: u64, local_failed: u64, is_ignored: bool) -> NovelUpdateRow {
    NovelUpdateRow {
        book_id: "7143".to_string(),
        book_name: "Книга".to_string(),
        new_count,
        local_failed,
        is_ignored,
        has_update: new_count > 0,
    }
}

#[test]
fn update_labels() {
    assert_eq!(update_label(&row(3, 2, false)), "«Книга» (7143) — новых глав: 3 | неудачных глав: 2");
    assert_eq!(update_label(&row(3, 0, true)), "[игнорируется] «Книга» (7143) — новых глав: 3");
    assert_eq!(update_label(&row(0, 5, false)), "«Книга» (7143) — неудачных глав: 5");
    assert_eq!(update_label(&row(0, 0, false)), "«Книга» (7143) — новых глав: 0");
    assert!(announces_update(&row(1, 0, false)));
    assert!(!announces_update(&row(1, 0, true)));
}

#[test]
fn update_menu_choices() {
    assert_eq!(parse_update_menu_choice(" Q ", 2, 3), UpdateChoice::Quit);
    assert_eq!(parse_update_menu_choice("x", 2, 3), UpdateChoice::NotANumber);
    assert_eq!(parse_update_menu_choice("1", 2, 3), UpdateChoice::Book(0));
    assert_eq!(parse_update_menu_choice("3", 2, 3), UpdateChoice::NoUpdatesList);
    assert_eq!(parse_update_menu_choice("4", 2, 3), UpdateChoice::OutOfRange(3));
    assert_eq!(parse_update_menu_choice("3", 2, 0), UpdateChoice::OutOfRange(2));
    assert_eq!(parse_update_menu_choice("0", 2, 0), UpdateChoice::OutOfRange(2));
    assert_eq!(parse_list_choice("2", 2), UpdateChoice::Book(1));
    assert_eq!(parse_list_choice("3", 2), UpdateChoice::OutOfRange(2));
    assert_eq!(parse_list_choice("q", 2), UpdateChoice::Quit);
}

#[test]
fn start_up_decisions() {
    assert!(parse_env_flag(" TRUE "));
    assert!(parse_env_flag("on"));
    assert!(!parse_env_flag("0"));
    assert!(!parse_env_flag("y"));
    assert_eq!(startup_route(true, true, false, true, true), StartupRoute::ShowVersion);
    assert_eq!(startup_route(false, true, true, true, true), StartupRoute::SelfUpdate(true));
    assert_eq!(startup_route(false, false, false, true, true), StartupRoute::Conflict);
    assert_eq!(startup_route(false, false, false, false, true), StartupRoute::Continue);
    assert_eq!(conflict_message(), "--download и --update нельзя использовать одновременно");
    assert_eq!(run_route(true, false, true, true), RunRoute::DownloadDisabled);
    assert_eq!(run_route(false, true, true, true), RunRoute::UpdateBook);
    assert_eq!(run_route(false, false, true, true), RunRoute::Server);
    assert_eq!(run_route(false, false, false, true), RunRoute::OldCli);
    assert_eq!(run_route(false, false, false, false), RunRoute::Tui);
}

#[test]
fn main_menu_commands() {
    assert_eq!(parse_menu_command("   "), MenuCommand::Nothing);
    assert_eq!(parse_menu_command(" Q "), MenuCommand::Quit);
    assert_eq!(parse_menu_command("s"), MenuCommand::Settings);
    assert_eq!(parse_menu_command("H"), MenuCommand::History);
    assert_eq!(parse_menu_command("u"), MenuCommand::UpdateBooks);
    assert_eq!(parse_menu_command("U"), MenuCommand::SelfUpdate);
    assert_eq!(parse_menu_command(" U "), MenuCommand::SelfUpdate);
    assert_eq!(parse_menu_command("c"), MenuCommand::CheckAppUpdate);
    assert_eq!(parse_menu_command("12345"), MenuCommand::Unsupported);
    assert!(should_show_iid_error(Some("e1"), None));
    assert!(!should_show_iid_error(Some("e1"), Some("e1")));
    assert!(should_show_iid_error(Some("e2"), Some("e1")));
    assert!(!should_show_iid_error(None, Some("e1")));
    assert!(is_yes_answer(" YES "));
    assert!(is_yes_answer("y"));
    assert!(!is_yes_answer("n"));
}

#[test]
fn history_screen() {
    let item = HistoryItem {
        timestamp: "2024-01-02 03:04".to_string(),
        book_name: "Книга".to_string(),
        book_id: "42".to_string(),
        author: "   ".to_string(),
        progress: "10/10".to_string(),
        status: "ok".to_string(),
    };
    assert_eq!(
        history_line(3, &item),
        " 3. [2024-01-02 03:04] «Книга» (42) | автор: неизвестен | 10/10 | статус: ok"
    );
    let named = HistoryItem { author: " Автор ".to_string(), ..item };
    assert_eq!(
        history_line(12, &named),
        "12. [2024-01-02 03:04] «Книга» (42) | автор: Автор | 10/10 | статус: ok"
    );
    assert_eq!(parse_history_command(""), HistoryCommand::Refresh);
    assert_eq!(parse_history_command("Q"), HistoryCommand::Back);
    assert_eq!(parse_history_command("f"), HistoryCommand::SetFilter);
    assert_eq!(parse_history_command(" C "), HistoryCommand::ClearFilter);
    assert_eq!(parse_history_command("zzz"), HistoryCommand::Refresh);
    assert_eq!(filter_keyword("  автор "), Some("автор".to_string()));
    assert_eq!(filter_keyword("   "), None);
}

#[test]
fn history_filter_steps() {
    let kept = Some("автор".to_string());
    assert_eq!(
        history_step(kept.clone(), HistoryCommand::Refresh, None),
        HistoryStep { filter: kept.clone(), leave: false, blank_keyword: false }
    );
    assert_eq!(
        history_step(kept.clone(), HistoryCommand::Back, None),
        HistoryStep { filter: kept.clone(), leave: true, blank_keyword: false }
    );
    assert_eq!(
        history_step(kept.clone(), HistoryCommand::ClearFilter, None),
        HistoryStep { filter: None, leave: false, blank_keyword: false }
    );
    assert_eq!(
        history_step(None, HistoryCommand::SetFilter, Some("  книга ")),
        HistoryStep { filter: Some("книга".to_string()), leave: false, blank_keyword: false }
    );
    assert_eq!(
        history_step(kept.clone(), HistoryCommand::SetFilter, Some("   ")),
        HistoryStep { filter: kept, leave: false, blank_keyword: true }
    );
}
