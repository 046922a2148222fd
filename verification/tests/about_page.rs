use tomato_novel_downloader::about::{
    about_text, dismiss_app_update, finish_dismiss, handle_key_about, handle_mouse_about,
    request_self_update, AboutEffect, AboutKey, AboutPage, Area, MouseKind, UpdateReport,
};

fn page() -> AboutPage {
    AboutPage {
        selected: Some(0),
        at_home: false,
        status: String::new(),
        report: None,
        self_update_requested: false,
        self_update_auto_yes: false,
        should_quit: false,
        last_buttons: Some(Area { x: 0, y: 3, width: 40, height: 7 }),
    }
}

fn report(new: bool) -> UpdateReport {
    UpdateReport {
        current_tag: "v1.0.0".to_string(),
        latest_tag: "v1.1.0".to_string(),
        is_new_version: new,
        is_dismissed: false,
        html_url: Some("https://example.org/r".to_string()),
        body: Some("  - fix\n\n- more  \n".to_string()),
    }
}

const HEAD: &str = "Репозиторий: https://github.com/zhongbai2333/Tomato-Novel-Downloader\nFork From: https://github.com/Dlmily/Tomato-Novel-Downloader-Lite\nАвтор: zhongbai2333\nПроект предназначен только для обучения и обмена опытом. Не используйте в коммерческих или незаконных целях.\n\nТекущая версия: v1.2.3\n";

#[test]
fn about_text_variants() {
    assert_eq!(
        about_text("1.2.3", false, false, &None),
        format!("{HEAD}\n===== Обновления =====\nОбновления не проверялись (нажмите «Проверить обновления»)\n")
    );
    assert_eq!(
        about_text("1.2.3", false, true, &Some(report(true))),
        format!("{HEAD}\n===== Обновления =====\nВ Docker-сборке автообновление отключено. Обновите образ (docker pull).\n")
    );
    let with_report = about_text("1.2.3", true, false, &Some(report(true)));
    assert_eq!(
        with_report,
        format!(
            "{HEAD}\n===== Бесплатность =====\nПрограмма полностью бесплатна. Официальный репозиторий: https://github.com/zhongbai2333/Tomato-Novel-Downloader\nЕсли вы за неё заплатили — вас обманули.\n\n===== Обновления =====\nТекущая: v1.0.0\nПоследняя: v1.1.0\nСтатус: есть новая версия\nRelease: https://example.org/r\n\nСписок изменений (фрагмент):\n- fix\n- more\n"
        )
    );
}

#[test]
fn keys_move_around_the_buttons() {
    let mut p = page();
    assert!(matches!(handle_key_about(&mut p, AboutKey::Up, true, false, 5), AboutEffect::Nothing));
    assert_eq!(p.selected, Some(4));
    handle_key_about(&mut p, AboutKey::Down, true, false, 5);
    assert_eq!(p.selected, Some(0));
    handle_key_about(&mut p, AboutKey::Down, true, false, 5);
    assert_eq!(p.selected, Some(1));
    handle_key_about(&mut p, AboutKey::Down, false, false, 5);
    assert_eq!(p.selected, Some(1));
    assert!(matches!(handle_key_about(&mut p, AboutKey::Enter, true, false, 5), AboutEffect::StartUpdateCheck));
    assert_eq!(p.status, "Проверка обновлений…");
    handle_key_about(&mut p, AboutKey::Esc, true, false, 5);
    assert!(p.at_home);
    assert_eq!(p.status, "Вернуться в главное меню");
}

#[test]
fn buttons_in_a_docker_build() {
    let mut p = page();
    p.selected = Some(2);
    assert!(matches!(handle_key_about(&mut p, AboutKey::Enter, true, true, 5), AboutEffect::Nothing));
    assert!(!p.self_update_requested);
    p.selected = Some(1);
    handle_key_about(&mut p, AboutKey::Enter, true, true, 5);
    assert!(p.at_home);
}

#[test]
fn self_update_and_dismiss() {
    let mut p = page();
    request_self_update(&mut p);
    assert!(p.self_update_requested && p.self_update_auto_yes && p.should_quit);
    assert_eq!(p.status, "Сейчас выполнится автообновление (после выхода из TUI)…");
    let mut p = page();
    assert!(matches!(dismiss_app_update(&mut p), AboutEffect::Nothing));
    assert_eq!(p.status, "Сведения об обновлении ещё не получены — сначала нажмите «Проверить обновления»");
    p.report = Some(report(false));
    assert!(matches!(dismiss_app_update(&mut p), AboutEffect::Nothing));
    assert_eq!(p.status, "Уже актуальная версия, напоминание не нужно");
    p.report = Some(report(true));
    match dismiss_app_update(&mut p) {
        AboutEffect::Dismiss(tag) => {
            assert_eq!(tag, "v1.1.0");
            finish_dismiss(&mut p, &tag);
        },
        other => panic!("{:?}", other),
    }
    assert!(p.report.as_ref().unwrap().is_dismissed);
    assert_eq!(p.status, "Напоминание отключено для v1.1.0");
}

#[test]
fn mouse_over_the_buttons() {
    let mut p = page();
    handle_mouse_about(&mut p, 5, 6, MouseKind::Moved, false, 5);
    assert_eq!(p.selected, Some(2));
    assert!(matches!(handle_mouse_about(&mut p, 5, 4, MouseKind::LeftDown, false, 5), AboutEffect::OpenRepo));
    assert_eq!(p.selected, Some(0));
    assert!(matches!(handle_mouse_about(&mut p, 50, 4, MouseKind::LeftDown, false, 5), AboutEffect::Nothing));
    handle_mouse_about(&mut p, 5, 7, MouseKind::LeftDown, false, 5);
    assert_eq!(p.selected, Some(3));
    handle_mouse_about(&mut p, 5, 8, MouseKind::LeftDown, false, 5);
    assert!(p.at_home);
}

#[test]
fn law_down_then_up_on_values() {
    for n in 1..6usize {
        for i in 0..n {
            let mut p = page();
            p.selected = Some(i);
            handle_key_about(&mut p, AboutKey::Down, true, false, n);
            handle_key_about(&mut p, AboutKey::Up, true, false, n);
            assert_eq!(p.selected, Some(i));
        }
    }
}
