use tomato_novel_downloader::config::Config;
use tomato_novel_downloader::config_model::{
    apply_cfg_edit, audiobook_voice_presets, book_name_field_to_chinese, build_config_categories,
    cfg_combo_presets, cfg_field_current_bool, cfg_field_is_bool, cfg_field_is_combo,
    chinese_to_book_name_field, chinese_to_novel_format, current_cfg_value,
    output_format_label_ru, parse_bool, parse_string_list, saved_status, start_cfg_edit,
    CfgEdit, ComboFocus, ConfigApp, ConfigField,
};

fn sample_config() -> Config {
    Config {
        save_path: "/books".to_string(),
        novel_format: "epub".to_string(),
        auto_clear_dump: true,
        auto_open_downloaded_files: false,
        allow_overwrite_files: false,
        preferred_book_name_field: "book_name".to_string(),
        old_cli: false,
        enable_segment_comments: false,
        use_official_api: true,
        api_endpoints: vec![],
        max_workers: 4,
        request_timeout: 15,
        max_retries: 3,
        min_wait_time: 100,
        max_wait_time: 500,
        enable_audiobook: false,
        audiobook_voice: "ZH-CN-YUNXINEURAL".to_string(),
        audiobook_rate: "+0%".to_string(),
        audiobook_volume: "+0%".to_string(),
        audiobook_pitch: "".to_string(),
        audiobook_format: "mp3".to_string(),
        audiobook_concurrency: 2,
        audiobook_tts_provider: "edge".to_string(),
        audiobook_tts_api_url: "".to_string(),
        audiobook_tts_api_token: "".to_string(),
        audiobook_tts_model: "".to_string(),
        segment_comments_top_n: 10,
        segment_comments_workers: 4,
        download_comment_images: true,
        download_comment_avatars: false,
        media_download_workers: 4,
        blocked_media_domains: vec![],
        force_convert_images_to_jpeg: false,
        jpeg_retry_convert: true,
        jpeg_quality: 85,
        convert_heic_to_jpeg: true,
        keep_heic_original: false,
        media_limit_per_chapter: 0,
        media_max_dimension_px: 0,
    }
}

fn sample_app() -> ConfigApp {
    ConfigApp {
        config: sample_config(),
        cfg_categories: build_config_categories(),
        cfg_cat_selected: None,
        cfg_entry_selected: None,
        cfg_editing: None,
        cfg_edit_buffer: String::new(),
        cfg_bool_selected: None,
        cfg_combo_focus: ComboFocus::Input,
        cfg_combo_selected: None,
        status: String::new(),
    }
}

/// The (category, line) of `field` on the page.
fn position(app: &ConfigApp, field: ConfigField) -> (usize, usize) {
    for (i, c) in app.cfg_categories.iter().enumerate() {
        for (j, e) in c.entries.iter().enumerate() {
            if e.field == field {
                return (i, j);
            }
        }
    }
    panic!("missing {:?}", field);
}

fn apply(app: &mut ConfigApp, field: ConfigField, text: &str) -> Result<CfgEdit, String> {
    let (i, j) = position(app, field);
    app.cfg_edit_buffer = text.to_string();
    apply_cfg_edit(app, i, j)
}

#[test]
fn categories_list_every_field_once() {
    let cats = build_config_categories();
    assert_eq!(cats.len(), 6);
    assert_eq!(cats[0].title, "Основное и формат");
    assert_eq!(cats[5].title, "Аудиокнига");
    let all: Vec<ConfigField> = cats.iter().flat_map(|c| c.entries.iter().map(|e| e.field)).collect();
    assert_eq!(all.len(), 41);
    for (i, a) in all.iter().enumerate() {
        assert!(!all[i + 1..].contains(a));
    }
    assert_eq!(cats[1].entries[3].title, "Мин. таймаут соединения (с)");
}

#[test]
fn labels_and_words() {
    assert_eq!(output_format_label_ru(" PDF "), "Формат pdf");
    assert_eq!(output_format_label_ru("bulk_txt"), "Отдельные файлы");
    assert_eq!(output_format_label_ru("weird"), "Формат txt");
    assert_eq!(book_name_field_to_chinese("original_book_name"), "Оригинальное название");
    assert_eq!(book_name_field_to_chinese("zzz"), "Название по умолчанию");
    assert_eq!(chinese_to_book_name_field("Спросить после загрузки"), Some("ask_after_download".to_string()));
    assert_eq!(chinese_to_novel_format("Отдельные файлы"), Some("bulk_txt".to_string()));
    assert_eq!(chinese_to_novel_format("Формат docx"), None);
    assert_eq!(parse_bool("On"), Some(true));
    assert_eq!(parse_bool("OFF"), Some(false));
    assert_eq!(parse_bool("n"), Some(false));
    assert_eq!(parse_bool("maybe"), None);
    assert_eq!(parse_string_list(" a;b, c\n\n"), vec!["a", "b", "c"]);
    assert!(cfg_field_is_bool(ConfigField::KeepHeicOriginal));
    assert!(!cfg_field_is_bool(ConfigField::JpegQuality));
    assert!(cfg_field_is_combo(ConfigField::AudiobookVoice));
    assert!(cfg_combo_presets(ConfigField::MaxWorkers).is_none());
    assert_eq!(cfg_combo_presets(ConfigField::NovelFormat).unwrap().len(), 5);
    assert_eq!(audiobook_voice_presets().len(), 12);
    assert_eq!(audiobook_voice_presets()[2].label, "zh-CN-YunjianNeural (муж.)");
}

#[test]
fn shown_values() {
    let mut app = sample_app();
    app.config.novel_format = " EPUB".to_string();
    assert_eq!(current_cfg_value(&app, ConfigField::NovelFormat), Some("Формат epub".to_string()));
    assert_eq!(current_cfg_value(&app, ConfigField::JpegQuality), Some("85".to_string()));
    assert_eq!(current_cfg_value(&app, ConfigField::FirstLineIndentEm), None);
    assert_eq!(current_cfg_value(&app, ConfigField::MinConnectTimeout), None);
    assert_eq!(cfg_field_current_bool(&app, ConfigField::AutoClearDump), Some(true));
    assert_eq!(cfg_field_current_bool(&app, ConfigField::SavePath), None);
}

#[test]
fn starting_an_edit() {
    let mut app = sample_app();
    assert_eq!(start_cfg_edit(&mut app), None);
    assert_eq!(app.cfg_editing, None);
    let (i, j) = position(&app, ConfigField::AllowOverwriteFiles);
    app.cfg_cat_selected = Some(i);
    app.cfg_entry_selected = Some(j);
    assert_eq!(start_cfg_edit(&mut app), Some(ConfigField::AllowOverwriteFiles));
    assert_eq!(app.cfg_editing, Some((i, j)));
    assert_eq!(app.cfg_edit_buffer, "false");
    assert_eq!(app.cfg_bool_selected, Some(1));
    assert_eq!(app.status, "Правка [Основное и формат]: Разрешить перезапись файлов");

    let (i, j) = position(&app, ConfigField::AudiobookVoice);
    app.cfg_cat_selected = Some(i);
    app.cfg_entry_selected = Some(j);
    start_cfg_edit(&mut app);
    assert_eq!(app.cfg_combo_focus, ComboFocus::List);
    assert_eq!(app.cfg_combo_selected, Some(3));

    app.config.audiobook_voice = "custom".to_string();
    start_cfg_edit(&mut app);
    assert_eq!(app.cfg_combo_selected, Some(0));

    app.cfg_entry_selected = Some(99);
    assert_eq!(start_cfg_edit(&mut app), None);
}

#[test]
fn applying_numbers() {
    let mut app = sample_app();
    match apply(&mut app, ConfigField::MaxWorkers, " 12 ") {
        Ok(CfgEdit::Changed(title, None)) => assert_eq!(title, "Макс. потоков"),
        other => panic!("{:?}", other),
    }
    assert_eq!(app.config.max_workers, 12);
    assert!(matches!(apply(&mut app, ConfigField::MaxWorkers, "0"), Ok(CfgEdit::Rejected)));
    assert_eq!(app.status, "Макс. потоков должно быть больше 0");
    assert_eq!(app.config.max_workers, 12);
    assert_eq!(apply(&mut app, ConfigField::MaxWorkers, "-1").unwrap_err(), "Введите целое положительное число");
    assert_eq!(apply(&mut app, ConfigField::JpegQuality, "256").unwrap_err(), "Введите целое число от 0 до 100");
    assert!(matches!(apply(&mut app, ConfigField::JpegQuality, "101"), Ok(CfgEdit::Rejected)));
    assert_eq!(app.status, "Качество JPEG должно быть от 0 до 100");
    assert!(matches!(apply(&mut app, ConfigField::MinWait, "600"), Ok(CfgEdit::Rejected)));
    assert_eq!(app.status, "Мин. ожидание не может превышать макс. ожидание");
    assert!(matches!(apply(&mut app, ConfigField::MaxWait, "100"), Ok(CfgEdit::Changed(_, None))));
    assert_eq!(app.config.max_wait_time, 100);
    assert!(matches!(apply(&mut app, ConfigField::MaxRetries, "0"), Ok(CfgEdit::Changed(_, None))));
    assert_eq!(app.config.max_retries, 0);
}

#[test]
fn applying_switches_and_texts() {
    let mut app = sample_app();
    assert_eq!(apply(&mut app, ConfigField::OldCli, "sure").unwrap_err(), "Введите true/false");
    assert!(matches!(apply(&mut app, ConfigField::OldCli, "Yes"), Ok(CfgEdit::Changed(_, None))));
    assert!(app.config.old_cli);
    assert!(matches!(apply(&mut app, ConfigField::AudiobookFormat, "OGG"), Ok(CfgEdit::Rejected)));
    assert_eq!(app.status, "Формат только mp3 или wav");
    assert!(matches!(apply(&mut app, ConfigField::AudiobookFormat, "WAV"), Ok(CfgEdit::Changed(_, None))));
    assert_eq!(app.config.audiobook_format, "wav");
    assert!(matches!(apply(&mut app, ConfigField::PreferredBookNameField, "Оригинальное название"), Ok(_)));
    assert_eq!(app.config.preferred_book_name_field, "original_book_name");
    assert!(matches!(apply(&mut app, ConfigField::PreferredBookNameField, "nope"), Ok(CfgEdit::Rejected)));
    assert!(matches!(apply(&mut app, ConfigField::ApiEndpoints, "a, b;c"), Ok(_)));
    assert_eq!(app.config.api_endpoints, vec!["a", "b", "c"]);
    assert!(matches!(apply(&mut app, ConfigField::SavePath, "  /x  "), Ok(_)));
    assert_eq!(app.config.save_path, "/x");
    assert!(matches!(
        apply(&mut app, ConfigField::FirstLineIndentEm, "2.0"),
        Ok(CfgEdit::FloatValue(ConfigField::FirstLineIndentEm))
    ));
    assert!(matches!(apply_cfg_edit(&mut app, 9, 0), Ok(CfgEdit::Ignored)));
    assert!(matches!(apply_cfg_edit(&mut app, 0, 99), Ok(CfgEdit::Ignored)));
}

#[test]
fn format_and_comments() {
    let mut app = sample_app();
    app.config.novel_format = "txt".to_string();
    assert!(matches!(apply(&mut app, ConfigField::EnableSegmentComments, "true"), Ok(CfgEdit::Rejected)));
    assert_eq!(app.status, "Комментарии к абзацам только для epub — сначала смените формат на epub");
    assert!(!app.config.enable_segment_comments);
    app.config.novel_format = "epub".to_string();
    assert!(matches!(apply(&mut app, ConfigField::EnableSegmentComments, "1"), Ok(_)));
    assert!(app.config.enable_segment_comments);
    match apply(&mut app, ConfigField::NovelFormat, "Формат txt") {
        Ok(CfgEdit::Changed(_, Some(note))) => {
            assert_eq!(note, "Комментарии к абзацам отключены для совместимости с txt")
        },
        other => panic!("{:?}", other),
    }
    assert_eq!(app.config.novel_format, "txt");
    assert!(!app.config.enable_segment_comments);
    assert!(matches!(apply(&mut app, ConfigField::NovelFormat, "BULK_TXT"), Ok(_)));
    assert_eq!(app.config.novel_format, "bulk_txt");
    assert!(matches!(apply(&mut app, ConfigField::NovelFormat, "mobi"), Ok(CfgEdit::Rejected)));
    assert_eq!(
        app.status,
        "Выберите: Формат txt, Формат epub, Формат pdf, Отдельные файлы или Спросить после загрузки"
    );
}

#[test]
fn saved_status_line() {
    assert_eq!(saved_status("Голос", None), "Сохранено: Голос");
    assert_eq!(saved_status("Формат книги", Some("примечание")), "Сохранено: Формат книги (примечание)");
}

#[test]
fn law_format_label_ru_roundtrip_on_values() {
    for v in ["txt", "epub", "pdf", "bulk_txt", "ask_after_download"] {
        assert_eq!(chinese_to_novel_format(output_format_label_ru(v)), Some(v.to_string()));
    }
}

#[test]
fn law_page_int_edit_shows_value_on_values() {
    let mut app = sample_app();
    assert!(apply(&mut app, ConfigField::SegmentCommentsTopN, "+007").is_ok());
    assert_eq!(current_cfg_value(&app, ConfigField::SegmentCommentsTopN), Some("7".to_string()));
}

#[test]
fn law_page_edit_shows_text_on_values() {
    let mut app = sample_app();
    assert!(apply(&mut app, ConfigField::AudiobookTtsModel, "  tts-1  ").is_ok());
    assert_eq!(current_cfg_value(&app, ConfigField::AudiobookTtsModel), Some("tts-1".to_string()));
    assert!(apply(&mut app, ConfigField::KeepHeicOriginal, "ON").is_ok());
    assert_eq!(current_cfg_value(&app, ConfigField::KeepHeicOriginal), Some("true".to_string()));
}

#[test]
fn resaving_shown_values_changes_nothing() {
    let mut app = sample_app();
    app.config.blocked_media_domains = vec!["ads.example".to_string(), "cdn.bad".to_string()];
    let fields: Vec<ConfigField> = app
        .cfg_categories
        .iter()
        .flat_map(|c| c.entries.iter().map(|e| e.field))
        .collect();
    let mut seen = 0;
    for field in fields {
        if let Some(text) = current_cfg_value(&app, field) {
            let before = format!("{:?}", app.config);
            match apply(&mut app, field, &text) {
                Ok(CfgEdit::Changed(_, None)) => {}
                other => panic!("{:?}: {:?}", field, other),
            }
            assert_eq!(format!("{:?}", app.config), before, "{:?}", field);
            seen += 1;
        }
    }
    assert_eq!(seen, 39);
}

#[test]
fn resaving_comments_outside_epub_is_refused_without_change() {
    let mut app = sample_app();
    app.config.novel_format = "pdf".to_string();
    app.config.enable_segment_comments = true;
    let text = current_cfg_value(&app, ConfigField::EnableSegmentComments).unwrap();
    let before = format!("{:?}", app.config);
    assert!(matches!(apply(&mut app, ConfigField::EnableSegmentComments, &text), Ok(CfgEdit::Rejected)));
    assert_eq!(format!("{:?}", app.config), before);
}

#[test]
fn resaving_txt_format_with_comments_turns_them_off() {
    let mut app = sample_app();
    app.config.novel_format = "txt".to_string();
    app.config.enable_segment_comments = true;
    let text = current_cfg_value(&app, ConfigField::NovelFormat).unwrap();
    assert_eq!(text, "Формат txt");
    match apply(&mut app, ConfigField::NovelFormat, &text) {
        Ok(CfgEdit::Changed(title, note)) => {
            assert_eq!(
                saved_status(&title, note.as_deref()),
                "Сохранено: Формат книги (Комментарии к абзацам отключены для совместимости с txt)"
            );
        }
        other => panic!("{:?}", other),
    }
    assert_eq!(app.config.novel_format, "txt");
    assert!(!app.config.enable_segment_comments);
}

#[test]
fn resaving_unknown_audio_format_is_refused_without_change() {
    let mut app = sample_app();
    app.config.audiobook_format = "ogg".to_string();
    let text = current_cfg_value(&app, ConfigField::AudiobookFormat).unwrap();
    let before = format!("{:?}", app.config);
    assert!(matches!(apply(&mut app, ConfigField::AudiobookFormat, &text), Ok(CfgEdit::Rejected)));
    assert_eq!(format!("{:?}", app.config), before);
    assert_eq!(app.status, "Формат только mp3 или wav");
}

#[test]
fn page_edits_keep_wait_order_with_comments_on_txt() {
    let mut app = sample_app();
    app.config.novel_format = "txt".to_string();
    app.config.enable_segment_comments = true;
    assert!(matches!(apply(&mut app, ConfigField::MinWait, "600"), Ok(CfgEdit::Rejected)));
    assert_eq!(app.config.min_wait_time, 100);
    assert!(matches!(apply(&mut app, ConfigField::MaxWait, "50"), Ok(CfgEdit::Rejected)));
    assert_eq!(app.config.max_wait_time, 500);
    assert!(matches!(apply(&mut app, ConfigField::MinWait, "500"), Ok(CfgEdit::Changed(_, None))));
    assert!(app.config.min_wait_time <= app.config.max_wait_time);
}
