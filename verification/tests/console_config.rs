use tomato_novel_downloader::config::Config;
use tomato_novel_downloader::noui_config::{
    apply_config_edit, book_name_field_display, config_option, config_options,
    config_value_display, display_to_book_name_field, option_menu_title, parse_menu_choice,
    parse_selection_choice, selection_entries, set_bool, set_int, set_list, set_string, Choice,
    ConfigField, ConfigValueType, EditOutcome,
};

fn sample_config() -> Config {
    Config {
        save_path: "/books".to_string(),
        novel_format: "epub".to_string(),
        auto_clear_dump: true,
        auto_open_downloaded_files: false,
        allow_overwrite_files: false,
        preferred_book_name_field: "book_name".to_string(),
        old_cli: false,
        enable_segment_comments: false,
        use_official_api: true,
        api_endpoints: vec!["http://a".to_string(), "http://b".to_string()],
        max_workers: 4,
        request_timeout: 15,
        max_retries: 3,
        min_wait_time: 100,
        max_wait_time: 500,
        enable_audiobook: false,
        audiobook_voice: "zh-CN-XiaoxiaoNeural".to_string(),
        audiobook_rate: "+0%".to_string(),
        audiobook_volume: "+0%".to_string(),
        audiobook_pitch: "".to_string(),
        audiobook_format: "mp3".to_string(),
        audiobook_concurrency: 2,
        audiobook_tts_provider: "edge".to_string(),
        audiobook_tts_api_url: "".to_string(),
        audiobook_tts_api_token: "".to_string(),
        audiobook_tts_model: "".to_string(),
        segment_comments_top_n: 10,
        segment_comments_workers: 4,
        download_comment_images: true,
        download_comment_avatars: false,
        media_download_workers: 4,
        blocked_media_domains: vec![],
        force_convert_images_to_jpeg: false,
        jpeg_retry_convert: true,
        jpeg_quality: 85,
        convert_heic_to_jpeg: true,
        keep_heic_original: false,
        media_limit_per_chapter: 0,
        media_max_dimension_px: 0,
    }
}

fn edit(config: &mut Config, field: ConfigField, text: &str) -> Result<EditOutcome, String> {
    apply_config_edit(config, config_option(field), text)
}

#[test]
fn menu_has_every_option_in_order() {
    let opts = config_options();
    assert_eq!(opts.len(), 36);
    assert_eq!(opts[0].name, "Путь сохранения");
    assert_eq!(opts[0].field, ConfigField::SavePath);
    assert_eq!(opts[1].ty, ConfigValueType::Selection);
    assert_eq!(opts[17].field, ConfigField::MinConnectTimeout);
    assert_eq!(opts[17].ty, ConfigValueType::Float);
    assert_eq!(opts[35].name, "Использовать старый CLI (нужен перезапуск)");
    for (i, a) in opts.iter().enumerate() {
        for b in opts.iter().skip(i + 1) {
            assert_ne!(a.field, b.field);
        }
    }
}

#[test]
fn values_are_shown_as_text() {
    let c = sample_config();
    assert_eq!(config_value_display(&c, ConfigField::NovelFormat), Some("Формат epub".to_string()));
    assert_eq!(config_value_display(&c, ConfigField::AutoClearDump), Some("true".to_string()));
    assert_eq!(config_value_display(&c, ConfigField::MaxWaitTime), Some("500".to_string()));
    assert_eq!(config_value_display(&c, ConfigField::ApiEndpoints), Some("http://a,http://b".to_string()));
    assert_eq!(config_value_display(&c, ConfigField::BlockedMediaDomains), Some("".to_string()));
    assert_eq!(
        config_value_display(&c, ConfigField::PreferredBookNameField),
        Some("Название по умолчанию".to_string())
    );
    assert_eq!(config_value_display(&c, ConfigField::MinConnectTimeout), None);
    assert_eq!(config_value_display(&c, ConfigField::FirstLineIndentEm), None);
}

#[test]
fn whole_numbers_are_checked() {
    let mut c = sample_config();
    assert!(matches!(edit(&mut c, ConfigField::MaxWorkers, "8"), Ok(EditOutcome::Done(None))));
    assert_eq!(c.max_workers, 8);
    assert_eq!(
        edit(&mut c, ConfigField::MaxWorkers, "0").unwrap_err(),
        "Макс. число потоков должно быть больше 0"
    );
    assert_eq!(
        edit(&mut c, ConfigField::MaxWorkers, "abc").unwrap_err(),
        "Ошибка преобразования типа: нужно целое число"
    );
    assert_eq!(
        edit(&mut c, ConfigField::MaxRetries, "-5").unwrap_err(),
        "Макс. число повторов не может быть отрицательным"
    );
    assert_eq!(
        edit(&mut c, ConfigField::MinWaitTime, "600").unwrap_err(),
        "Мин. время ожидания не может превышать макс. время ожидания"
    );
    assert_eq!(
        edit(&mut c, ConfigField::MaxWaitTime, "50").unwrap_err(),
        "Макс. время ожидания не может быть меньше мин. времени ожидания"
    );
    assert_eq!(c.min_wait_time, 100);
    assert_eq!(c.max_wait_time, 500);
    assert_eq!(
        edit(&mut c, ConfigField::JpegQuality, "101").unwrap_err(),
        "Качество JPEG должно быть в диапазоне 0–100"
    );
    assert!(edit(&mut c, ConfigField::JpegQuality, "100").is_ok());
    assert_eq!(c.jpeg_quality, 100);
    assert!(edit(&mut c, ConfigField::MediaLimitPerChapter, "0").is_ok());
    assert_eq!(set_int(&mut c, ConfigField::SavePath, 1).unwrap_err(), "Это поле не является int");
}

#[test]
fn law_int_edit_shows_value_on_values() {
    let mut c = sample_config();
    assert!(edit(&mut c, ConfigField::RequestTimeout, "+042").is_ok());
    assert_eq!(config_value_display(&c, ConfigField::RequestTimeout), Some("42".to_string()));
}

#[test]
fn on_off_words() {
    let mut c = sample_config();
    assert!(edit(&mut c, ConfigField::OldCli, "YES").is_ok());
    assert!(c.old_cli);
    assert!(edit(&mut c, ConfigField::OldCli, "nope").is_ok());
    assert!(!c.old_cli);
    assert!(edit(&mut c, ConfigField::OldCli, "y").is_ok());
    assert!(c.old_cli);
    assert_eq!(set_bool(&mut c, ConfigField::MaxWorkers, true).unwrap_err(), "Это поле не является bool");
}

#[test]
fn comments_move_txt_to_epub() {
    let mut c = sample_config();
    c.novel_format = "TXT".to_string();
    match edit(&mut c, ConfigField::EnableSegmentComments, "true") {
        Ok(EditOutcome::Done(Some(note))) => assert_eq!(
            note,
            "Формат сохранения автоматически переключён на EPUB, чтобы включить комментарии к абзацам."
        ),
        other => panic!("{:?}", other),
    }
    assert_eq!(c.novel_format, "epub");
    assert!(c.enable_segment_comments);
}

#[test]
fn choosing_txt_turns_comments_off() {
    let mut c = sample_config();
    c.enable_segment_comments = true;
    match edit(&mut c, ConfigField::NovelFormat, "Формат txt") {
        Ok(EditOutcome::Done(Some(note))) => assert_eq!(
            note,
            "Комментарии к абзацам автоматически отключены для совместимости с форматом TXT."
        ),
        other => panic!("{:?}", other),
    }
    assert_eq!(c.novel_format, "txt");
    assert!(!c.enable_segment_comments);
    assert!(matches!(edit(&mut c, ConfigField::NovelFormat, " pdf "), Ok(EditOutcome::Done(None))));
    assert_eq!(c.novel_format, "pdf");
    assert!(edit(&mut c, ConfigField::NovelFormat, "docx").is_err());
    assert_eq!(c.novel_format, "pdf");
}

#[test]
fn text_settings() {
    let mut c = sample_config();
    assert!(edit(&mut c, ConfigField::AudiobookFormat, " WAV ").is_ok());
    assert_eq!(c.audiobook_format, "wav");
    assert_eq!(
        edit(&mut c, ConfigField::AudiobookFormat, "ogg").unwrap_err(),
        "Формат аудиокниги поддерживает только mp3/wav"
    );
    assert!(edit(&mut c, ConfigField::PreferredBookNameField, "Исходное название").is_ok());
    assert_eq!(c.preferred_book_name_field, "original_book_name");
    assert!(edit(&mut c, ConfigField::PreferredBookNameField, "BOOK_SHORT_NAME").is_ok());
    assert_eq!(c.preferred_book_name_field, "book_short_name");
    assert!(edit(&mut c, ConfigField::PreferredBookNameField, "xxx").is_err());
    assert!(edit(&mut c, ConfigField::AudiobookRate, "+10%").is_ok());
    assert_eq!(c.audiobook_rate, "+10%");
    assert_eq!(set_string(&mut c, ConfigField::MaxWorkers, "1").unwrap_err(), "Это поле не является string");
}

#[test]
fn save_path_asks_for_the_directory() {
    let mut c = sample_config();
    match edit(&mut c, ConfigField::SavePath, "  /tmp/books  ") {
        Ok(EditOutcome::NeedsDirectory(p)) => assert_eq!(p, "/tmp/books"),
        other => panic!("{:?}", other),
    }
    assert_eq!(c.save_path, "/books");
    assert_eq!(edit(&mut c, ConfigField::SavePath, "   ").unwrap_err(), "Путь сохранения не может быть пустым");
}

#[test]
fn lists_and_floats() {
    let mut c = sample_config();
    assert!(edit(&mut c, ConfigField::BlockedMediaDomains, " a.com, b.com,,\nc.com ").is_ok());
    assert_eq!(c.blocked_media_domains, vec!["a.com", "b.com", "c.com"]);
    assert!(matches!(edit(&mut c, ConfigField::MinConnectTimeout, "1.5"), Ok(EditOutcome::FloatValue)));
    assert_eq!(set_list(&mut c, ConfigField::SavePath, vec![]).unwrap_err(), "Это поле не является list");
}

#[test]
fn menu_numbers() {
    assert_eq!(parse_menu_choice("0", 36), Choice::Back);
    assert_eq!(parse_menu_choice(" 0 ", 36), Choice::Back);
    assert_eq!(parse_menu_choice("00", 36), Choice::OutOfRange);
    assert_eq!(parse_menu_choice("37", 36), Choice::OutOfRange);
    assert_eq!(parse_menu_choice("abc", 36), Choice::NotANumber);
    assert_eq!(parse_menu_choice("", 36), Choice::NotANumber);
    assert_eq!(parse_menu_choice(" 3 ", 36), Choice::Pick(2));
    assert_eq!(parse_selection_choice("", 5), Choice::Back);
    assert_eq!(parse_selection_choice("0", 5), Choice::Back);
    assert_eq!(parse_selection_choice("6", 5), Choice::OutOfRange);
    assert_eq!(parse_selection_choice("5", 5), Choice::Pick(4));
}

#[test]
fn selection_entries_and_titles() {
    let formats = selection_entries(ConfigField::NovelFormat);
    assert_eq!(formats.len(), 5);
    assert_eq!(formats[3], ("Отдельные файлы", "bulk_txt"));
    let names = selection_entries(ConfigField::PreferredBookNameField);
    assert_eq!(names[1], ("Исходное название", "Исходное название"));
    assert!(selection_entries(ConfigField::MaxWorkers).is_empty());
    let mut c = sample_config();
    let opt = config_option(ConfigField::EnableSegmentComments);
    assert_eq!(option_menu_title(&c, &opt), "Скачивать комментарии к абзацам");
    c.novel_format = "Txt".to_string();
    assert_eq!(option_menu_title(&c, &opt), "Скачивать комментарии к абзацам (TXT не поддерживается)");
}

#[test]
fn law_book_name_roundtrip_on_values() {
    for f in ["book_name", "original_book_name", "book_short_name", "ask_after_download"] {
        assert_eq!(display_to_book_name_field(book_name_field_display(f)), Some(f.to_string()));
    }
    assert_eq!(book_name_field_display("other"), "Название по умолчанию");
    assert_eq!(display_to_book_name_field("other"), None);
}

#[test]
fn console_edits_keep_wait_order_and_txt_rule_on_values() {
    let mut c = sample_config();
    for (field, text) in [
        (ConfigField::EnableSegmentComments, "true"),
        (ConfigField::NovelFormat, "txt"),
        (ConfigField::EnableSegmentComments, "1"),
        (ConfigField::MinWaitTime, "500"),
        (ConfigField::MaxWaitTime, "499"),
        (ConfigField::MaxWaitTime, "900"),
    ] {
        let _ = edit(&mut c, field, text);
        assert!(c.min_wait_time <= c.max_wait_time);
        assert!(!(c.enable_segment_comments && c.novel_format.eq_ignore_ascii_case("txt")));
    }
}

#[test]
fn law_list_edit_shows_items_on_values() {
    let mut c = sample_config();
    assert!(edit(&mut c, ConfigField::ApiEndpoints, "x, y").is_ok());
    assert_eq!(config_value_display(&c, ConfigField::ApiEndpoints), Some("x,y".to_string()));
}

#[test]
fn reentering_shown_values_changes_nothing() {
    let mut c = sample_config();
    c.blocked_media_domains = vec!["ads.example".to_string(), "cdn.bad".to_string()];
    let mut seen = 0;
    for opt in config_options() {
        let field = opt.field;
        if let Some(text) = config_value_display(&c, field) {
            let before = format!("{:?}", c);
            match apply_config_edit(&mut c, opt, &text) {
                Ok(EditOutcome::Done(None)) => {}
                Ok(EditOutcome::NeedsDirectory(p)) => {
                    assert_eq!(field, ConfigField::SavePath);
                    assert_eq!(p, c.save_path);
                }
                other => panic!("{:?}: {:?}", field, other),
            }
            assert_eq!(format!("{:?}", c), before, "{:?}", field);
            seen += 1;
        }
    }
    assert_eq!(seen, 34);
}
