use tomato_novel_downloader::release_notes::{
    is_dismissed_release, preview_notes, startup_notes_excerpt, startup_update_hint,
};

#[test]
fn preview_keeps_non_blank_lines_trimmed_at_the_end() {
    assert_eq!(preview_notes("line1\n\n  line2  \r\nline3", 8, 800), "line1\n  line2\nline3");
}

#[test]
fn preview_marks_left_out_lines() {
    assert_eq!(preview_notes("a\nb\nc", 2, 800), "a\nb…");
    assert_eq!(preview_notes("a\nb", 2, 800), "a\nb");
    assert_eq!(preview_notes("\n\n\nx", 2, 800), "…");
}

#[test]
fn preview_cuts_on_a_character_boundary() {
    // Each Cyrillic letter takes two bytes.
    assert_eq!(preview_notes("абвгд", 8, 5), "аб…");
    assert_eq!(preview_notes("abc", 8, 3), "abc…");
    assert_eq!(preview_notes("ab\ncd", 8, 4), "ab\nc…");
    assert_eq!(preview_notes("ab\ncd", 8, 3), "ab\n…");
    assert_eq!(preview_notes("abc", 8, 0), "…");
    assert_eq!(preview_notes("   \n", 8, 0), "");
}

#[test]
fn law_preview_within_limit_on_values() {
    let body = "Первая строка изменений\nвторая\n\nтретья строка с текстом\n".repeat(20);
    for max in [0usize, 1, 7, 50, 300] {
        let p = preview_notes(&body, 16, max);
        assert!(p.len() <= max + 3, "{} {}", max, p.len());
    }
}

#[test]
fn startup_hint_and_excerpt() {
    assert_eq!(
        startup_update_hint("v2.0.0", "v1.9.0"),
        "\nПодсказка: обнаружена новая версия v2.0.0 (текущая v1.9.0). Введите c, чтобы посмотреть журнал изменений; введите U для самообновления (если доступно).\n"
    );
    assert_eq!(startup_notes_excerpt("  \n \n"), None);
    assert_eq!(startup_notes_excerpt("- fix\n- feat"), Some("- fix\n- feat".to_string()));
    assert!(is_dismissed_release(Some("v2"), "v2"));
    assert!(!is_dismissed_release(Some("v1"), "v2"));
    assert!(!is_dismissed_release(None, "v2"));
}
