//! The settings editor of the plain console mode: its table of options, how
//! each setting is shown, and how typed text changes a setting.

use vstd::prelude::*;

use crate::config::{
    apply_format_spec, book_name_field_known, format_label_of, format_value_of_label,
    is_book_name_field, output_format_label, output_format_value_from_label, Config, ConfigView,
};
use crate::text::{
    opt_view,
    bool_text, bool_to_string, clean_list, decimal_repr, eq_ignore_ascii_case, join, join_seq,
    lower_seq, parse_i64, parse_unsigned, signed_value, split_seq, split_trimmed, str_eq,
    to_ascii_lowercase, trim, trim_seq, u64_to_string, unsigned_value, views,
    law_decimal_roundtrip, lemma_join_reads_back, lemma_trim_unchanged, plain_items,
};
use crate::config::{is_format_value, law_format_label_roundtrip, lemma_format_literals};

verus! {

/// The kind of value a setting holds.
#[derive(Clone, Copy, Debug, PartialEq, Eq, Structural)]
pub enum ConfigValueType {
    Bool,
    Int,
    Float,
    String,
    List,
    Selection,
}

/// The settings that the console editor offers.
#[derive(Clone, Copy, Debug, PartialEq, Eq, Structural)]
pub enum ConfigField {
    SavePath,
    NovelFormat,
    AutoClearDump,
    AllowOverwriteFiles,
    PreferredBookNameField,
    EnableAudiobook,
    AudiobookVoice,
    AudiobookRate,
    AudiobookVolume,
    AudiobookPitch,
    AudiobookConcurrency,
    AudiobookFormat,
    MaxWorkers,
    RequestTimeout,
    MaxRetries,
    MinWaitTime,
    MaxWaitTime,
    MinConnectTimeout,
    UseOfficialApi,
    ApiEndpoints,
    EnableSegmentComments,
    SegmentCommentsTopN,
    SegmentCommentsWorkers,
    DownloadCommentImages,
    DownloadCommentAvatars,
    MediaDownloadWorkers,
    BlockedMediaDomains,
    ForceConvertImagesToJpeg,
    JpegRetryConvert,
    JpegQuality,
    ConvertHeicToJpeg,
    KeepHeicOriginal,
    MediaLimitPerChapter,
    MediaMaxDimensionPx,
    FirstLineIndentEm,
    OldCli,
}

/// One line of the editor's menu: its title, the setting, the kind of value.
#[derive(Clone, Copy, Debug)]
pub struct ConfigOption {
    pub name: &'static str,
    pub field: ConfigField,
    pub ty: ConfigValueType,
}

/// The settings in the order the menu lists them.
pub open spec fn option_order() -> Seq<ConfigField> {
    seq![
        ConfigField::SavePath,
        ConfigField::NovelFormat,
        ConfigField::AutoClearDump,
        ConfigField::AllowOverwriteFiles,
        ConfigField::PreferredBookNameField,
        ConfigField::EnableAudiobook,
        ConfigField::AudiobookVoice,
        ConfigField::AudiobookRate,
        ConfigField::AudiobookVolume,
        ConfigField::AudiobookPitch,
        ConfigField::AudiobookConcurrency,
        ConfigField::AudiobookFormat,
        ConfigField::MaxWorkers,
        ConfigField::RequestTimeout,
        ConfigField::MaxRetries,
        ConfigField::MinWaitTime,
        ConfigField::MaxWaitTime,
        ConfigField::MinConnectTimeout,
        ConfigField::UseOfficialApi,
        ConfigField::ApiEndpoints,
        ConfigField::EnableSegmentComments,
        ConfigField::SegmentCommentsTopN,
        ConfigField::SegmentCommentsWorkers,
        ConfigField::DownloadCommentImages,
        ConfigField::DownloadCommentAvatars,
        ConfigField::MediaDownloadWorkers,
        ConfigField::BlockedMediaDomains,
        ConfigField::ForceConvertImagesToJpeg,
        ConfigField::JpegRetryConvert,
        ConfigField::JpegQuality,
        ConfigField::ConvertHeicToJpeg,
        ConfigField::KeepHeicOriginal,
        ConfigField::MediaLimitPerChapter,
        ConfigField::MediaMaxDimensionPx,
        ConfigField::FirstLineIndentEm,
        ConfigField::OldCli,
    ]
}

/// The position of `f` in [`option_order`].
pub open spec fn option_index(f: ConfigField) -> int {
    match f {
        ConfigField::SavePath => 0,
        ConfigField::NovelFormat => 1,
        ConfigField::AutoClearDump => 2,
        ConfigField::AllowOverwriteFiles => 3,
        ConfigField::PreferredBookNameField => 4,
        ConfigField::EnableAudiobook => 5,
        ConfigField::AudiobookVoice => 6,
        ConfigField::AudiobookRate => 7,
        ConfigField::AudiobookVolume => 8,
        ConfigField::AudiobookPitch => 9,
        ConfigField::AudiobookConcurrency => 10,
        ConfigField::AudiobookFormat => 11,
        ConfigField::MaxWorkers => 12,
        ConfigField::RequestTimeout => 13,
        ConfigField::MaxRetries => 14,
        ConfigField::MinWaitTime => 15,
        ConfigField::MaxWaitTime => 16,
        ConfigField::MinConnectTimeout => 17,
        ConfigField::UseOfficialApi => 18,
        ConfigField::ApiEndpoints => 19,
        ConfigField::EnableSegmentComments => 20,
        ConfigField::SegmentCommentsTopN => 21,
        ConfigField::SegmentCommentsWorkers => 22,
        ConfigField::DownloadCommentImages => 23,
        ConfigField::DownloadCommentAvatars => 24,
        ConfigField::MediaDownloadWorkers => 25,
        ConfigField::BlockedMediaDomains => 26,
        ConfigField::ForceConvertImagesToJpeg => 27,
        ConfigField::JpegRetryConvert => 28,
        ConfigField::JpegQuality => 29,
        ConfigField::ConvertHeicToJpeg => 30,
        ConfigField::KeepHeicOriginal => 31,
        ConfigField::MediaLimitPerChapter => 32,
        ConfigField::MediaMaxDimensionPx => 33,
        ConfigField::FirstLineIndentEm => 34,
        ConfigField::OldCli => 35,
    }
}

/// The title of `f` in the menu.
pub open spec fn field_title(f: ConfigField) -> Seq<char> {
    match f {
        ConfigField::SavePath => "Путь сохранения"@,
        ConfigField::NovelFormat => "Формат сохранения новеллы"@,
        ConfigField::AutoClearDump => "Автоочистка кэша"@,
        ConfigField::AllowOverwriteFiles => "Разрешить перезапись существующих файлов"@,
        ConfigField::PreferredBookNameField => "Предпочтительное поле названия"@,
        ConfigField::EnableAudiobook => "Создавать аудиокнигу"@,
        ConfigField::AudiobookVoice => "Голос аудиокниги"@,
        ConfigField::AudiobookRate => "Скорость речи аудиокниги (напр. +0%)"@,
        ConfigField::AudiobookVolume => "Громкость аудиокниги (напр. +0%)"@,
        ConfigField::AudiobookPitch => "Высота тона аудиокниги (напр. +2Hz/-1st, можно оставить пустым)"@,
        ConfigField::AudiobookConcurrency => "Параллелизм аудиокниги"@,
        ConfigField::AudiobookFormat => "Формат аудиокниги (mp3/wav)"@,
        ConfigField::MaxWorkers => "Макс. число потоков"@,
        ConfigField::RequestTimeout => "Таймаут запроса (сек)"@,
        ConfigField::MaxRetries => "Макс. число повторов"@,
        ConfigField::MinWaitTime => "Мин. время ожидания (мс)"@,
        ConfigField::MaxWaitTime => "Макс. время ожидания (мс)"@,
        ConfigField::MinConnectTimeout => "Мин. таймаут соединения"@,
        ConfigField::UseOfficialApi => "Использовать официальное API"@,
        ConfigField::ApiEndpoints => "Список своих API (через запятую)"@,
        ConfigField::EnableSegmentComments => "Скачивать комментарии к абзацам"@,
        ConfigField::SegmentCommentsTopN => "Макс. комментариев на абзац"@,
        ConfigField::SegmentCommentsWorkers => "Потоки для комментариев к абзацам"@,
        ConfigField::DownloadCommentImages => "Скачивать изображения комментариев"@,
        ConfigField::DownloadCommentAvatars => "Скачивать аватары комментариев"@,
        ConfigField::MediaDownloadWorkers => "Потоки загрузки изображений комментариев"@,
        ConfigField::BlockedMediaDomains => "Чёрный список доменов изображений (через запятую)"@,
        ConfigField::ForceConvertImagesToJpeg => "Принудительно конвертировать все изображения в JPEG"@,
        ConfigField::JpegRetryConvert => "Пытаться конвертировать не-JPEG в JPEG"@,
        ConfigField::JpegQuality => "Качество JPEG (0-100)"@,
        ConfigField::ConvertHeicToJpeg => "Конвертировать HEIC в JPEG"@,
        ConfigField::KeepHeicOriginal => "Сохранять исходные HEIC-файлы"@,
        ConfigField::MediaLimitPerChapter => "Лимит медиа на главу (0 — без ограничений)"@,
        ConfigField::MediaMaxDimensionPx => "Макс. длинная сторона изображения в пикселях (>0 включает)"@,
        ConfigField::FirstLineIndentEm => "Отступ первой строки EPUB (em)"@,
        ConfigField::OldCli => "Использовать старый CLI (нужен перезапуск)"@,
    }
}

/// The kind of value `f` holds.
pub open spec fn field_type(f: ConfigField) -> ConfigValueType {
    match f {
        ConfigField::SavePath | ConfigField::AudiobookVoice | ConfigField::AudiobookRate
        | ConfigField::AudiobookVolume | ConfigField::AudiobookPitch
        | ConfigField::AudiobookFormat => ConfigValueType::String,
        ConfigField::NovelFormat | ConfigField::PreferredBookNameField => ConfigValueType::Selection,
        ConfigField::AudiobookConcurrency | ConfigField::MaxWorkers | ConfigField::RequestTimeout
        | ConfigField::MaxRetries | ConfigField::MinWaitTime | ConfigField::MaxWaitTime
        | ConfigField::SegmentCommentsTopN | ConfigField::SegmentCommentsWorkers
        | ConfigField::MediaDownloadWorkers | ConfigField::JpegQuality
        | ConfigField::MediaLimitPerChapter | ConfigField::MediaMaxDimensionPx => ConfigValueType::Int,
        ConfigField::MinConnectTimeout | ConfigField::FirstLineIndentEm => ConfigValueType::Float,
        ConfigField::ApiEndpoints | ConfigField::BlockedMediaDomains => ConfigValueType::List,
        _ => ConfigValueType::Bool,
    }
}

/// The menu line of `f`.
pub fn config_option(f: ConfigField) -> (r: ConfigOption)
    ensures
        r.field == f,
        r.ty == field_type(f),
        r.name@ == field_title(f),
{
    let (name, ty) = match f {
        ConfigField::SavePath => ("Путь сохранения", ConfigValueType::String),
        ConfigField::NovelFormat => ("Формат сохранения новеллы", ConfigValueType::Selection),
        ConfigField::AutoClearDump => ("Автоочистка кэша", ConfigValueType::Bool),
        ConfigField::AllowOverwriteFiles => ("Разрешить перезапись существующих файлов", ConfigValueType::Bool),
        ConfigField::PreferredBookNameField => ("Предпочтительное поле названия", ConfigValueType::Selection),
        ConfigField::EnableAudiobook => ("Создавать аудиокнигу", ConfigValueType::Bool),
        ConfigField::AudiobookVoice => ("Голос аудиокниги", ConfigValueType::String),
        ConfigField::AudiobookRate => ("Скорость речи аудиокниги (напр. +0%)", ConfigValueType::String),
        ConfigField::AudiobookVolume => ("Громкость аудиокниги (напр. +0%)", ConfigValueType::String),
        ConfigField::AudiobookPitch => ("Высота тона аудиокниги (напр. +2Hz/-1st, можно оставить пустым)", ConfigValueType::String),
        ConfigField::AudiobookConcurrency => ("Параллелизм аудиокниги", ConfigValueType::Int),
        ConfigField::AudiobookFormat => ("Формат аудиокниги (mp3/wav)", ConfigValueType::String),
        ConfigField::MaxWorkers => ("Макс. число потоков", ConfigValueType::Int),
        ConfigField::RequestTimeout => ("Таймаут запроса (сек)", ConfigValueType::Int),
        ConfigField::MaxRetries => ("Макс. число повторов", ConfigValueType::Int),
        ConfigField::MinWaitTime => ("Мин. время ожидания (мс)", ConfigValueType::Int),
        ConfigField::MaxWaitTime => ("Макс. время ожидания (мс)", ConfigValueType::Int),
        ConfigField::MinConnectTimeout => ("Мин. таймаут соединения", ConfigValueType::Float),
        ConfigField::UseOfficialApi => ("Использовать официальное API", ConfigValueType::Bool),
        ConfigField::ApiEndpoints => ("Список своих API (через запятую)", ConfigValueType::List),
        ConfigField::EnableSegmentComments => ("Скачивать комментарии к абзацам", ConfigValueType::Bool),
        ConfigField::SegmentCommentsTopN => ("Макс. комментариев на абзац", ConfigValueType::Int),
        ConfigField::SegmentCommentsWorkers => ("Потоки для комментариев к абзацам", ConfigValueType::Int),
        ConfigField::DownloadCommentImages => ("Скачивать изображения комментариев", ConfigValueType::Bool),
        ConfigField::DownloadCommentAvatars => ("Скачивать аватары комментариев", ConfigValueType::Bool),
        ConfigField::MediaDownloadWorkers => ("Потоки загрузки изображений комментариев", ConfigValueType::Int),
        ConfigField::BlockedMediaDomains => ("Чёрный список доменов изображений (через запятую)", ConfigValueType::List),
        ConfigField::ForceConvertImagesToJpeg => ("Принудительно конвертировать все изображения в JPEG", ConfigValueType::Bool),
        ConfigField::JpegRetryConvert => ("Пытаться конвертировать не-JPEG в JPEG", ConfigValueType::Bool),
        ConfigField::JpegQuality => ("Качество JPEG (0-100)", ConfigValueType::Int),
        ConfigField::ConvertHeicToJpeg => ("Конвертировать HEIC в JPEG", ConfigValueType::Bool),
        ConfigField::KeepHeicOriginal => ("Сохранять исходные HEIC-файлы", ConfigValueType::Bool),
        ConfigField::MediaLimitPerChapter => ("Лимит медиа на главу (0 — без ограничений)", ConfigValueType::Int),
        ConfigField::MediaMaxDimensionPx => ("Макс. длинная сторона изображения в пикселях (>0 включает)", ConfigValueType::Int),
        ConfigField::FirstLineIndentEm => ("Отступ первой строки EPUB (em)", ConfigValueType::Float),
        ConfigField::OldCli => ("Использовать старый CLI (нужен перезапуск)", ConfigValueType::Bool),
    };
    ConfigOption { name, field: f, ty }
}

/// The menu of the console editor, in its order.
pub fn config_options() -> (r: Vec<ConfigOption>)
    ensures
        r@.len() == option_order().len(),
        forall|i: int|
            0 <= i < r@.len() ==> (#[trigger] r@[i]).field == option_order()[i] && r@[i].ty
                == field_type(r@[i].field) && r@[i].name@ == field_title(r@[i].field),
{
    let mut r: Vec<ConfigOption> = Vec::new();
    let mut i: usize = 0;
    while i < 36
        invariant
            i <= 36,
            option_order().len() == 36,
            r@.len() == i,
            forall|j: int|
                0 <= j < i ==> (#[trigger] r@[j]).field == option_order()[j] && r@[j].ty
                    == field_type(r@[j].field) && r@[j].name@ == field_title(r@[j].field),
        decreases 36 - i,
    {
        let f = field_at(i);
        r.push(config_option(f));
        i = i + 1;
    }
    r
}

/// The setting at position `i` of the menu.
fn field_at(i: usize) -> (f: ConfigField)
    requires
        i < 36,
    ensures
        f == option_order()[i as int],
{
    match i {
        0 => ConfigField::SavePath,
        1 => ConfigField::NovelFormat,
        2 => ConfigField::AutoClearDump,
        3 => ConfigField::AllowOverwriteFiles,
        4 => ConfigField::PreferredBookNameField,
        5 => ConfigField::EnableAudiobook,
        6 => ConfigField::AudiobookVoice,
        7 => ConfigField::AudiobookRate,
        8 => ConfigField::AudiobookVolume,
        9 => ConfigField::AudiobookPitch,
        10 => ConfigField::AudiobookConcurrency,
        11 => ConfigField::AudiobookFormat,
        12 => ConfigField::MaxWorkers,
        13 => ConfigField::RequestTimeout,
        14 => ConfigField::MaxRetries,
        15 => ConfigField::MinWaitTime,
        16 => ConfigField::MaxWaitTime,
        17 => ConfigField::MinConnectTimeout,
        18 => ConfigField::UseOfficialApi,
        19 => ConfigField::ApiEndpoints,
        20 => ConfigField::EnableSegmentComments,
        21 => ConfigField::SegmentCommentsTopN,
        22 => ConfigField::SegmentCommentsWorkers,
        23 => ConfigField::DownloadCommentImages,
        24 => ConfigField::DownloadCommentAvatars,
        25 => ConfigField::MediaDownloadWorkers,
        26 => ConfigField::BlockedMediaDomains,
        27 => ConfigField::ForceConvertImagesToJpeg,
        28 => ConfigField::JpegRetryConvert,
        29 => ConfigField::JpegQuality,
        30 => ConfigField::ConvertHeicToJpeg,
        31 => ConfigField::KeepHeicOriginal,
        32 => ConfigField::MediaLimitPerChapter,
        33 => ConfigField::MediaMaxDimensionPx,
        34 => ConfigField::FirstLineIndentEm,
        _ => ConfigField::OldCli,
    }
}

/// Every setting appears exactly once in the menu: the menu and the
/// positions of [`option_index`] undo each other.
pub proof fn law_menu_lists_every_field_once(f: ConfigField, i: int)
    requires
        0 <= i < option_order().len(),
    ensures
        option_order().len() == 36,
        0 <= option_index(f) < 36,
        option_order()[option_index(f)] == f,
        option_index(option_order()[i]) == i,
{
}


/// The label the console editor shows for the book-name field `f`; an
/// unknown field reads as the default name.
pub open spec fn book_name_label(f: Seq<char>) -> Seq<char> {
    if f == "original_book_name"@ {
        "Исходное название"@
    } else if f == "book_short_name"@ {
        "Короткое название"@
    } else if f == "ask_after_download"@ {
        "Выбрать после загрузки"@
    } else {
        "Название по умолчанию"@
    }
}

/// The book-name field whose console label is `d`, if any.
pub open spec fn book_name_of_label(d: Seq<char>) -> Option<Seq<char>> {
    if d == "Название по умолчанию"@ {
        Some("book_name"@)
    } else if d == "Исходное название"@ {
        Some("original_book_name"@)
    } else if d == "Короткое название"@ {
        Some("book_short_name"@)
    } else if d == "Выбрать после загрузки"@ {
        Some("ask_after_download"@)
    } else {
        None
    }
}

/// The label shown for the book-name field `field`.
pub fn book_name_field_display(field: &str) -> (r: &'static str)
    ensures
        r@ == book_name_label(field@),
{
    if str_eq(field, "original_book_name") {
        "Исходное название"
    } else if str_eq(field, "book_short_name") {
        "Короткое название"
    } else if str_eq(field, "ask_after_download") {
        "Выбрать после загрузки"
    } else {
        "Название по умолчанию"
    }
}

/// The book-name field whose label is `display`, if any.
pub fn display_to_book_name_field(display: &str) -> (r: Option<String>)
    ensures
        opt_view(r) == book_name_of_label(display@),
{
    if str_eq(display, "Название по умолчанию") {
        Some("book_name".to_string())
    } else if str_eq(display, "Исходное название") {
        Some("original_book_name".to_string())
    } else if str_eq(display, "Короткое название") {
        Some("book_short_name".to_string())
    } else if str_eq(display, "Выбрать после загрузки") {
        Some("ask_after_download".to_string())
    } else {
        None
    }
}

/// The text the console editor shows for `f` in `c`; none for the two
/// floating-point settings, which `Config` does not hold.
pub open spec fn value_text(c: ConfigView, f: ConfigField) -> Option<Seq<char>> {
    match f {
        ConfigField::SavePath => Some(c.save_path),
        ConfigField::NovelFormat => Some(format_label_of(c.novel_format)),
        ConfigField::AutoClearDump => Some(bool_text(c.auto_clear_dump)),
        ConfigField::AllowOverwriteFiles => Some(bool_text(c.allow_overwrite_files)),
        ConfigField::PreferredBookNameField => Some(book_name_label(c.preferred_book_name_field)),
        ConfigField::EnableAudiobook => Some(bool_text(c.enable_audiobook)),
        ConfigField::AudiobookVoice => Some(c.audiobook_voice),
        ConfigField::AudiobookRate => Some(c.audiobook_rate),
        ConfigField::AudiobookVolume => Some(c.audiobook_volume),
        ConfigField::AudiobookPitch => Some(c.audiobook_pitch),
        ConfigField::AudiobookConcurrency => Some(decimal_repr(c.audiobook_concurrency as nat)),
        ConfigField::AudiobookFormat => Some(c.audiobook_format),
        ConfigField::MaxWorkers => Some(decimal_repr(c.max_workers as nat)),
        ConfigField::RequestTimeout => Some(decimal_repr(c.request_timeout as nat)),
        ConfigField::MaxRetries => Some(decimal_repr(c.max_retries as nat)),
        ConfigField::MinWaitTime => Some(decimal_repr(c.min_wait_time as nat)),
        ConfigField::MaxWaitTime => Some(decimal_repr(c.max_wait_time as nat)),
        ConfigField::MinConnectTimeout => None,
        ConfigField::UseOfficialApi => Some(bool_text(c.use_official_api)),
        ConfigField::ApiEndpoints => Some(join_seq(c.api_endpoints, ","@)),
        ConfigField::EnableSegmentComments => Some(bool_text(c.enable_segment_comments)),
        ConfigField::SegmentCommentsTopN => Some(decimal_repr(c.segment_comments_top_n as nat)),
        ConfigField::SegmentCommentsWorkers => Some(decimal_repr(c.segment_comments_workers as nat)),
        ConfigField::DownloadCommentImages => Some(bool_text(c.download_comment_images)),
        ConfigField::DownloadCommentAvatars => Some(bool_text(c.download_comment_avatars)),
        ConfigField::MediaDownloadWorkers => Some(decimal_repr(c.media_download_workers as nat)),
        ConfigField::BlockedMediaDomains => Some(join_seq(c.blocked_media_domains, ","@)),
        ConfigField::ForceConvertImagesToJpeg => Some(bool_text(c.force_convert_images_to_jpeg)),
        ConfigField::JpegRetryConvert => Some(bool_text(c.jpeg_retry_convert)),
        ConfigField::JpegQuality => Some(decimal_repr(c.jpeg_quality as nat)),
        ConfigField::ConvertHeicToJpeg => Some(bool_text(c.convert_heic_to_jpeg)),
        ConfigField::KeepHeicOriginal => Some(bool_text(c.keep_heic_original)),
        ConfigField::MediaLimitPerChapter => Some(decimal_repr(c.media_limit_per_chapter as nat)),
        ConfigField::MediaMaxDimensionPx => Some(decimal_repr(c.media_max_dimension_px as nat)),
        ConfigField::FirstLineIndentEm => None,
        ConfigField::OldCli => Some(bool_text(c.old_cli)),
    }
}

/// The text the console editor shows for `field`; `None` for the two
/// floating-point settings.
pub fn config_value_display(config: &Config, field: ConfigField) -> (r: Option<String>)
    ensures
        opt_view(r) == value_text(config@, field),
{
    match field {
        ConfigField::SavePath => Some(config.save_path.clone()),
        ConfigField::NovelFormat => Some(
            output_format_label(config.current_output_format_choice()).to_string(),
        ),
        ConfigField::AutoClearDump => Some(bool_to_string(config.auto_clear_dump)),
        ConfigField::AllowOverwriteFiles => Some(bool_to_string(config.allow_overwrite_files)),
        ConfigField::PreferredBookNameField => Some(
            book_name_field_display(config.preferred_book_name_field.as_str()).to_string(),
        ),
        ConfigField::EnableAudiobook => Some(bool_to_string(config.enable_audiobook)),
        ConfigField::AudiobookVoice => Some(config.audiobook_voice.clone()),
        ConfigField::AudiobookRate => Some(config.audiobook_rate.clone()),
        ConfigField::AudiobookVolume => Some(config.audiobook_volume.clone()),
        ConfigField::AudiobookPitch => Some(config.audiobook_pitch.clone()),
        ConfigField::AudiobookConcurrency => Some(u64_to_string(config.audiobook_concurrency as u64)),
        ConfigField::AudiobookFormat => Some(config.audiobook_format.clone()),
        ConfigField::MaxWorkers => Some(u64_to_string(config.max_workers as u64)),
        ConfigField::RequestTimeout => Some(u64_to_string(config.request_timeout)),
        ConfigField::MaxRetries => Some(u64_to_string(config.max_retries as u64)),
        ConfigField::MinWaitTime => Some(u64_to_string(config.min_wait_time)),
        ConfigField::MaxWaitTime => Some(u64_to_string(config.max_wait_time)),
        ConfigField::MinConnectTimeout => None,
        ConfigField::UseOfficialApi => Some(bool_to_string(config.use_official_api)),
        ConfigField::ApiEndpoints => Some(join(&config.api_endpoints, ",")),
        ConfigField::EnableSegmentComments => Some(bool_to_string(config.enable_segment_comments)),
        ConfigField::SegmentCommentsTopN => Some(u64_to_string(config.segment_comments_top_n as u64)),
        ConfigField::SegmentCommentsWorkers => Some(u64_to_string(config.segment_comments_workers as u64)),
        ConfigField::DownloadCommentImages => Some(bool_to_string(config.download_comment_images)),
        ConfigField::DownloadCommentAvatars => Some(bool_to_string(config.download_comment_avatars)),
        ConfigField::MediaDownloadWorkers => Some(u64_to_string(config.media_download_workers as u64)),
        ConfigField::BlockedMediaDomains => Some(join(&config.blocked_media_domains, ",")),
        ConfigField::ForceConvertImagesToJpeg => Some(bool_to_string(config.force_convert_images_to_jpeg)),
        ConfigField::JpegRetryConvert => Some(bool_to_string(config.jpeg_retry_convert)),
        ConfigField::JpegQuality => Some(u64_to_string(config.jpeg_quality as u64)),
        ConfigField::ConvertHeicToJpeg => Some(bool_to_string(config.convert_heic_to_jpeg)),
        ConfigField::KeepHeicOriginal => Some(bool_to_string(config.keep_heic_original)),
        ConfigField::MediaLimitPerChapter => Some(u64_to_string(config.media_limit_per_chapter as u64)),
        ConfigField::MediaMaxDimensionPx => Some(u64_to_string(config.media_max_dimension_px as u64)),
        ConfigField::FirstLineIndentEm => None,
        ConfigField::OldCli => Some(bool_to_string(config.old_cli)),
    }
}


/// What an edit did, as plain values.
pub enum EditOutcomeView {
    /// The settings became the first value; the second is a note to show.
    Done(ConfigView, Option<Seq<char>>),
    /// The save path is to become this directory once it exists.
    NeedsDirectory(Seq<char>),
    /// The value is a floating-point number, which the caller handles.
    FloatValue,
}

/// What an edit did.
#[derive(Debug)]
pub enum EditOutcome {
    /// The setting changed; the text, if any, is a note to show.
    Done(Option<String>),
    /// The save path is to become this directory: the caller creates it and
    /// then stores it.
    NeedsDirectory(String),
    /// The value is a floating-point number, which the caller parses and
    /// stores.
    FloatValue,
}

/// Whether the result `r` of an edit, with the settings `before` and
/// `after` it, is the one that `s` describes.
pub open spec fn edit_holds(
    r: Result<EditOutcome, String>,
    s: Result<EditOutcomeView, Seq<char>>,
    before: ConfigView,
    after: ConfigView,
) -> bool {
    match s {
        Err(m) => r matches Err(e) && e@ == m && after == before,
        Ok(EditOutcomeView::Done(c, note)) => r matches Ok(EditOutcome::Done(n)) && opt_view(n)
            == note && after == c,
        Ok(EditOutcomeView::NeedsDirectory(p)) => r matches Ok(EditOutcome::NeedsDirectory(q))
            && q@ == p && after == before,
        Ok(EditOutcomeView::FloatValue) => r matches Ok(EditOutcome::FloatValue) && after == before,
    }
}

/// Whether the typed text `t` means "on": `true`, `1`, `yes` or `y`, in any
/// ASCII case.
pub open spec fn bool_word(t: Seq<char>) -> bool {
    let l = lower_seq(t);
    l == "true"@ || l == "1"@ || l == "yes"@ || l == "y"@
}

/// The note shown when turning on paragraph comments moves the format from
/// txt to EPUB.
pub open spec fn epub_switch_note() -> Seq<char> {
    "Формат сохранения автоматически переключён на EPUB, чтобы включить комментарии к абзацам."@
}

/// The note shown when choosing txt turns paragraph comments off.
pub open spec fn comments_off_note() -> Seq<char> {
    "Комментарии к абзацам автоматически отключены для совместимости с форматом TXT."@
}

/// The effect of setting the on/off setting `f` to `v` in `c`.
pub open spec fn bool_edit(c: ConfigView, f: ConfigField, v: bool) -> Result<EditOutcomeView, Seq<char>> {
    match f {
        ConfigField::AutoClearDump => Ok(EditOutcomeView::Done(ConfigView { auto_clear_dump: v, ..c }, None)),
        ConfigField::AllowOverwriteFiles => Ok(EditOutcomeView::Done(ConfigView { allow_overwrite_files: v, ..c }, None)),
        ConfigField::EnableAudiobook => Ok(EditOutcomeView::Done(ConfigView { enable_audiobook: v, ..c }, None)),
        ConfigField::UseOfficialApi => Ok(EditOutcomeView::Done(ConfigView { use_official_api: v, ..c }, None)),
        ConfigField::EnableSegmentComments => if v && lower_seq(c.novel_format) == "txt"@ {
            Ok(EditOutcomeView::Done(
                ConfigView { novel_format: "epub"@, enable_segment_comments: v, ..c },
                Some(epub_switch_note()),
            ))
        } else {
            Ok(EditOutcomeView::Done(ConfigView { enable_segment_comments: v, ..c }, None))
        },
        ConfigField::DownloadCommentImages => Ok(EditOutcomeView::Done(ConfigView { download_comment_images: v, ..c }, None)),
        ConfigField::DownloadCommentAvatars => Ok(EditOutcomeView::Done(ConfigView { download_comment_avatars: v, ..c }, None)),
        ConfigField::ForceConvertImagesToJpeg => Ok(EditOutcomeView::Done(ConfigView { force_convert_images_to_jpeg: v, ..c }, None)),
        ConfigField::JpegRetryConvert => Ok(EditOutcomeView::Done(ConfigView { jpeg_retry_convert: v, ..c }, None)),
        ConfigField::ConvertHeicToJpeg => Ok(EditOutcomeView::Done(ConfigView { convert_heic_to_jpeg: v, ..c }, None)),
        ConfigField::KeepHeicOriginal => Ok(EditOutcomeView::Done(ConfigView { keep_heic_original: v, ..c }, None)),
        ConfigField::OldCli => Ok(EditOutcomeView::Done(ConfigView { old_cli: v, ..c }, None)),
        _ => Err("Это поле не является bool"@),
    }
}

fn set_bool_auto_clear_dump(config: &mut Config, v: bool) -> (r: Result<EditOutcome, String>)
    ensures
        edit_holds(r, bool_edit(old(config)@, ConfigField::AutoClearDump, v), old(config)@, final(config)@),
{
    config.auto_clear_dump = v;
    Ok(EditOutcome::Done(None))
}

fn set_bool_allow_overwrite_files(config: &mut Config, v: bool) -> (r: Result<EditOutcome, String>)
    ensures
        edit_holds(r, bool_edit(old(config)@, ConfigField::AllowOverwriteFiles, v), old(config)@, final(config)@),
{
    config.allow_overwrite_files = v;
    Ok(EditOutcome::Done(None))
}

fn set_bool_enable_audiobook(config: &mut Config, v: bool) -> (r: Result<EditOutcome, String>)
    ensures
        edit_holds(r, bool_edit(old(config)@, ConfigField::EnableAudiobook, v), old(config)@, final(config)@),
{
    config.enable_audiobook = v;
    Ok(EditOutcome::Done(None))
}

fn set_bool_use_official_api(config: &mut Config, v: bool) -> (r: Result<EditOutcome, String>)
    ensures
        edit_holds(r, bool_edit(old(config)@, ConfigField::UseOfficialApi, v), old(config)@, final(config)@),
{
    config.use_official_api = v;
    Ok(EditOutcome::Done(None))
}

fn set_bool_download_comment_images(config: &mut Config, v: bool) -> (r: Result<EditOutcome, String>)
    ensures
        edit_holds(r, bool_edit(old(config)@, ConfigField::DownloadCommentImages, v), old(config)@, final(config)@),
{
    config.download_comment_images = v;
    Ok(EditOutcome::Done(None))
}

fn set_bool_download_comment_avatars(config: &mut Config, v: bool) -> (r: Result<EditOutcome, String>)
    ensures
        edit_holds(r, bool_edit(old(config)@, ConfigField::DownloadCommentAvatars, v), old(config)@, final(config)@),
{
    config.download_comment_avatars = v;
    Ok(EditOutcome::Done(None))
}

fn set_bool_force_convert_images_to_jpeg(config: &mut Config, v: bool) -> (r: Result<EditOutcome, String>)
    ensures
        edit_holds(r, bool_edit(old(config)@, ConfigField::ForceConvertImagesToJpeg, v), old(config)@, final(config)@),
{
    config.force_convert_images_to_jpeg = v;
    Ok(EditOutcome::Done(None))
}

fn set_bool_jpeg_retry_convert(config: &mut Config, v: bool) -> (r: Result<EditOutcome, String>)
    ensures
        edit_holds(r, bool_edit(old(config)@, ConfigField::JpegRetryConvert, v), old(config)@, final(config)@),
{
    config.jpeg_retry_convert = v;
    Ok(EditOutcome::Done(None))
}

fn set_bool_convert_heic_to_jpeg(config: &mut Config, v: bool) -> (r: Result<EditOutcome, String>)
    ensures
        edit_holds(r, bool_edit(old(config)@, ConfigField::ConvertHeicToJpeg, v), old(config)@, final(config)@),
{
    config.convert_heic_to_jpeg = v;
    Ok(EditOutcome::Done(None))
}

fn set_bool_keep_heic_original(config: &mut Config, v: bool) -> (r: Result<EditOutcome, String>)
    ensures
        edit_holds(r, bool_edit(old(config)@, ConfigField::KeepHeicOriginal, v), old(config)@, final(config)@),
{
    config.keep_heic_original = v;
    Ok(EditOutcome::Done(None))
}

fn set_bool_old_cli(config: &mut Config, v: bool) -> (r: Result<EditOutcome, String>)
    ensures
        edit_holds(r, bool_edit(old(config)@, ConfigField::OldCli, v), old(config)@, final(config)@),
{
    config.old_cli = v;
    Ok(EditOutcome::Done(None))
}

fn set_bool_enable_segment_comments(config: &mut Config, v: bool) -> (r: Result<EditOutcome, String>)
    ensures
        edit_holds(r, bool_edit(old(config)@, ConfigField::EnableSegmentComments, v), old(config)@, final(config)@),
{
    let mut note: Option<String> = None;
    if v && eq_ignore_ascii_case(config.novel_format.as_str(), "txt") {
        proof {
            reveal_strlit("txt");
            assert(lower_seq("txt"@) =~= "txt"@);
        }
        config.novel_format = "epub".to_string();
        note = Some(
            "Формат сохранения автоматически переключён на EPUB, чтобы включить комментарии к абзацам.".to_string(),
        );
    } else {
        proof {
            reveal_strlit("txt");
            assert(lower_seq("txt"@) =~= "txt"@);
        }
    }
    config.enable_segment_comments = v;
    Ok(EditOutcome::Done(note))
}

/// Sets the on/off setting `field` to `v`. Turning paragraph comments on
/// while the format is txt switches the format to EPUB and says so.
pub fn set_bool(config: &mut Config, field: ConfigField, v: bool) -> (r: Result<EditOutcome, String>)
    ensures
        edit_holds(r, bool_edit(old(config)@, field, v), old(config)@, final(config)@),
{
    match field {
        ConfigField::AutoClearDump => set_bool_auto_clear_dump(config, v),
        ConfigField::AllowOverwriteFiles => set_bool_allow_overwrite_files(config, v),
        ConfigField::EnableAudiobook => set_bool_enable_audiobook(config, v),
        ConfigField::UseOfficialApi => set_bool_use_official_api(config, v),
        ConfigField::EnableSegmentComments => set_bool_enable_segment_comments(config, v),
        ConfigField::DownloadCommentImages => set_bool_download_comment_images(config, v),
        ConfigField::DownloadCommentAvatars => set_bool_download_comment_avatars(config, v),
        ConfigField::ForceConvertImagesToJpeg => set_bool_force_convert_images_to_jpeg(config, v),
        ConfigField::JpegRetryConvert => set_bool_jpeg_retry_convert(config, v),
        ConfigField::ConvertHeicToJpeg => set_bool_convert_heic_to_jpeg(config, v),
        ConfigField::KeepHeicOriginal => set_bool_keep_heic_original(config, v),
        ConfigField::OldCli => set_bool_old_cli(config, v),
        _ => Err("Это поле не является bool".to_string()),
    }
}

/// The effect of setting the whole-number setting `f` to `v` in `c`: each
/// setting checks its range, and the two waits keep `min <= max`.
pub open spec fn int_edit(c: ConfigView, f: ConfigField, v: int) -> Result<ConfigView, Seq<char>> {
    match f {
        ConfigField::MaxWorkers => if v <= 0 {
            Err("Макс. число потоков должно быть больше 0"@)
        } else {
            Ok(ConfigView { max_workers: v as usize, ..c })
        },
        ConfigField::RequestTimeout => if v <= 0 {
            Err("Таймаут запроса должен быть больше 0"@)
        } else {
            Ok(ConfigView { request_timeout: v as u64, ..c })
        },
        ConfigField::MaxRetries => if v < 0 {
            Err("Макс. число повторов не может быть отрицательным"@)
        } else {
            Ok(ConfigView { max_retries: v as u32, ..c })
        },
        ConfigField::MinWaitTime => if v < 0 {
            Err("Мин. время ожидания не может быть отрицательным"@)
        } else if v > c.max_wait_time {
            Err("Мин. время ожидания не может превышать макс. время ожидания"@)
        } else {
            Ok(ConfigView { min_wait_time: v as u64, ..c })
        },
        ConfigField::MaxWaitTime => if v < 0 {
            Err("Макс. время ожидания не может быть отрицательным"@)
        } else if v < c.min_wait_time {
            Err("Макс. время ожидания не может быть меньше мин. времени ожидания"@)
        } else {
            Ok(ConfigView { max_wait_time: v as u64, ..c })
        },
        ConfigField::AudiobookConcurrency => if v <= 0 {
            Err("Параллелизм аудиокниги должен быть больше 0"@)
        } else {
            Ok(ConfigView { audiobook_concurrency: v as usize, ..c })
        },
        ConfigField::SegmentCommentsTopN => if v <= 0 {
            Err("Лимит комментариев к абзацам должен быть больше 0"@)
        } else {
            Ok(ConfigView { segment_comments_top_n: v as usize, ..c })
        },
        ConfigField::SegmentCommentsWorkers => if v <= 0 {
            Err("Число потоков для комментариев к абзацам должно быть больше 0"@)
        } else {
            Ok(ConfigView { segment_comments_workers: v as usize, ..c })
        },
        ConfigField::MediaDownloadWorkers => if v <= 0 {
            Err("Число медиа-потоков должно быть больше 0"@)
        } else {
            Ok(ConfigView { media_download_workers: v as usize, ..c })
        },
        ConfigField::JpegQuality => if !(0 <= v <= 100) {
            Err("Качество JPEG должно быть в диапазоне 0–100"@)
        } else {
            Ok(ConfigView { jpeg_quality: v as u8, ..c })
        },
        ConfigField::MediaLimitPerChapter => if v < 0 {
            Err("Лимит медиа на главу не может быть отрицательным"@)
        } else {
            Ok(ConfigView { media_limit_per_chapter: v as usize, ..c })
        },
        ConfigField::MediaMaxDimensionPx => if v < 0 {
            Err("Макс. длинная сторона изображения не может быть отрицательной"@)
        } else {
            Ok(ConfigView { media_max_dimension_px: v as u32, ..c })
        },
        _ => Err("Это поле не является int"@),
    }
}

/// Whether `r`, with the settings `before` and `after`, is the effect that
/// [`int_edit`] describes for `f` and `v`.
pub open spec fn int_edit_holds(
    r: Result<(), String>,
    before: ConfigView,
    after: ConfigView,
    f: ConfigField,
    v: int,
) -> bool {
    match int_edit(before, f, v) {
        Ok(c) => r is Ok && after == c,
        Err(m) => r matches Err(e) && e@ == m && after == before,
    }
}

fn set_int_max_workers(config: &mut Config, v: i64) -> (r: Result<(), String>)
    ensures
        int_edit_holds(r, old(config)@, final(config)@, ConfigField::MaxWorkers, v as int),
{
    if v <= 0 {
        return Err("Макс. число потоков должно быть больше 0".to_string());
    }
    config.max_workers = v as usize;
    Ok(())
}

fn set_int_request_timeout(config: &mut Config, v: i64) -> (r: Result<(), String>)
    ensures
        int_edit_holds(r, old(config)@, final(config)@, ConfigField::RequestTimeout, v as int),
{
    if v <= 0 {
        return Err("Таймаут запроса должен быть больше 0".to_string());
    }
    config.request_timeout = v as u64;
    Ok(())
}

fn set_int_max_retries(config: &mut Config, v: i64) -> (r: Result<(), String>)
    ensures
        int_edit_holds(r, old(config)@, final(config)@, ConfigField::MaxRetries, v as int),
{
    if v < 0 {
        return Err("Макс. число повторов не может быть отрицательным".to_string());
    }
    config.max_retries = v as u32;
    Ok(())
}

fn set_int_min_wait_time(config: &mut Config, v: i64) -> (r: Result<(), String>)
    ensures
        int_edit_holds(r, old(config)@, final(config)@, ConfigField::MinWaitTime, v as int),
{
    if v < 0 {
        return Err("Мин. время ожидания не может быть отрицательным".to_string());
    }
    let v = v as u64;
    if v > config.max_wait_time {
        return Err(
            "Мин. время ожидания не может превышать макс. время ожидания".to_string(),
        );
    }
    config.min_wait_time = v;
    Ok(())
}

fn set_int_max_wait_time(config: &mut Config, v: i64) -> (r: Result<(), String>)
    ensures
        int_edit_holds(r, old(config)@, final(config)@, ConfigField::MaxWaitTime, v as int),
{
    if v < 0 {
        return Err("Макс. время ожидания не может быть отрицательным".to_string());
    }
    let v = v as u64;
    if v < config.min_wait_time {
        return Err(
            "Макс. время ожидания не может быть меньше мин. времени ожидания".to_string(),
        );
    }
    config.max_wait_time = v;
    Ok(())
}

fn set_int_audiobook_concurrency(config: &mut Config, v: i64) -> (r: Result<(), String>)
    ensures
        int_edit_holds(r, old(config)@, final(config)@, ConfigField::AudiobookConcurrency, v as int),
{
    if v <= 0 {
        return Err("Параллелизм аудиокниги должен быть больше 0".to_string());
    }
    config.audiobook_concurrency = v as usize;
    Ok(())
}

fn set_int_segment_comments_top_n(config: &mut Config, v: i64) -> (r: Result<(), String>)
    ensures
        int_edit_holds(r, old(config)@, final(config)@, ConfigField::SegmentCommentsTopN, v as int),
{
    if v <= 0 {
        return Err("Лимит комментариев к абзацам должен быть больше 0".to_string());
    }
    config.segment_comments_top_n = v as usize;
    Ok(())
}

fn set_int_segment_comments_workers(config: &mut Config, v: i64) -> (r: Result<(), String>)
    ensures
        int_edit_holds(r, old(config)@, final(config)@, ConfigField::SegmentCommentsWorkers, v as int),
{
    if v <= 0 {
        return Err(
            "Число потоков для комментариев к абзацам должно быть больше 0".to_string(),
        );
    }
    config.segment_comments_workers = v as usize;
    Ok(())
}

fn set_int_media_download_workers(config: &mut Config, v: i64) -> (r: Result<(), String>)
    ensures
        int_edit_holds(r, old(config)@, final(config)@, ConfigField::MediaDownloadWorkers, v as int),
{
    if v <= 0 {
        return Err("Число медиа-потоков должно быть больше 0".to_string());
    }
    config.media_download_workers = v as usize;
    Ok(())
}

fn set_int_jpeg_quality(config: &mut Config, v: i64) -> (r: Result<(), String>)
    ensures
        int_edit_holds(r, old(config)@, final(config)@, ConfigField::JpegQuality, v as int),
{
    if !(0 <= v && v <= 100) {
        return Err("Качество JPEG должно быть в диапазоне 0–100".to_string());
    }
    config.jpeg_quality = v as u8;
    Ok(())
}

fn set_int_media_limit_per_chapter(config: &mut Config, v: i64) -> (r: Result<(), String>)
    ensures
        int_edit_holds(r, old(config)@, final(config)@, ConfigField::MediaLimitPerChapter, v as int),
{
    if v < 0 {
        return Err("Лимит медиа на главу не может быть отрицательным".to_string());
    }
    config.media_limit_per_chapter = v as usize;
    Ok(())
}

fn set_int_media_max_dimension_px(config: &mut Config, v: i64) -> (r: Result<(), String>)
    ensures
        int_edit_holds(r, old(config)@, final(config)@, ConfigField::MediaMaxDimensionPx, v as int),
{
    if v < 0 {
        return Err(
            "Макс. длинная сторона изображения не может быть отрицательной".to_string(),
        );
    }
    config.media_max_dimension_px = v as u32;
    Ok(())
}

/// Sets the whole-number setting `field` to `v`, when `v` is in its range.
pub fn set_int(config: &mut Config, field: ConfigField, v: i64) -> (r: Result<(), String>)
    ensures
        int_edit_holds(r, old(config)@, final(config)@, field, v as int),
{
    match field {
        ConfigField::MaxWorkers => set_int_max_workers(config, v),
        ConfigField::RequestTimeout => set_int_request_timeout(config, v),
        ConfigField::MaxRetries => set_int_max_retries(config, v),
        ConfigField::MinWaitTime => set_int_min_wait_time(config, v),
        ConfigField::MaxWaitTime => set_int_max_wait_time(config, v),
        ConfigField::AudiobookConcurrency => set_int_audiobook_concurrency(config, v),
        ConfigField::SegmentCommentsTopN => set_int_segment_comments_top_n(config, v),
        ConfigField::SegmentCommentsWorkers => set_int_segment_comments_workers(config, v),
        ConfigField::MediaDownloadWorkers => set_int_media_download_workers(config, v),
        ConfigField::JpegQuality => set_int_jpeg_quality(config, v),
        ConfigField::MediaLimitPerChapter => set_int_media_limit_per_chapter(config, v),
        ConfigField::MediaMaxDimensionPx => set_int_media_max_dimension_px(config, v),
        _ => Err("Это поле не является int".to_string()),
    }
}

/// The effect of setting the list setting `f` to `items` in `c`.
pub open spec fn list_edit(c: ConfigView, f: ConfigField, items: Seq<Seq<char>>) -> Result<ConfigView, Seq<char>> {
    match f {
        ConfigField::ApiEndpoints => Ok(ConfigView { api_endpoints: items, ..c }),
        ConfigField::BlockedMediaDomains => Ok(ConfigView { blocked_media_domains: items, ..c }),
        _ => Err("Это поле не является list"@),
    }
}

/// Sets the list setting `field` to `v`.
pub fn set_list(config: &mut Config, field: ConfigField, v: Vec<String>) -> (r: Result<(), String>)
    ensures
        match list_edit(old(config)@, field, views(v@)) {
            Ok(c) => r is Ok && final(config)@ == c,
            Err(m) => r matches Err(e) && e@ == m && final(config)@ == old(config)@,
        },
{
    match field {
        ConfigField::ApiEndpoints => config.api_endpoints = v,
        ConfigField::BlockedMediaDomains => config.blocked_media_domains = v,
        _ => return Err("Это поле не является list".to_string()),
    }
    Ok(())
}

/// The message for a book-name field that is not one of the four.
pub open spec fn book_name_field_message() -> Seq<char> {
    "Предпочтительное поле названия поддерживает только: Название по умолчанию, Исходное название, Короткое название, Выбрать после загрузки"@
}

/// The effect of setting the text setting `f` to `v` in `c`.
pub open spec fn string_edit(c: ConfigView, f: ConfigField, v: Seq<char>) -> Result<EditOutcomeView, Seq<char>> {
    match f {
        ConfigField::SavePath => if trim_seq(v).len() == 0 {
            Err("Путь сохранения не может быть пустым"@)
        } else {
            Ok(EditOutcomeView::NeedsDirectory(trim_seq(v)))
        },
        ConfigField::NovelFormat => {
            let t = trim_seq(v);
            let choice = match format_value_of_label(t) {
                Some(x) => x,
                None => t,
            };
            match apply_format_spec(c, choice) {
                Err(m) => Err(m),
                Ok(c2) => if c2.novel_format == "txt"@ && c2.enable_segment_comments {
                    Ok(EditOutcomeView::Done(
                        ConfigView { enable_segment_comments: false, ..c2 },
                        Some(comments_off_note()),
                    ))
                } else {
                    Ok(EditOutcomeView::Done(c2, None))
                },
            }
        },
        ConfigField::AudiobookVoice => Ok(EditOutcomeView::Done(ConfigView { audiobook_voice: v, ..c }, None)),
        ConfigField::AudiobookRate => Ok(EditOutcomeView::Done(ConfigView { audiobook_rate: v, ..c }, None)),
        ConfigField::AudiobookVolume => Ok(EditOutcomeView::Done(ConfigView { audiobook_volume: v, ..c }, None)),
        ConfigField::AudiobookPitch => Ok(EditOutcomeView::Done(ConfigView { audiobook_pitch: v, ..c }, None)),
        ConfigField::AudiobookFormat => {
            let l = lower_seq(trim_seq(v));
            if l != "mp3"@ && l != "wav"@ {
                Err("Формат аудиокниги поддерживает только mp3/wav"@)
            } else {
                Ok(EditOutcomeView::Done(ConfigView { audiobook_format: l, ..c }, None))
            }
        },
        ConfigField::PreferredBookNameField => {
            let t = trim_seq(v);
            match book_name_of_label(t) {
                Some(e) => Ok(EditOutcomeView::Done(ConfigView { preferred_book_name_field: e, ..c }, None)),
                None => if is_book_name_field(lower_seq(t)) {
                    Ok(EditOutcomeView::Done(
                        ConfigView { preferred_book_name_field: lower_seq(t), ..c },
                        None,
                    ))
                } else {
                    Err(book_name_field_message())
                },
            }
        },
        _ => Err("Это поле не является string"@),
    }
}

fn set_string_save_path(config: &mut Config, v: &str) -> (r: Result<EditOutcome, String>)
    ensures
        edit_holds(r, string_edit(old(config)@, ConfigField::SavePath, v@), old(config)@, final(config)@),
{
    let p = trim(v);
    if p.as_str().is_empty() {
        return Err("Путь сохранения не может быть пустым".to_string());
    }
    Ok(EditOutcome::NeedsDirectory(p))
}

fn set_string_novel_format(config: &mut Config, v: &str) -> (r: Result<EditOutcome, String>)
    ensures
        edit_holds(r, string_edit(old(config)@, ConfigField::NovelFormat, v@), old(config)@, final(config)@),
{
    let t = trim(v);
    let applied = match output_format_value_from_label(t.as_str()) {
        Some(x) => config.apply_output_format_choice(x),
        None => config.apply_output_format_choice(t.as_str()),
    };
    match applied {
        Err(m) => Err(m),
        Ok(()) => {
            if str_eq(config.novel_format.as_str(), "txt") && config.enable_segment_comments {
                config.enable_segment_comments = false;
                Ok(EditOutcome::Done(Some(
                    "Комментарии к абзацам автоматически отключены для совместимости с форматом TXT.".to_string(),
                )))
            } else {
                Ok(EditOutcome::Done(None))
            }
        },
    }
}

fn set_string_audiobook_voice(config: &mut Config, v: &str) -> (r: Result<EditOutcome, String>)
    ensures
        edit_holds(r, string_edit(old(config)@, ConfigField::AudiobookVoice, v@), old(config)@, final(config)@),
{
    config.audiobook_voice = v.to_string();
    Ok(EditOutcome::Done(None))
}

fn set_string_audiobook_rate(config: &mut Config, v: &str) -> (r: Result<EditOutcome, String>)
    ensures
        edit_holds(r, string_edit(old(config)@, ConfigField::AudiobookRate, v@), old(config)@, final(config)@),
{
    config.audiobook_rate = v.to_string();
    Ok(EditOutcome::Done(None))
}

fn set_string_audiobook_volume(config: &mut Config, v: &str) -> (r: Result<EditOutcome, String>)
    ensures
        edit_holds(r, string_edit(old(config)@, ConfigField::AudiobookVolume, v@), old(config)@, final(config)@),
{
    config.audiobook_volume = v.to_string();
    Ok(EditOutcome::Done(None))
}

fn set_string_audiobook_pitch(config: &mut Config, v: &str) -> (r: Result<EditOutcome, String>)
    ensures
        edit_holds(r, string_edit(old(config)@, ConfigField::AudiobookPitch, v@), old(config)@, final(config)@),
{
    config.audiobook_pitch = v.to_string();
    Ok(EditOutcome::Done(None))
}

fn set_string_audiobook_format(config: &mut Config, v: &str) -> (r: Result<EditOutcome, String>)
    ensures
        edit_holds(r, string_edit(old(config)@, ConfigField::AudiobookFormat, v@), old(config)@, final(config)@),
{
    let t = trim(v);
    let lower = to_ascii_lowercase(t.as_str());
    if !str_eq(lower.as_str(), "mp3") && !str_eq(lower.as_str(), "wav") {
        return Err("Формат аудиокниги поддерживает только mp3/wav".to_string());
    }
    config.audiobook_format = lower;
    Ok(EditOutcome::Done(None))
}

fn set_string_preferred_book_name_field(config: &mut Config, v: &str) -> (r: Result<EditOutcome, String>)
    ensures
        edit_holds(r, string_edit(old(config)@, ConfigField::PreferredBookNameField, v@), old(config)@, final(config)@),
{
    let t = trim(v);
    let field_name = match display_to_book_name_field(t.as_str()) {
        Some(english) => english,
        None => {
            let lower = to_ascii_lowercase(t.as_str());
            if book_name_field_known(lower.as_str()) {
                lower
            } else {
                return Err(
                    "Предпочтительное поле названия поддерживает только: Название по умолчанию, Исходное название, Короткое название, Выбрать после загрузки".to_string(),
                );
            }
        },
    };
    config.preferred_book_name_field = field_name;
    Ok(EditOutcome::Done(None))
}

/// Sets the text setting `field` from `v`. The save path is not stored here:
/// the result names the directory that the caller creates and then stores.
pub fn set_string(config: &mut Config, field: ConfigField, v: &str) -> (r: Result<EditOutcome, String>)
    ensures
        edit_holds(r, string_edit(old(config)@, field, v@), old(config)@, final(config)@),
{
    match field {
        ConfigField::SavePath => set_string_save_path(config, v),
        ConfigField::NovelFormat => set_string_novel_format(config, v),
        ConfigField::AudiobookVoice => set_string_audiobook_voice(config, v),
        ConfigField::AudiobookRate => set_string_audiobook_rate(config, v),
        ConfigField::AudiobookVolume => set_string_audiobook_volume(config, v),
        ConfigField::AudiobookPitch => set_string_audiobook_pitch(config, v),
        ConfigField::AudiobookFormat => set_string_audiobook_format(config, v),
        ConfigField::PreferredBookNameField => set_string_preferred_book_name_field(config, v),
        _ => Err("Это поле не является string".to_string()),
    }
}


/// The message for whole-number text that does not read as an `i64`.
pub open spec fn int_parse_message() -> Seq<char> {
    "Ошибка преобразования типа: нужно целое число"@
}

/// The separators of a list typed in the console editor.
pub open spec fn list_separators() -> Seq<char> {
    seq![',', '\n']
}

/// The effect of typing `text` for the menu line with setting `f` and kind
/// `ty`: on/off words, whole numbers, lists and texts go to their setter;
/// floating-point values are left to the caller.
pub open spec fn config_edit(c: ConfigView, f: ConfigField, ty: ConfigValueType, text: Seq<char>) -> Result<EditOutcomeView, Seq<char>> {
    match ty {
        ConfigValueType::Bool => bool_edit(c, f, bool_word(text)),
        ConfigValueType::Int => match signed_value(text) {
            Some(x) => if i64::MIN <= x <= i64::MAX {
                match int_edit(c, f, x) {
                    Ok(c2) => Ok(EditOutcomeView::Done(c2, None)),
                    Err(m) => Err(m),
                }
            } else {
                Err(int_parse_message())
            },
            None => Err(int_parse_message()),
        },
        ConfigValueType::Float => Ok(EditOutcomeView::FloatValue),
        ConfigValueType::String | ConfigValueType::Selection => string_edit(c, f, text),
        ConfigValueType::List => match list_edit(c, f, clean_list(split_seq(text, list_separators()))) {
            Ok(c2) => Ok(EditOutcomeView::Done(c2, None)),
            Err(m) => Err(m),
        },
    }
}

/// Whether `text` means "on".
pub fn is_bool_word(text: &str) -> (r: bool)
    ensures
        r == bool_word(text@),
{
    let l = to_ascii_lowercase(text);
    str_eq(l.as_str(), "true") || str_eq(l.as_str(), "1") || str_eq(l.as_str(), "yes") || str_eq(
        l.as_str(),
        "y",
    )
}

/// Applies the text `text` typed for the menu line `opt`.
pub fn apply_config_edit(config: &mut Config, opt: ConfigOption, text: &str) -> (r: Result<EditOutcome, String>)
    ensures
        edit_holds(r, config_edit(old(config)@, opt.field, opt.ty, text@), old(config)@, final(config)@),
{
    match opt.ty {
        ConfigValueType::Bool => {
            let v = is_bool_word(text);
            set_bool(config, opt.field, v)
        },
        ConfigValueType::Int => {
            match parse_i64(text) {
                Some(v) => match set_int(config, opt.field, v) {
                    Ok(()) => Ok(EditOutcome::Done(None)),
                    Err(m) => Err(m),
                },
                None => Err("Ошибка преобразования типа: нужно целое число".to_string()),
            }
        },
        ConfigValueType::Float => Ok(EditOutcome::FloatValue),
        ConfigValueType::String => set_string(config, opt.field, text),
        ConfigValueType::Selection => set_string(config, opt.field, text),
        ConfigValueType::List => {
            let seps = vec![',', '\n'];
            assert(seps@ =~= list_separators());
            let parts = split_trimmed(text, &seps);
            match set_list(config, opt.field, parts) {
                Ok(()) => Ok(EditOutcome::Done(None)),
                Err(m) => Err(m),
            }
        },
    }
}

/// The title of the menu line `opt`, with a remark when paragraph comments
/// cannot apply because the format is txt.
pub open spec fn menu_title(c: ConfigView, opt_field: ConfigField, opt_name: Seq<char>) -> Seq<char> {
    if opt_field == ConfigField::EnableSegmentComments && lower_seq(c.novel_format) == "txt"@ {
        opt_name + " (TXT не поддерживается)"@
    } else {
        opt_name
    }
}

/// The title of the menu line `opt` as the menu shows it.
pub fn option_menu_title(config: &Config, opt: &ConfigOption) -> (r: String)
    ensures
        r@ == menu_title(config@, opt.field, opt.name@),
{
    let mut name = opt.name.to_string();
    let is_comments = match opt.field {
        ConfigField::EnableSegmentComments => true,
        _ => false,
    };
    proof {
        reveal_strlit("txt");
        assert(lower_seq("txt"@) =~= "txt"@);
    }
    if is_comments && eq_ignore_ascii_case(config.novel_format.as_str(), "txt") {
        crate::text::string_push_str(&mut name, " (TXT не поддерживается)");
    }
    name
}

/// What a typed menu number asks for.
#[derive(Clone, Copy, Debug, PartialEq, Eq, Structural)]
pub enum Choice {
    /// Go back, or cancel.
    Back,
    /// The text is not a number.
    NotANumber,
    /// The number names no entry.
    OutOfRange,
    /// The entry at this position (from 0).
    Pick(usize),
}

/// The meaning of the typed menu number `input` for a menu of `count`
/// entries numbered from 1: exactly `0` goes back.
pub open spec fn menu_choice(input: Seq<char>, count: nat) -> Choice {
    let t = trim_seq(input);
    if t == "0"@ {
        Choice::Back
    } else {
        match unsigned_value(t) {
            Some(n) => if n > usize::MAX {
                Choice::NotANumber
            } else if n == 0 || n > count {
                Choice::OutOfRange
            } else {
                Choice::Pick((n - 1) as usize)
            },
            None => Choice::NotANumber,
        }
    }
}

/// The meaning of the typed menu number `input` for the settings menu.
pub fn parse_menu_choice(input: &str, count: usize) -> (r: Choice)
    ensures
        r == menu_choice(input@, count as nat),
{
    let t = trim(input);
    if str_eq(t.as_str(), "0") {
        return Choice::Back;
    }
    pick_number(t.as_str(), count)
}

fn pick_number(t: &str, count: usize) -> (r: Choice)
    ensures
        r == match unsigned_value(t@) {
            Some(n) => if n > usize::MAX {
                Choice::NotANumber
            } else if n == 0 || n > count {
                Choice::OutOfRange
            } else {
                Choice::Pick((n - 1) as usize)
            },
            None => Choice::NotANumber,
        },
{
    match parse_unsigned(t, usize::MAX as u64) {
        None => Choice::NotANumber,
        Some(n) => {
            if n == 0 || n > count as u64 {
                Choice::OutOfRange
            } else {
                Choice::Pick((n - 1) as usize)
            }
        },
    }
}

/// The meaning of the typed number `input` in a selection prompt of
/// `count` entries: `0` or nothing cancels.
pub open spec fn selection_choice(input: Seq<char>, count: nat) -> Choice {
    let t = trim_seq(input);
    if t == "0"@ || t.len() == 0 {
        Choice::Back
    } else {
        menu_choice(input, count)
    }
}

/// The meaning of the typed number `input` in a selection prompt.
pub fn parse_selection_choice(input: &str, count: usize) -> (r: Choice)
    ensures
        r == selection_choice(input@, count as nat),
{
    let t = trim(input);
    if str_eq(t.as_str(), "0") || t.as_str().is_empty() {
        return Choice::Back;
    }
    pick_number(t.as_str(), count)
}

/// The entries of the selection prompt of `f`: the label shown, and the text
/// that choosing it types. Only the format and the book-name field have one.
pub open spec fn selection_table(f: ConfigField) -> Seq<(Seq<char>, Seq<char>)> {
    match f {
        ConfigField::NovelFormat => seq![
            ("Формат txt"@, "txt"@),
            ("Формат epub"@, "epub"@),
            ("Формат pdf"@, "pdf"@),
            ("Отдельные файлы"@, "bulk_txt"@),
            ("Спросить после загрузки"@, "ask_after_download"@),
        ],
        ConfigField::PreferredBookNameField => seq![
            ("Название по умолчанию"@, "Название по умолчанию"@),
            ("Исходное название"@, "Исходное название"@),
            ("Короткое название"@, "Короткое название"@),
            ("Выбрать после загрузки"@, "Выбрать после загрузки"@),
        ],
        _ => Seq::empty(),
    }
}

/// The entries of the selection prompt of `field`.
pub fn selection_entries(field: ConfigField) -> (r: Vec<(&'static str, &'static str)>)
    ensures
        r@.len() == selection_table(field).len(),
        forall|i: int|
            0 <= i < r@.len() ==> (#[trigger] r@[i]).0@ == selection_table(field)[i].0
                && r@[i].1@ == selection_table(field)[i].1,
{
    match field {
        ConfigField::NovelFormat => vec![
            ("Формат txt", "txt"),
            ("Формат epub", "epub"),
            ("Формат pdf", "pdf"),
            ("Отдельные файлы", "bulk_txt"),
            ("Спросить после загрузки", "ask_after_download"),
        ],
        ConfigField::PreferredBookNameField => vec![
            ("Название по умолчанию", "Название по умолчанию"),
            ("Исходное название", "Исходное название"),
            ("Короткое название", "Короткое название"),
            ("Выбрать после загрузки", "Выбрать после загрузки"),
        ],
        _ => Vec::new(),
    }
}


proof fn lemma_book_name_literals()
    ensures
        "book_name"@ != "original_book_name"@,
        "book_name"@ != "book_short_name"@,
        "book_name"@ != "ask_after_download"@,
        "original_book_name"@ != "book_short_name"@,
        "original_book_name"@ != "ask_after_download"@,
        "book_short_name"@ != "ask_after_download"@,
        "Название по умолчанию"@ != "Исходное название"@,
        "Название по умолчанию"@ != "Короткое название"@,
        "Название по умолчанию"@ != "Выбрать после загрузки"@,
        "Исходное название"@ != "Короткое название"@,
        "Исходное название"@ != "Выбрать после загрузки"@,
        "Короткое название"@ != "Выбрать после загрузки"@,
{
    reveal_strlit("book_name");
    reveal_strlit("original_book_name");
    reveal_strlit("book_short_name");
    reveal_strlit("ask_after_download");
    reveal_strlit("Название по умолчанию");
    reveal_strlit("Исходное название");
    reveal_strlit("Короткое название");
    reveal_strlit("Выбрать после загрузки");
    assert("book_name"@.len() != "original_book_name"@.len());
    assert("book_name"@.len() != "book_short_name"@.len());
    assert("book_name"@.len() != "ask_after_download"@.len());
    assert("original_book_name"@.len() != "book_short_name"@.len());
    assert("original_book_name"@[0] != "ask_after_download"@[0]);
    assert("book_short_name"@.len() != "ask_after_download"@.len());
    assert("Название по умолчанию"@.len() != "Исходное название"@.len());
    assert("Название по умолчанию"@.len() != "Короткое название"@.len());
    assert("Название по умолчанию"@.len() != "Выбрать после загрузки"@.len());
    assert("Исходное название"@[0] != "Короткое название"@[0]);
    assert("Исходное название"@.len() != "Выбрать после загрузки"@.len());
    assert("Короткое название"@.len() != "Выбрать после загрузки"@.len());
}

/// The known book-name fields and their console labels undo each other.
pub proof fn law_book_name_roundtrip(f: Seq<char>, d: Seq<char>)
    ensures
        is_book_name_field(f) ==> book_name_of_label(book_name_label(f)) == Some(f),
        book_name_of_label(d) matches Some(g) ==> book_name_label(g) == d && is_book_name_field(g),
{
    lemma_book_name_literals();
}

/// Whether the number `v` fits in the type of the whole-number setting `f`.
pub open spec fn int_fits(f: ConfigField, v: int) -> bool {
    match f {
        ConfigField::RequestTimeout | ConfigField::MinWaitTime | ConfigField::MaxWaitTime => v
            <= u64::MAX,
        ConfigField::MaxRetries | ConfigField::MediaMaxDimensionPx => v <= u32::MAX,
        ConfigField::JpegQuality => v <= u8::MAX,
        _ => v <= usize::MAX,
    }
}

/// A whole number that a setting accepts is shown back as its decimal
/// notation.
pub proof fn law_int_edit_shows_value(c: ConfigView, f: ConfigField, v: int)
    requires
        int_edit(c, f, v) is Ok,
        int_fits(f, v),
    ensures
        value_text(int_edit(c, f, v)->Ok_0, f) == Some(decimal_repr(v as nat)),
{
}

/// Whether the minimum wait is at most the maximum wait.
pub open spec fn waits_ordered(c: ConfigView) -> bool {
    c.min_wait_time <= c.max_wait_time
}

/// Whether paragraph comments are off whenever the format is txt.
pub open spec fn txt_without_comments(c: ConfigView) -> bool {
    !(c.enable_segment_comments && lower_seq(c.novel_format) == "txt"@)
}

proof fn lemma_bool_edit_keeps(c: ConfigView, f: ConfigField, v: bool)
    requires
        bool_edit(c, f, v) matches Ok(EditOutcomeView::Done(_, _)),
    ensures
        waits_ordered(c) ==> waits_ordered(bool_edit(c, f, v)->Ok_0->Done_0),
        txt_without_comments(c) ==> txt_without_comments(bool_edit(c, f, v)->Ok_0->Done_0),
{
    crate::config::lemma_format_literals();
}

proof fn lemma_int_edit_keeps(c: ConfigView, f: ConfigField, v: int)
    requires
        i64::MIN <= v <= i64::MAX,
        int_edit(c, f, v) is Ok,
    ensures
        waits_ordered(c) ==> waits_ordered(int_edit(c, f, v)->Ok_0),
        txt_without_comments(c) ==> txt_without_comments(int_edit(c, f, v)->Ok_0),
{
}

proof fn lemma_string_edit_keeps(c: ConfigView, f: ConfigField, v: Seq<char>)
    requires
        string_edit(c, f, v) matches Ok(EditOutcomeView::Done(_, _)),
    ensures
        waits_ordered(c) ==> waits_ordered(string_edit(c, f, v)->Ok_0->Done_0),
        txt_without_comments(c) ==> txt_without_comments(string_edit(c, f, v)->Ok_0->Done_0),
{
    if f == ConfigField::NovelFormat {
        let t = trim_seq(v);
        let choice = match format_value_of_label(t) {
            Some(x) => x,
            None => t,
        };
        crate::config::lemma_format_choice_case(c, choice);
    }
}

/// Both invariants, each on its own, carried through one console edit.
proof fn lemma_console_edit_keeps(c: ConfigView, f: ConfigField, ty: ConfigValueType, text: Seq<char>)
    requires
        config_edit(c, f, ty, text) matches Ok(EditOutcomeView::Done(_, _)),
    ensures
        waits_ordered(c) ==> waits_ordered(config_edit(c, f, ty, text)->Ok_0->Done_0),
        txt_without_comments(c) ==> txt_without_comments(config_edit(c, f, ty, text)->Ok_0->Done_0),
{
    match ty {
        ConfigValueType::Bool => lemma_bool_edit_keeps(c, f, bool_word(text)),
        ConfigValueType::Int => {
            let x = signed_value(text).unwrap();
            lemma_int_edit_keeps(c, f, x);
        },
        ConfigValueType::String | ConfigValueType::Selection => lemma_string_edit_keeps(c, f, text),
        _ => {},
    }
}

/// Every edit of the console editor keeps the minimum wait at most the
/// maximum wait.
pub proof fn law_console_edits_keep_wait_order(c: ConfigView, f: ConfigField, ty: ConfigValueType, text: Seq<char>)
    requires
        waits_ordered(c),
        config_edit(c, f, ty, text) matches Ok(EditOutcomeView::Done(_, _)),
    ensures
        waits_ordered(config_edit(c, f, ty, text)->Ok_0->Done_0),
{
    lemma_console_edit_keeps(c, f, ty, text);
}

/// No edit of the console editor leaves paragraph comments on with the txt
/// format, whatever the waits.
pub proof fn law_console_edits_keep_txt_without_comments(c: ConfigView, f: ConfigField, ty: ConfigValueType, text: Seq<char>)
    requires
        txt_without_comments(c),
        config_edit(c, f, ty, text) matches Ok(EditOutcomeView::Done(_, _)),
    ensures
        txt_without_comments(config_edit(c, f, ty, text)->Ok_0->Done_0),
{
    lemma_console_edit_keeps(c, f, ty, text);
}


/// A list that the console editor stores is shown back with its items
/// joined by commas.
pub proof fn law_list_edit_shows_items(c: ConfigView, f: ConfigField, items: Seq<Seq<char>>)
    requires
        list_edit(c, f, items) is Ok,
    ensures
        value_text(list_edit(c, f, items)->Ok_0, f) == Some(join_seq(items, ","@)),
{
}


/// The whole number that the whole-number setting `f` holds in `c`.
pub open spec fn int_setting(c: ConfigView, f: ConfigField) -> int {
    match f {
        ConfigField::AudiobookConcurrency => c.audiobook_concurrency as int,
        ConfigField::MaxWorkers => c.max_workers as int,
        ConfigField::RequestTimeout => c.request_timeout as int,
        ConfigField::MaxRetries => c.max_retries as int,
        ConfigField::MinWaitTime => c.min_wait_time as int,
        ConfigField::MaxWaitTime => c.max_wait_time as int,
        ConfigField::SegmentCommentsTopN => c.segment_comments_top_n as int,
        ConfigField::SegmentCommentsWorkers => c.segment_comments_workers as int,
        ConfigField::MediaDownloadWorkers => c.media_download_workers as int,
        ConfigField::JpegQuality => c.jpeg_quality as int,
        ConfigField::MediaLimitPerChapter => c.media_limit_per_chapter as int,
        ConfigField::MediaMaxDimensionPx => c.media_max_dimension_px as int,
        _ => 0,
    }
}

/// Whether `f` is one of the whole-number settings.
#[verifier::inline]
spec fn int_field(f: ConfigField) -> bool {
    ||| f == ConfigField::AudiobookConcurrency
    ||| f == ConfigField::MaxWorkers
    ||| f == ConfigField::RequestTimeout
    ||| f == ConfigField::MaxRetries
    ||| f == ConfigField::MinWaitTime
    ||| f == ConfigField::MaxWaitTime
    ||| f == ConfigField::SegmentCommentsTopN
    ||| f == ConfigField::SegmentCommentsWorkers
    ||| f == ConfigField::MediaDownloadWorkers
    ||| f == ConfigField::JpegQuality
    ||| f == ConfigField::MediaLimitPerChapter
    ||| f == ConfigField::MediaMaxDimensionPx
}

/// Whether `f` is one of the on/off settings.
#[verifier::inline]
spec fn bool_field(f: ConfigField) -> bool {
    ||| f == ConfigField::AutoClearDump
    ||| f == ConfigField::AllowOverwriteFiles
    ||| f == ConfigField::EnableAudiobook
    ||| f == ConfigField::UseOfficialApi
    ||| f == ConfigField::EnableSegmentComments
    ||| f == ConfigField::DownloadCommentImages
    ||| f == ConfigField::DownloadCommentAvatars
    ||| f == ConfigField::ForceConvertImagesToJpeg
    ||| f == ConfigField::JpegRetryConvert
    ||| f == ConfigField::ConvertHeicToJpeg
    ||| f == ConfigField::KeepHeicOriginal
    ||| f == ConfigField::OldCli
}

/// Whether `f` is one of the text and selection settings.
#[verifier::inline]
spec fn text_field(f: ConfigField) -> bool {
    ||| f == ConfigField::SavePath
    ||| f == ConfigField::AudiobookVoice
    ||| f == ConfigField::AudiobookRate
    ||| f == ConfigField::AudiobookVolume
    ||| f == ConfigField::AudiobookPitch
    ||| f == ConfigField::AudiobookFormat
    ||| f == ConfigField::NovelFormat
    ||| f == ConfigField::PreferredBookNameField
}

/// The kinds of the settings, listed one by one.
proof fn lemma_field_kinds(f: ConfigField)
    ensures
        field_type(f) == ConfigValueType::Int <==> int_field(f),
        field_type(f) == ConfigValueType::Bool <==> bool_field(f),
        field_type(f) == ConfigValueType::String || field_type(f) == ConfigValueType::Selection
            <==> text_field(f),
        field_type(f) == ConfigValueType::List <==> f == ConfigField::ApiEndpoints || f
            == ConfigField::BlockedMediaDomains,
{
}

/// The on/off words that the editor shows read back as the value shown.
proof fn lemma_bool_word_text(b: bool)
    ensures
        bool_word(bool_text(b)) == b,
{
    reveal_strlit("true");
    reveal_strlit("false");
    reveal_strlit("1");
    reveal_strlit("yes");
    reveal_strlit("y");
    assert(lower_seq("true"@) =~= "true"@);
    assert(lower_seq("false"@).len() == 5);
}

/// The labels and audio formats that the editor shows have no whitespace
/// at their ends.
proof fn lemma_shown_words_trimmed()
    ensures
        trim_seq("Формат txt"@) == "Формат txt"@,
        trim_seq("Формат epub"@) == "Формат epub"@,
        trim_seq("Формат pdf"@) == "Формат pdf"@,
        trim_seq("Отдельные файлы"@) == "Отдельные файлы"@,
        trim_seq("Спросить после загрузки"@) == "Спросить после загрузки"@,
        trim_seq("Название по умолчанию"@) == "Название по умолчанию"@,
        trim_seq("Исходное название"@) == "Исходное название"@,
        trim_seq("Короткое название"@) == "Короткое название"@,
        trim_seq("Выбрать после загрузки"@) == "Выбрать после загрузки"@,
        trim_seq("mp3"@) == "mp3"@,
        trim_seq("wav"@) == "wav"@,
        lower_seq("mp3"@) == "mp3"@,
        lower_seq("wav"@) == "wav"@,
{
    reveal_strlit("Формат txt");
    reveal_strlit("Формат epub");
    reveal_strlit("Формат pdf");
    reveal_strlit("Отдельные файлы");
    reveal_strlit("Спросить после загрузки");
    reveal_strlit("Название по умолчанию");
    reveal_strlit("Исходное название");
    reveal_strlit("Короткое название");
    reveal_strlit("Выбрать после загрузки");
    reveal_strlit("mp3");
    reveal_strlit("wav");
    lemma_trim_unchanged("Формат txt"@);
    lemma_trim_unchanged("Формат epub"@);
    lemma_trim_unchanged("Формат pdf"@);
    lemma_trim_unchanged("Отдельные файлы"@);
    lemma_trim_unchanged("Спросить после загрузки"@);
    lemma_trim_unchanged("Название по умолчанию"@);
    lemma_trim_unchanged("Исходное название"@);
    lemma_trim_unchanged("Короткое название"@);
    lemma_trim_unchanged("Выбрать после загрузки"@);
    lemma_trim_unchanged("mp3"@);
    lemma_trim_unchanged("wav"@);
    assert(lower_seq("mp3"@) =~= "mp3"@);
    assert(lower_seq("wav"@) =~= "wav"@);
}

#[verifier::rlimit(100)]
proof fn lemma_reenter_bool(c: ConfigView, f: ConfigField)
    requires
        bool_field(f),
        f == ConfigField::EnableSegmentComments ==> txt_without_comments(c),
    ensures
        config_edit(c, f, ConfigValueType::Bool, value_text(c, f)->Some_0) == Ok::<
            EditOutcomeView,
            Seq<char>,
        >(EditOutcomeView::Done(c, None)),
{
    lemma_bool_word_text(true);
    lemma_bool_word_text(false);
}

/// A whole-number setting is shown as the decimal notation of its value.
proof fn lemma_int_shown(c: ConfigView, f: ConfigField)
    requires
        int_field(f),
    ensures
        value_text(c, f) == Some(decimal_repr(int_setting(c, f) as nat)),
        0 <= int_setting(c, f),
{
}

/// Setting a whole-number setting to the value it holds changes nothing.
proof fn lemma_int_edit_same(c: ConfigView, f: ConfigField)
    requires
        int_field(f),
        int_edit(c, f, int_setting(c, f)) is Ok,
    ensures
        int_edit(c, f, int_setting(c, f)) == Ok::<ConfigView, Seq<char>>(c),
{
}

proof fn lemma_reenter_int(c: ConfigView, f: ConfigField)
    requires
        int_field(f),
        int_setting(c, f) <= i64::MAX,
        int_edit(c, f, int_setting(c, f)) is Ok,
    ensures
        config_edit(c, f, ConfigValueType::Int, value_text(c, f)->Some_0) == Ok::<
            EditOutcomeView,
            Seq<char>,
        >(EditOutcomeView::Done(c, None)),
{
    lemma_int_shown(c, f);
    lemma_int_edit_same(c, f);
    law_decimal_roundtrip(int_setting(c, f) as nat);
}

proof fn lemma_reenter_list(c: ConfigView, f: ConfigField)
    requires
        f == ConfigField::ApiEndpoints || f == ConfigField::BlockedMediaDomains,
        f == ConfigField::ApiEndpoints ==> plain_items(c.api_endpoints, list_separators()),
        f == ConfigField::BlockedMediaDomains ==> plain_items(c.blocked_media_domains, list_separators()),
    ensures
        config_edit(c, f, ConfigValueType::List, value_text(c, f)->Some_0) == Ok::<
            EditOutcomeView,
            Seq<char>,
        >(EditOutcomeView::Done(c, None)),
{
    assert(list_separators()[0] == ',');
    if f == ConfigField::ApiEndpoints {
        lemma_join_reads_back(c.api_endpoints, list_separators());
    } else {
        lemma_join_reads_back(c.blocked_media_domains, list_separators());
    }
}

proof fn lemma_reenter_text(c: ConfigView, f: ConfigField)
    requires
        text_field(f),
        f == ConfigField::NovelFormat ==> txt_without_comments(c),
        f == ConfigField::SavePath ==> c.save_path.len() > 0 && trim_seq(c.save_path)
            == c.save_path,
        f == ConfigField::NovelFormat ==> is_format_value(c.novel_format),
        f == ConfigField::PreferredBookNameField ==> is_book_name_field(
            c.preferred_book_name_field,
        ),
        f == ConfigField::AudiobookFormat ==> c.audiobook_format == "mp3"@ || c.audiobook_format
            == "wav"@,
    ensures
        config_edit(c, f, field_type(f), value_text(c, f)->Some_0) == if f
            == ConfigField::SavePath {
            Ok::<EditOutcomeView, Seq<char>>(EditOutcomeView::NeedsDirectory(c.save_path))
        } else {
            Ok::<EditOutcomeView, Seq<char>>(EditOutcomeView::Done(c, None))
        },
{
    lemma_shown_words_trimmed();
    lemma_format_literals();
    if f == ConfigField::NovelFormat {
        law_format_label_roundtrip(c.novel_format);
        assert(ConfigView { novel_format: c.novel_format, ..c } == c);
    } else if f == ConfigField::PreferredBookNameField {
        law_book_name_roundtrip(c.preferred_book_name_field, c.preferred_book_name_field);
    }
}

/// Typing back the value that the console editor shows for a setting
/// leaves the settings as they are; for the save path the editor hands the
/// same path back to be created. It holds where what is shown reads back:
/// for the format and paragraph-comment lines, comments are not on with
/// txt; the save path has no whitespace
/// at its ends, the format, book-name field and audio format are known
/// ones, a whole number is one the setting accepts, and list items are
/// plain.
pub proof fn law_console_reenter_keeps_settings(c: ConfigView, f: ConfigField)
    requires
        value_text(c, f) is Some,
        f == ConfigField::NovelFormat || f == ConfigField::EnableSegmentComments
            ==> txt_without_comments(c),
        f == ConfigField::SavePath ==> c.save_path.len() > 0 && trim_seq(c.save_path)
            == c.save_path,
        f == ConfigField::NovelFormat ==> is_format_value(c.novel_format),
        f == ConfigField::PreferredBookNameField ==> is_book_name_field(
            c.preferred_book_name_field,
        ),
        f == ConfigField::AudiobookFormat ==> c.audiobook_format == "mp3"@ || c.audiobook_format
            == "wav"@,
        field_type(f) == ConfigValueType::Int ==> int_setting(c, f) <= i64::MAX && int_edit(
            c,
            f,
            int_setting(c, f),
        ) is Ok,
        f == ConfigField::ApiEndpoints ==> plain_items(c.api_endpoints, list_separators()),
        f == ConfigField::BlockedMediaDomains ==> plain_items(c.blocked_media_domains, list_separators()),
    ensures
        config_edit(c, f, field_type(f), value_text(c, f)->Some_0) == if f
            == ConfigField::SavePath {
            Ok::<EditOutcomeView, Seq<char>>(EditOutcomeView::NeedsDirectory(c.save_path))
        } else {
            Ok::<EditOutcomeView, Seq<char>>(EditOutcomeView::Done(c, None))
        },
{
    lemma_field_kinds(f);
    match field_type(f) {
        ConfigValueType::Bool => lemma_reenter_bool(c, f),
        ConfigValueType::Int => lemma_reenter_int(c, f),
        ConfigValueType::List => lemma_reenter_list(c, f),
        ConfigValueType::Float => {},
        _ => lemma_reenter_text(c, f),
    }
}

/// The console editor reads `true`, `1`, `yes` and `y`, in any ASCII case,
/// as on, and `false`, `0`, `no` and `n` as off.
pub proof fn law_console_on_off_words(s: Seq<char>)
    ensures
        lower_seq(s) == "true"@ || lower_seq(s) == "1"@ || lower_seq(s) == "yes"@ || lower_seq(s)
            == "y"@ ==> bool_word(s),
        lower_seq(s) == "false"@ || lower_seq(s) == "0"@ || lower_seq(s) == "no"@ || lower_seq(s)
            == "n"@ ==> !bool_word(s),
{
    reveal_strlit("true");
    reveal_strlit("1");
    reveal_strlit("yes");
    reveal_strlit("y");
    reveal_strlit("false");
    reveal_strlit("0");
    reveal_strlit("no");
    reveal_strlit("n");
    assert("false"@.len() != "true"@.len());
    assert("false"@.len() != "1"@.len());
    assert("false"@.len() != "yes"@.len());
    assert("false"@.len() != "y"@.len());
    assert("0"@.len() != "true"@.len());
    assert("0"@[0] != "1"@[0]);
    assert("0"@.len() != "yes"@.len());
    assert("0"@[0] != "y"@[0]);
    assert("no"@.len() != "true"@.len());
    assert("no"@.len() != "1"@.len());
    assert("no"@.len() != "yes"@.len());
    assert("no"@.len() != "y"@.len());
    assert("n"@.len() != "true"@.len());
    assert("n"@[0] != "1"@[0]);
    assert("n"@.len() != "yes"@.len());
    assert("n"@[0] != "y"@[0]);
}

/// Typing an on word for an on/off line of the console editor turns the
/// setting on: the line then shows `true`.
pub proof fn law_console_on_word_turns_on(c: ConfigView, s: Seq<char>)
    requires
        lower_seq(s) == "true"@ || lower_seq(s) == "1"@ || lower_seq(s) == "yes"@ || lower_seq(s)
            == "y"@,
    ensures
        config_edit(c, ConfigField::OldCli, ConfigValueType::Bool, s) matches Ok(
            EditOutcomeView::Done(c2, _),
        ) && value_text(c2, ConfigField::OldCli) == Some("true"@),
        config_edit(c, ConfigField::AutoClearDump, ConfigValueType::Bool, s) matches Ok(
            EditOutcomeView::Done(c2, _),
        ) && c2.auto_clear_dump,
        config_edit(c, ConfigField::EnableSegmentComments, ConfigValueType::Bool, s) matches Ok(
            EditOutcomeView::Done(c2, _),
        ) && c2.enable_segment_comments,
{
    law_console_on_off_words(s);
}

/// The console editor never stores 0 or less for a setting that must be
/// positive, or a JPEG quality outside 0 to 100, for any number that fits
/// the setting's type.
pub proof fn law_console_edits_keep_ranges(c: ConfigView, v: int)
    ensures
        int_edit(c, ConfigField::MaxWorkers, v) is Ok && v <= usize::MAX ==> (int_edit(c, ConfigField::MaxWorkers, v)->Ok_0).max_workers > 0,
        int_edit(c, ConfigField::RequestTimeout, v) is Ok && v <= u64::MAX ==> (int_edit(c, ConfigField::RequestTimeout, v)->Ok_0).request_timeout > 0,
        int_edit(c, ConfigField::AudiobookConcurrency, v) is Ok && v <= usize::MAX ==> (int_edit(c, ConfigField::AudiobookConcurrency, v)->Ok_0).audiobook_concurrency > 0,
        int_edit(c, ConfigField::SegmentCommentsTopN, v) is Ok && v <= usize::MAX ==> (int_edit(c, ConfigField::SegmentCommentsTopN, v)->Ok_0).segment_comments_top_n > 0,
        int_edit(c, ConfigField::SegmentCommentsWorkers, v) is Ok && v <= usize::MAX ==> (int_edit(c, ConfigField::SegmentCommentsWorkers, v)->Ok_0).segment_comments_workers > 0,
        int_edit(c, ConfigField::MediaDownloadWorkers, v) is Ok && v <= usize::MAX ==> (int_edit(c, ConfigField::MediaDownloadWorkers, v)->Ok_0).media_download_workers > 0,
        int_edit(c, ConfigField::JpegQuality, v) is Ok ==> (int_edit(c, ConfigField::JpegQuality, v)->Ok_0).jpeg_quality <= 100,
        v <= 0 ==> int_edit(c, ConfigField::RequestTimeout, v) is Err,
{
}

/// Choosing an output format by its label in the console editor stores
/// that format; choosing txt turns paragraph comments off, any other
/// format leaves them as they were.
pub proof fn law_console_format_choice(c: ConfigView, v: Seq<char>)
    requires
        is_format_value(v),
    ensures
        config_edit(c, ConfigField::NovelFormat, ConfigValueType::Selection, format_label_of(v))
            matches Ok(EditOutcomeView::Done(c2, _)) && c2.novel_format == v && (v == "txt"@
            ==> !c2.enable_segment_comments) && (v != "txt"@ ==> c2.enable_segment_comments
            == c.enable_segment_comments),
{
    lemma_shown_words_trimmed();
    law_format_label_roundtrip(v);
    crate::config::lemma_format_choice_case(c, v);
}

/// Choosing a book-name field by its label in the console editor stores
/// that field and nothing else.
pub proof fn law_console_book_name_choice(c: ConfigView, g: Seq<char>)
    requires
        is_book_name_field(g),
    ensures
        config_edit(c, ConfigField::PreferredBookNameField, ConfigValueType::Selection, book_name_label(g))
            == Ok::<EditOutcomeView, Seq<char>>(EditOutcomeView::Done(
            ConfigView { preferred_book_name_field: g, ..c },
            None,
        )),
{
    lemma_shown_words_trimmed();
    law_book_name_roundtrip(g, g);
}

/// The console editor stores an audio format in small letters and without
/// surrounding whitespace, and only mp3 or wav; anything else is refused
/// and changes nothing.
pub proof fn law_console_audio_format(c: ConfigView, s: Seq<char>)
    ensures
        lower_seq(trim_seq(s)) == "mp3"@ || lower_seq(trim_seq(s)) == "wav"@ ==> config_edit(
            c,
            ConfigField::AudiobookFormat,
            ConfigValueType::String,
            s,
        ) == Ok::<EditOutcomeView, Seq<char>>(EditOutcomeView::Done(
            ConfigView { audiobook_format: lower_seq(trim_seq(s)), ..c },
            None,
        )),
        lower_seq(trim_seq(s)) != "mp3"@ && lower_seq(trim_seq(s)) != "wav"@ ==> config_edit(
            c,
            ConfigField::AudiobookFormat,
            ConfigValueType::String,
            s,
        ) is Err,
{
}

/// Every item that the console editor stores in a list is trimmed and not
/// empty.
pub proof fn law_console_list_items_plain(c: ConfigView, text: Seq<char>)
    ensures
        config_edit(c, ConfigField::ApiEndpoints, ConfigValueType::List, text) matches Ok(
            EditOutcomeView::Done(c2, _),
        ) && (forall|i: int|
            0 <= i < c2.api_endpoints.len() ==> (#[trigger] c2.api_endpoints[i]).len() > 0
                && trim_seq(c2.api_endpoints[i]) == c2.api_endpoints[i]),
{
    crate::text::lemma_clean_list_items(split_seq(text, list_separators()));
}

/// A list typed in the console editor with its items separated by commas
/// or line breaks is stored item for item, when each item is trimmed, not
/// empty and free of separators.
pub proof fn law_console_list_separators(c: ConfigView, items: Seq<Seq<char>>)
    requires
        plain_items(items, list_separators()),
    ensures
        config_edit(c, ConfigField::ApiEndpoints, ConfigValueType::List, join_seq(items, seq![',']))
            == Ok::<EditOutcomeView, Seq<char>>(EditOutcomeView::Done(
            ConfigView { api_endpoints: items, ..c },
            None,
        )),
        config_edit(
            c,
            ConfigField::BlockedMediaDomains,
            ConfigValueType::List,
            join_seq(items, seq!['\n']),
        ) == Ok::<EditOutcomeView, Seq<char>>(EditOutcomeView::Done(
            ConfigView { blocked_media_domains: items, ..c },
            None,
        )),
{
    let seps = list_separators();
    assert(seps[0] == ',');
    assert(seps[1] == '\n');
    crate::text::lemma_join_char_reads_back(items, ',', seps);
    crate::text::lemma_join_char_reads_back(items, '\n', seps);
}

} // verus!
