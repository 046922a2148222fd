//! The settings page of the full-screen interface: its categories, the
//! value shown for each setting, and how the edit box changes a setting.
//!
//! The page's list selections are held as plain indices; the two
//! floating-point settings are shown and edited by the caller.

use vstd::prelude::*;

use crate::config::{apply_format_spec, format_value_of_label, is_book_name_field, Config, ConfigView};
use crate::text::{
    opt_view,
    bool_text, bool_to_string, clean_list, decimal_repr, eq_ignore_ascii_case, join, join_seq,
    lower_seq, parse_unsigned, split_seq, split_trimmed, str_eq, string_push_str,
    to_ascii_lowercase, trim, trim_seq, u64_to_string, unsigned_value, views, plain_items,
    law_decimal_roundtrip, lemma_decimal_trimmed, lemma_join_reads_back, lemma_join_trimmed,
    lemma_trim_unchanged,
};
use crate::config::{is_format_value, lemma_format_literals};
use crate::noui_config::txt_without_comments;

verus! {

/// The settings on the settings page.
#[derive(Clone, Copy, Debug, PartialEq, Eq, Structural)]
pub enum ConfigField {
    SavePath,
    NovelFormat,
    AutoClearDump,
    AutoOpenDownloadedFiles,
    AllowOverwriteFiles,
    PreferredBookNameField,
    OldCli,
    FirstLineIndentEm,
    EnableSegmentComments,
    UseOfficialApi,
    ApiEndpoints,
    MaxWorkers,
    RequestTimeout,
    MaxRetries,
    MinConnectTimeout,
    MinWait,
    MaxWait,
    EnableAudiobook,
    AudiobookVoice,
    AudiobookRate,
    AudiobookVolume,
    AudiobookPitch,
    AudiobookFormat,
    AudiobookConcurrency,
    AudiobookTtsProvider,
    AudiobookTtsApiUrl,
    AudiobookTtsApiToken,
    AudiobookTtsModel,
    SegmentCommentsTopN,
    SegmentCommentsWorkers,
    DownloadCommentImages,
    DownloadCommentAvatars,
    MediaDownloadWorkers,
    BlockedMediaDomains,
    ForceConvertImagesToJpeg,
    JpegRetryConvert,
    JpegQuality,
    ConvertHeicToJpeg,
    KeepHeicOriginal,
    MediaLimitPerChapter,
    MediaMaxDimensionPx,
}

/// One line of a category: its title and its setting.
#[derive(Clone, Debug)]
pub struct ConfigEntry {
    pub title: &'static str,
    pub field: ConfigField,
}

/// A category of the settings page and its lines.
#[derive(Clone, Debug)]
pub struct ConfigCategory {
    pub title: &'static str,
    pub entries: Vec<ConfigEntry>,
}

/// A value offered in a drop-down list: the stored name and its label.
#[derive(Clone, Copy, Debug)]
pub struct VoicePreset {
    pub name: &'static str,
    pub label: &'static str,
}

/// A preset as plain values.
pub open spec fn preset_view(p: VoicePreset) -> (Seq<char>, Seq<char>) {
    (p.name@, p.label@)
}

/// A list of presets as plain values.
pub open spec fn presets_view(v: Seq<VoicePreset>) -> Seq<(Seq<char>, Seq<char>)> {
    v.map_values(|p: VoicePreset| preset_view(p))
}

/// The voices offered for the audiobook.
pub open spec fn voice_preset_table() -> Seq<(Seq<char>, Seq<char>)> {
    seq![
        ("zh-CN-XiaoxiaoNeural"@, "zh-CN-XiaoxiaoNeural (жен.)"@),
        ("zh-CN-XiaoyiNeural"@, "zh-CN-XiaoyiNeural (жен.)"@),
        ("zh-CN-YunjianNeural"@, "zh-CN-YunjianNeural (муж.)"@),
        ("zh-CN-YunxiNeural"@, "zh-CN-YunxiNeural (муж.)"@),
        ("zh-CN-YunxiaNeural"@, "zh-CN-YunxiaNeural (муж.)"@),
        ("zh-CN-YunyangNeural"@, "zh-CN-YunyangNeural (муж.)"@),
        ("zh-CN-liaoning-XiaobeiNeural"@, "zh-CN-liaoning-XiaobeiNeural (жен.)"@),
        ("zh-CN-shaanxi-XiaoniNeural"@, "zh-CN-shaanxi-XiaoniNeural (жен.)"@),
        ("zh-HK-HiuGaaiNeural"@, "zh-HK-HiuGaaiNeural (жен.)"@),
        ("zh-HK-HiuMaanNeural"@, "zh-HK-HiuMaanNeural (жен.)"@),
        ("zh-HK-WanLungNeural"@, "zh-HK-WanLungNeural (муж.)"@),
        ("zh-TW-HsiaoChenNeural"@, "zh-TW-HsiaoChenNeural (жен.)"@),
    ]
}

/// The voices offered for the audiobook.
pub fn audiobook_voice_presets() -> (r: Vec<VoicePreset>)
    ensures
        presets_view(r@) == voice_preset_table(),
{
    let r = vec![
        VoicePreset { name: "zh-CN-XiaoxiaoNeural", label: "zh-CN-XiaoxiaoNeural (жен.)" },
        VoicePreset { name: "zh-CN-XiaoyiNeural", label: "zh-CN-XiaoyiNeural (жен.)" },
        VoicePreset { name: "zh-CN-YunjianNeural", label: "zh-CN-YunjianNeural (муж.)" },
        VoicePreset { name: "zh-CN-YunxiNeural", label: "zh-CN-YunxiNeural (муж.)" },
        VoicePreset { name: "zh-CN-YunxiaNeural", label: "zh-CN-YunxiaNeural (муж.)" },
        VoicePreset { name: "zh-CN-YunyangNeural", label: "zh-CN-YunyangNeural (муж.)" },
        VoicePreset { name: "zh-CN-liaoning-XiaobeiNeural", label: "zh-CN-liaoning-XiaobeiNeural (жен.)" },
        VoicePreset { name: "zh-CN-shaanxi-XiaoniNeural", label: "zh-CN-shaanxi-XiaoniNeural (жен.)" },
        VoicePreset { name: "zh-HK-HiuGaaiNeural", label: "zh-HK-HiuGaaiNeural (жен.)" },
        VoicePreset { name: "zh-HK-HiuMaanNeural", label: "zh-HK-HiuMaanNeural (жен.)" },
        VoicePreset { name: "zh-HK-WanLungNeural", label: "zh-HK-WanLungNeural (муж.)" },
        VoicePreset { name: "zh-TW-HsiaoChenNeural", label: "zh-TW-HsiaoChenNeural (жен.)" },
    ];
    assert(presets_view(r@) =~= voice_preset_table());
    r
}

/// The book-name fields offered, with their labels.
pub open spec fn book_name_preset_table() -> Seq<(Seq<char>, Seq<char>)> {
    seq![
        ("book_name"@, "Название по умолчанию"@),
        ("original_book_name"@, "Оригинальное название"@),
        ("book_short_name"@, "Короткое название"@),
        ("ask_after_download"@, "Спросить после загрузки"@),
    ]
}

/// The book-name fields offered, with their labels.
pub fn book_name_field_presets() -> (r: Vec<VoicePreset>)
    ensures
        presets_view(r@) == book_name_preset_table(),
{
    let r = vec![
        VoicePreset { name: "book_name", label: "Название по умолчанию" },
        VoicePreset { name: "original_book_name", label: "Оригинальное название" },
        VoicePreset { name: "book_short_name", label: "Короткое название" },
        VoicePreset { name: "ask_after_download", label: "Спросить после загрузки" },
    ];
    assert(presets_view(r@) =~= book_name_preset_table());
    r
}

/// The output formats offered, with their labels.
pub open spec fn format_preset_table() -> Seq<(Seq<char>, Seq<char>)> {
    seq![
        ("txt"@, "Формат txt"@),
        ("epub"@, "Формат epub"@),
        ("pdf"@, "Формат pdf"@),
        ("bulk_txt"@, "Отдельные файлы"@),
        ("ask_after_download"@, "Спросить после загрузки"@),
    ]
}

/// The output formats offered, with their labels.
pub fn novel_format_presets() -> (r: Vec<VoicePreset>)
    ensures
        presets_view(r@) == format_preset_table(),
{
    let r = vec![
        VoicePreset { name: "txt", label: "Формат txt" },
        VoicePreset { name: "epub", label: "Формат epub" },
        VoicePreset { name: "pdf", label: "Формат pdf" },
        VoicePreset { name: "bulk_txt", label: "Отдельные файлы" },
        VoicePreset { name: "ask_after_download", label: "Спросить после загрузки" },
    ];
    assert(presets_view(r@) =~= format_preset_table());
    r
}

/// Whether `f` is edited with a drop-down list.
pub open spec fn is_combo_field(f: ConfigField) -> bool {
    f == ConfigField::AudiobookVoice || f == ConfigField::PreferredBookNameField || f
        == ConfigField::NovelFormat
}

/// Whether `field` is edited with a drop-down list.
pub fn cfg_field_is_combo(field: ConfigField) -> (r: bool)
    ensures
        r == is_combo_field(field),
{
    match field {
        ConfigField::AudiobookVoice | ConfigField::PreferredBookNameField
        | ConfigField::NovelFormat => true,
        _ => false,
    }
}

/// The drop-down list of `f`, if it has one.
pub open spec fn combo_table(f: ConfigField) -> Option<Seq<(Seq<char>, Seq<char>)>> {
    match f {
        ConfigField::AudiobookVoice => Some(voice_preset_table()),
        ConfigField::PreferredBookNameField => Some(book_name_preset_table()),
        ConfigField::NovelFormat => Some(format_preset_table()),
        _ => None,
    }
}

/// The drop-down list of `field`, if it has one.
pub fn cfg_combo_presets(field: ConfigField) -> (r: Option<Vec<VoicePreset>>)
    ensures
        match combo_table(field) {
            Some(t) => r matches Some(v) && presets_view(v@) == t,
            None => r is None,
        },
{
    match field {
        ConfigField::AudiobookVoice => Some(audiobook_voice_presets()),
        ConfigField::PreferredBookNameField => Some(book_name_field_presets()),
        ConfigField::NovelFormat => Some(novel_format_presets()),
        _ => None,
    }
}

/// A category as plain values: its title and its lines.
pub open spec fn category_view(c: ConfigCategory) -> (Seq<char>, Seq<(Seq<char>, ConfigField)>) {
    (c.title@, c.entries@.map_values(|e: ConfigEntry| (e.title@, e.field)))
}

/// The categories as plain values.
pub open spec fn categories_view(v: Seq<ConfigCategory>) -> Seq<(Seq<char>, Seq<(Seq<char>, ConfigField)>)> {
    v.map_values(|c: ConfigCategory| category_view(c))
}

/// The categories of the settings page, in order, with their lines.
pub open spec fn category_table() -> Seq<(Seq<char>, Seq<(Seq<char>, ConfigField)>)> {
    seq![
        ("Основное и формат"@, seq![
            ("Путь сохранения"@, ConfigField::SavePath),
            ("Формат книги"@, ConfigField::NovelFormat),
            ("Отступ первой строки (em)"@, ConfigField::FirstLineIndentEm),
            ("Автоочистка кэша"@, ConfigField::AutoClearDump),
            ("Открывать после загрузки"@, ConfigField::AutoOpenDownloadedFiles),
            ("Разрешить перезапись файлов"@, ConfigField::AllowOverwriteFiles),
            ("Предпочтительное поле названия"@, ConfigField::PreferredBookNameField),
            ("Старый CLI UI"@, ConfigField::OldCli),
        ]),
        ("Сеть и планирование"@, seq![
            ("Макс. потоков"@, ConfigField::MaxWorkers),
            ("Таймаут запроса (с)"@, ConfigField::RequestTimeout),
            ("Макс. повторов"@, ConfigField::MaxRetries),
            ("Мин. таймаут соединения (с)"@, ConfigField::MinConnectTimeout),
            ("Мин. ожидание (мс)"@, ConfigField::MinWait),
            ("Макс. ожидание (мс)"@, ConfigField::MaxWait),
        ]),
        ("API"@, seq![
            ("Использовать официальный API"@, ConfigField::UseOfficialApi),
            ("Список API (через запятую)"@, ConfigField::ApiEndpoints),
        ]),
        ("Комментарии к абзацам"@, seq![
            ("Включить комментарии к абзацам"@, ConfigField::EnableSegmentComments),
            ("Лимит комментариев на абзац"@, ConfigField::SegmentCommentsTopN),
            ("Потоки для комментариев"@, ConfigField::SegmentCommentsWorkers),
        ]),
        ("Медиа"@, seq![
            ("Скачивать картинки комментариев"@, ConfigField::DownloadCommentImages),
            ("Скачивать аватары комментариев"@, ConfigField::DownloadCommentAvatars),
            ("Потоки загрузки медиа"@, ConfigField::MediaDownloadWorkers),
            ("Блокируемые домены картинок"@, ConfigField::BlockedMediaDomains),
            ("Принудительно в JPEG"@, ConfigField::ForceConvertImagesToJpeg),
            ("При ошибке снова в JPEG"@, ConfigField::JpegRetryConvert),
            ("Качество JPEG (0-100)"@, ConfigField::JpegQuality),
            ("HEIC в JPEG"@, ConfigField::ConvertHeicToJpeg),
            ("Сохранять оригинал HEIC"@, ConfigField::KeepHeicOriginal),
            ("Лимит медиа на главу"@, ConfigField::MediaLimitPerChapter),
            ("Макс. размер медиа (px)"@, ConfigField::MediaMaxDimensionPx),
        ]),
        ("Аудиокнига"@, seq![
            ("Включить аудиокнигу"@, ConfigField::EnableAudiobook),
            ("Голос"@, ConfigField::AudiobookVoice),
            ("Тип TTS (edge/third_party)"@, ConfigField::AudiobookTtsProvider),
            ("URL стороннего TTS API"@, ConfigField::AudiobookTtsApiUrl),
            ("Токен стороннего TTS"@, ConfigField::AudiobookTtsApiToken),
            ("Модель стороннего TTS"@, ConfigField::AudiobookTtsModel),
            ("Скорость речи"@, ConfigField::AudiobookRate),
            ("Громкость"@, ConfigField::AudiobookVolume),
            ("Высота тона"@, ConfigField::AudiobookPitch),
            ("Формат вывода (mp3/wav)"@, ConfigField::AudiobookFormat),
            ("Параллельных глав генерации"@, ConfigField::AudiobookConcurrency),
        ]),
    ]
}

fn category_0() -> (r: ConfigCategory)
    ensures
        category_view(r) == category_table()[0],
{
    let r = ConfigCategory {
        title: "Основное и формат",
        entries: vec![
            ConfigEntry { title: "Путь сохранения", field: ConfigField::SavePath },
            ConfigEntry { title: "Формат книги", field: ConfigField::NovelFormat },
            ConfigEntry { title: "Отступ первой строки (em)", field: ConfigField::FirstLineIndentEm },
            ConfigEntry { title: "Автоочистка кэша", field: ConfigField::AutoClearDump },
            ConfigEntry { title: "Открывать после загрузки", field: ConfigField::AutoOpenDownloadedFiles },
            ConfigEntry { title: "Разрешить перезапись файлов", field: ConfigField::AllowOverwriteFiles },
            ConfigEntry { title: "Предпочтительное поле названия", field: ConfigField::PreferredBookNameField },
            ConfigEntry { title: "Старый CLI UI", field: ConfigField::OldCli },
        ],
    };
    assert(category_view(r).1 =~= category_table()[0].1);
    r
}

fn category_1() -> (r: ConfigCategory)
    ensures
        category_view(r) == category_table()[1],
{
    let r = ConfigCategory {
        title: "Сеть и планирование",
        entries: vec![
            ConfigEntry { title: "Макс. потоков", field: ConfigField::MaxWorkers },
            ConfigEntry { title: "Таймаут запроса (с)", field: ConfigField::RequestTimeout },
            ConfigEntry { title: "Макс. повторов", field: ConfigField::MaxRetries },
            ConfigEntry { title: "Мин. таймаут соединения (с)", field: ConfigField::MinConnectTimeout },
            ConfigEntry { title: "Мин. ожидание (мс)", field: ConfigField::MinWait },
            ConfigEntry { title: "Макс. ожидание (мс)", field: ConfigField::MaxWait },
        ],
    };
    assert(category_view(r).1 =~= category_table()[1].1);
    r
}

fn category_2() -> (r: ConfigCategory)
    ensures
        category_view(r) == category_table()[2],
{
    let r = ConfigCategory {
        title: "API",
        entries: vec![
            ConfigEntry { title: "Использовать официальный API", field: ConfigField::UseOfficialApi },
            ConfigEntry { title: "Список API (через запятую)", field: ConfigField::ApiEndpoints },
        ],
    };
    assert(category_view(r).1 =~= category_table()[2].1);
    r
}

fn category_3() -> (r: ConfigCategory)
    ensures
        category_view(r) == category_table()[3],
{
    let r = ConfigCategory {
        title: "Комментарии к абзацам",
        entries: vec![
            ConfigEntry { title: "Включить комментарии к абзацам", field: ConfigField::EnableSegmentComments },
            ConfigEntry { title: "Лимит комментариев на абзац", field: ConfigField::SegmentCommentsTopN },
            ConfigEntry { title: "Потоки для комментариев", field: ConfigField::SegmentCommentsWorkers },
        ],
    };
    assert(category_view(r).1 =~= category_table()[3].1);
    r
}

fn category_4() -> (r: ConfigCategory)
    ensures
        category_view(r) == category_table()[4],
{
    let r = ConfigCategory {
        title: "Медиа",
        entries: vec![
            ConfigEntry { title: "Скачивать картинки комментариев", field: ConfigField::DownloadCommentImages },
            ConfigEntry { title: "Скачивать аватары комментариев", field: ConfigField::DownloadCommentAvatars },
            ConfigEntry { title: "Потоки загрузки медиа", field: ConfigField::MediaDownloadWorkers },
            ConfigEntry { title: "Блокируемые домены картинок", field: ConfigField::BlockedMediaDomains },
            ConfigEntry { title: "Принудительно в JPEG", field: ConfigField::ForceConvertImagesToJpeg },
            ConfigEntry { title: "При ошибке снова в JPEG", field: ConfigField::JpegRetryConvert },
            ConfigEntry { title: "Качество JPEG (0-100)", field: ConfigField::JpegQuality },
            ConfigEntry { title: "HEIC в JPEG", field: ConfigField::ConvertHeicToJpeg },
            ConfigEntry { title: "Сохранять оригинал HEIC", field: ConfigField::KeepHeicOriginal },
            ConfigEntry { title: "Лимит медиа на главу", field: ConfigField::MediaLimitPerChapter },
            ConfigEntry { title: "Макс. размер медиа (px)", field: ConfigField::MediaMaxDimensionPx },
        ],
    };
    assert(category_view(r).1 =~= category_table()[4].1);
    r
}

fn category_5() -> (r: ConfigCategory)
    ensures
        category_view(r) == category_table()[5],
{
    let r = ConfigCategory {
        title: "Аудиокнига",
        entries: vec![
            ConfigEntry { title: "Включить аудиокнигу", field: ConfigField::EnableAudiobook },
            ConfigEntry { title: "Голос", field: ConfigField::AudiobookVoice },
            ConfigEntry { title: "Тип TTS (edge/third_party)", field: ConfigField::AudiobookTtsProvider },
            ConfigEntry { title: "URL стороннего TTS API", field: ConfigField::AudiobookTtsApiUrl },
            ConfigEntry { title: "Токен стороннего TTS", field: ConfigField::AudiobookTtsApiToken },
            ConfigEntry { title: "Модель стороннего TTS", field: ConfigField::AudiobookTtsModel },
            ConfigEntry { title: "Скорость речи", field: ConfigField::AudiobookRate },
            ConfigEntry { title: "Громкость", field: ConfigField::AudiobookVolume },
            ConfigEntry { title: "Высота тона", field: ConfigField::AudiobookPitch },
            ConfigEntry { title: "Формат вывода (mp3/wav)", field: ConfigField::AudiobookFormat },
            ConfigEntry { title: "Параллельных глав генерации", field: ConfigField::AudiobookConcurrency },
        ],
    };
    assert(category_view(r).1 =~= category_table()[5].1);
    r
}

/// The categories of the settings page.
pub fn build_config_categories() -> (r: Vec<ConfigCategory>)
    ensures
        categories_view(r@) == category_table(),
{
    let r = vec![category_0(), category_1(), category_2(), category_3(), category_4(), category_5()];
    assert(categories_view(r@) =~= category_table());
    r
}

/// The category and line where `f` stands on the settings page.
pub open spec fn category_position(f: ConfigField) -> (int, int) {
    match f {
        ConfigField::SavePath => (0, 0),
        ConfigField::NovelFormat => (0, 1),
        ConfigField::FirstLineIndentEm => (0, 2),
        ConfigField::AutoClearDump => (0, 3),
        ConfigField::AutoOpenDownloadedFiles => (0, 4),
        ConfigField::AllowOverwriteFiles => (0, 5),
        ConfigField::PreferredBookNameField => (0, 6),
        ConfigField::OldCli => (0, 7),
        ConfigField::MaxWorkers => (1, 0),
        ConfigField::RequestTimeout => (1, 1),
        ConfigField::MaxRetries => (1, 2),
        ConfigField::MinConnectTimeout => (1, 3),
        ConfigField::MinWait => (1, 4),
        ConfigField::MaxWait => (1, 5),
        ConfigField::UseOfficialApi => (2, 0),
        ConfigField::ApiEndpoints => (2, 1),
        ConfigField::EnableSegmentComments => (3, 0),
        ConfigField::SegmentCommentsTopN => (3, 1),
        ConfigField::SegmentCommentsWorkers => (3, 2),
        ConfigField::DownloadCommentImages => (4, 0),
        ConfigField::DownloadCommentAvatars => (4, 1),
        ConfigField::MediaDownloadWorkers => (4, 2),
        ConfigField::BlockedMediaDomains => (4, 3),
        ConfigField::ForceConvertImagesToJpeg => (4, 4),
        ConfigField::JpegRetryConvert => (4, 5),
        ConfigField::JpegQuality => (4, 6),
        ConfigField::ConvertHeicToJpeg => (4, 7),
        ConfigField::KeepHeicOriginal => (4, 8),
        ConfigField::MediaLimitPerChapter => (4, 9),
        ConfigField::MediaMaxDimensionPx => (4, 10),
        ConfigField::EnableAudiobook => (5, 0),
        ConfigField::AudiobookVoice => (5, 1),
        ConfigField::AudiobookTtsProvider => (5, 2),
        ConfigField::AudiobookTtsApiUrl => (5, 3),
        ConfigField::AudiobookTtsApiToken => (5, 4),
        ConfigField::AudiobookTtsModel => (5, 5),
        ConfigField::AudiobookRate => (5, 6),
        ConfigField::AudiobookVolume => (5, 7),
        ConfigField::AudiobookPitch => (5, 8),
        ConfigField::AudiobookFormat => (5, 9),
        ConfigField::AudiobookConcurrency => (5, 10),
    }
}

/// Every setting stands on exactly one line of the settings page: positions
/// and lines undo each other.
pub proof fn law_every_field_on_one_line(f: ConfigField, i: int, j: int)
    requires
        0 <= i < category_table().len(),
        0 <= j < category_table()[i].1.len(),
    ensures
        category_table().len() == 6,
        0 <= category_position(f).0 < 6,
        0 <= category_position(f).1 < category_table()[category_position(f).0].1.len(),
        category_table()[category_position(f).0].1[category_position(f).1].1 == f,
        category_position(category_table()[i].1[j].1) == (i, j),
{
}

/// The label of the output format `choice`, read without surrounding
/// whitespace and in any ASCII case; an unknown choice reads as txt.
pub open spec fn format_label_ru(choice: Seq<char>) -> Seq<char> {
    let l = lower_seq(trim_seq(choice));
    if l == "epub"@ {
        "Формат epub"@
    } else if l == "pdf"@ {
        "Формат pdf"@
    } else if l == "bulk_txt"@ {
        "Отдельные файлы"@
    } else if l == "ask_after_download"@ {
        "Спросить после загрузки"@
    } else {
        "Формат txt"@
    }
}

/// The label of the output format `choice` on the settings page.
pub fn output_format_label_ru(choice: &str) -> (r: &'static str)
    ensures
        r@ == format_label_ru(choice@),
{
    let t = trim(choice);
    let l = to_ascii_lowercase(t.as_str());
    if str_eq(l.as_str(), "epub") {
        "Формат epub"
    } else if str_eq(l.as_str(), "pdf") {
        "Формат pdf"
    } else if str_eq(l.as_str(), "bulk_txt") {
        "Отдельные файлы"
    } else if str_eq(l.as_str(), "ask_after_download") {
        "Спросить после загрузки"
    } else {
        "Формат txt"
    }
}

/// The label of the book-name field `f` on the settings page; an unknown
/// field reads as the default name.
pub open spec fn book_name_label_ru(f: Seq<char>) -> Seq<char> {
    if f == "original_book_name"@ {
        "Оригинальное название"@
    } else if f == "book_short_name"@ {
        "Короткое название"@
    } else if f == "ask_after_download"@ {
        "Спросить после загрузки"@
    } else {
        "Название по умолчанию"@
    }
}

/// The label of the book-name field `field` on the settings page.
pub fn book_name_field_to_chinese(field: &str) -> (r: &'static str)
    ensures
        r@ == book_name_label_ru(field@),
{
    if str_eq(field, "original_book_name") {
        "Оригинальное название"
    } else if str_eq(field, "book_short_name") {
        "Короткое название"
    } else if str_eq(field, "ask_after_download") {
        "Спросить после загрузки"
    } else {
        "Название по умолчанию"
    }
}

/// The book-name field whose settings-page label is `label`, if any.
pub open spec fn book_name_of_label_ru(label: Seq<char>) -> Option<Seq<char>> {
    if label == "Название по умолчанию"@ {
        Some("book_name"@)
    } else if label == "Оригинальное название"@ {
        Some("original_book_name"@)
    } else if label == "Короткое название"@ {
        Some("book_short_name"@)
    } else if label == "Спросить после загрузки"@ {
        Some("ask_after_download"@)
    } else {
        None
    }
}

/// The book-name field whose settings-page label is `chinese`, if any.
pub fn chinese_to_book_name_field(chinese: &str) -> (r: Option<String>)
    ensures
        opt_view(r) == book_name_of_label_ru(chinese@),
{
    if str_eq(chinese, "Название по умолчанию") {
        Some("book_name".to_string())
    } else if str_eq(chinese, "Оригинальное название") {
        Some("original_book_name".to_string())
    } else if str_eq(chinese, "Короткое название") {
        Some("book_short_name".to_string())
    } else if str_eq(chinese, "Спросить после загрузки") {
        Some("ask_after_download".to_string())
    } else {
        None
    }
}

/// The output format whose settings-page label is `label`, if any; other
/// labels go by the general table of output formats.
pub open spec fn format_of_label_ru(label: Seq<char>) -> Option<Seq<char>> {
    if label == "Формат txt"@ {
        Some("txt"@)
    } else if label == "Формат epub"@ {
        Some("epub"@)
    } else if label == "Формат pdf"@ {
        Some("pdf"@)
    } else if label == "Отдельные файлы"@ {
        Some("bulk_txt"@)
    } else if label == "Спросить после загрузки"@ {
        Some("ask_after_download"@)
    } else {
        format_value_of_label(label)
    }
}

/// The output format whose settings-page label is `chinese`, if any.
pub fn chinese_to_novel_format(chinese: &str) -> (r: Option<String>)
    ensures
        opt_view(r) == format_of_label_ru(chinese@),
{
    if str_eq(chinese, "Формат txt") {
        Some("txt".to_string())
    } else if str_eq(chinese, "Формат epub") {
        Some("epub".to_string())
    } else if str_eq(chinese, "Формат pdf") {
        Some("pdf".to_string())
    } else if str_eq(chinese, "Отдельные файлы") {
        Some("bulk_txt".to_string())
    } else if str_eq(chinese, "Спросить после загрузки") {
        Some("ask_after_download".to_string())
    } else {
        match crate::config::output_format_value_from_label(chinese) {
            Some(v) => Some(v.to_string()),
            None => None,
        }
    }
}

/// `input` read as on or off: `true 1 yes y on` or `false 0 no n off`, in any
/// ASCII case.
pub open spec fn bool_value(input: Seq<char>) -> Option<bool> {
    let l = lower_seq(input);
    if l == "true"@ || l == "1"@ || l == "yes"@ || l == "y"@ || l == "on"@ {
        Some(true)
    } else if l == "false"@ || l == "0"@ || l == "no"@ || l == "n"@ || l == "off"@ {
        Some(false)
    } else {
        None
    }
}

/// `input` read as on or off, if it is one of the accepted words.
pub fn parse_bool(input: &str) -> (r: Option<bool>)
    ensures
        r == bool_value(input@),
{
    let l = to_ascii_lowercase(input);
    let t = l.as_str();
    if str_eq(t, "true") || str_eq(t, "1") || str_eq(t, "yes") || str_eq(t, "y") || str_eq(t, "on") {
        Some(true)
    } else if str_eq(t, "false") || str_eq(t, "0") || str_eq(t, "no") || str_eq(t, "n") || str_eq(
        t,
        "off",
    ) {
        Some(false)
    } else {
        None
    }
}

/// The separators of a list typed on the settings page.
pub open spec fn list_separators_ru() -> Seq<char> {
    seq![',', ';', '\n']
}

/// The list typed as `input`: the pieces between commas, semicolons and line
/// breaks, trimmed, the empty ones left out.
pub fn parse_string_list(input: &str) -> (r: Vec<String>)
    ensures
        views(r@) == clean_list(split_seq(input@, list_separators_ru())),
{
    let seps = vec![',', ';', '\n'];
    assert(seps@ =~= list_separators_ru());
    split_trimmed(input, &seps)
}

/// The text the settings page shows for `f` in `c`; none for the two
/// floating-point settings.
pub open spec fn page_value_text(c: ConfigView, f: ConfigField) -> Option<Seq<char>> {
    match f {
        ConfigField::NovelFormat => Some(format_label_ru(c.novel_format)),
        ConfigField::PreferredBookNameField => Some(book_name_label_ru(c.preferred_book_name_field)),
        ConfigField::FirstLineIndentEm | ConfigField::MinConnectTimeout => None,
        ConfigField::SavePath => Some(c.save_path),
        ConfigField::AudiobookVoice => Some(c.audiobook_voice),
        ConfigField::AudiobookRate => Some(c.audiobook_rate),
        ConfigField::AudiobookVolume => Some(c.audiobook_volume),
        ConfigField::AudiobookPitch => Some(c.audiobook_pitch),
        ConfigField::AudiobookFormat => Some(c.audiobook_format),
        ConfigField::AudiobookTtsProvider => Some(c.audiobook_tts_provider),
        ConfigField::AudiobookTtsApiUrl => Some(c.audiobook_tts_api_url),
        ConfigField::AudiobookTtsApiToken => Some(c.audiobook_tts_api_token),
        ConfigField::AudiobookTtsModel => Some(c.audiobook_tts_model),
        ConfigField::AutoClearDump => Some(bool_text(c.auto_clear_dump)),
        ConfigField::AutoOpenDownloadedFiles => Some(bool_text(c.auto_open_downloaded_files)),
        ConfigField::AllowOverwriteFiles => Some(bool_text(c.allow_overwrite_files)),
        ConfigField::OldCli => Some(bool_text(c.old_cli)),
        ConfigField::EnableSegmentComments => Some(bool_text(c.enable_segment_comments)),
        ConfigField::UseOfficialApi => Some(bool_text(c.use_official_api)),
        ConfigField::EnableAudiobook => Some(bool_text(c.enable_audiobook)),
        ConfigField::DownloadCommentImages => Some(bool_text(c.download_comment_images)),
        ConfigField::DownloadCommentAvatars => Some(bool_text(c.download_comment_avatars)),
        ConfigField::ForceConvertImagesToJpeg => Some(bool_text(c.force_convert_images_to_jpeg)),
        ConfigField::JpegRetryConvert => Some(bool_text(c.jpeg_retry_convert)),
        ConfigField::ConvertHeicToJpeg => Some(bool_text(c.convert_heic_to_jpeg)),
        ConfigField::KeepHeicOriginal => Some(bool_text(c.keep_heic_original)),
        ConfigField::MaxWorkers => Some(decimal_repr(c.max_workers as nat)),
        ConfigField::RequestTimeout => Some(decimal_repr(c.request_timeout as nat)),
        ConfigField::MaxRetries => Some(decimal_repr(c.max_retries as nat)),
        ConfigField::MinWait => Some(decimal_repr(c.min_wait_time as nat)),
        ConfigField::MaxWait => Some(decimal_repr(c.max_wait_time as nat)),
        ConfigField::AudiobookConcurrency => Some(decimal_repr(c.audiobook_concurrency as nat)),
        ConfigField::SegmentCommentsTopN => Some(decimal_repr(c.segment_comments_top_n as nat)),
        ConfigField::SegmentCommentsWorkers => Some(decimal_repr(c.segment_comments_workers as nat)),
        ConfigField::MediaDownloadWorkers => Some(decimal_repr(c.media_download_workers as nat)),
        ConfigField::JpegQuality => Some(decimal_repr(c.jpeg_quality as nat)),
        ConfigField::MediaLimitPerChapter => Some(decimal_repr(c.media_limit_per_chapter as nat)),
        ConfigField::MediaMaxDimensionPx => Some(decimal_repr(c.media_max_dimension_px as nat)),
        ConfigField::ApiEndpoints => Some(join_seq(c.api_endpoints, ","@)),
        ConfigField::BlockedMediaDomains => Some(join_seq(c.blocked_media_domains, ","@)),
    }
}

/// The text the settings page shows for `field`; `None` for the two
/// floating-point settings, which the caller formats.
pub fn current_cfg_value(app: &ConfigApp, field: ConfigField) -> (r: Option<String>)
    ensures
        opt_view(r) == page_value_text(app.config@, field),
{
    let c = &app.config;
    match field {
        ConfigField::NovelFormat => Some(
            output_format_label_ru(c.current_output_format_choice()).to_string(),
        ),
        ConfigField::PreferredBookNameField => Some(
            book_name_field_to_chinese(c.preferred_book_name_field.as_str()).to_string(),
        ),
        ConfigField::FirstLineIndentEm | ConfigField::MinConnectTimeout => None,
        ConfigField::SavePath => Some(c.save_path.clone()),
        ConfigField::AudiobookVoice => Some(c.audiobook_voice.clone()),
        ConfigField::AudiobookRate => Some(c.audiobook_rate.clone()),
        ConfigField::AudiobookVolume => Some(c.audiobook_volume.clone()),
        ConfigField::AudiobookPitch => Some(c.audiobook_pitch.clone()),
        ConfigField::AudiobookFormat => Some(c.audiobook_format.clone()),
        ConfigField::AudiobookTtsProvider => Some(c.audiobook_tts_provider.clone()),
        ConfigField::AudiobookTtsApiUrl => Some(c.audiobook_tts_api_url.clone()),
        ConfigField::AudiobookTtsApiToken => Some(c.audiobook_tts_api_token.clone()),
        ConfigField::AudiobookTtsModel => Some(c.audiobook_tts_model.clone()),
        ConfigField::AutoClearDump => Some(bool_to_string(c.auto_clear_dump)),
        ConfigField::AutoOpenDownloadedFiles => Some(bool_to_string(c.auto_open_downloaded_files)),
        ConfigField::AllowOverwriteFiles => Some(bool_to_string(c.allow_overwrite_files)),
        ConfigField::OldCli => Some(bool_to_string(c.old_cli)),
        ConfigField::EnableSegmentComments => Some(bool_to_string(c.enable_segment_comments)),
        ConfigField::UseOfficialApi => Some(bool_to_string(c.use_official_api)),
        ConfigField::EnableAudiobook => Some(bool_to_string(c.enable_audiobook)),
        ConfigField::DownloadCommentImages => Some(bool_to_string(c.download_comment_images)),
        ConfigField::DownloadCommentAvatars => Some(bool_to_string(c.download_comment_avatars)),
        ConfigField::ForceConvertImagesToJpeg => Some(bool_to_string(c.force_convert_images_to_jpeg)),
        ConfigField::JpegRetryConvert => Some(bool_to_string(c.jpeg_retry_convert)),
        ConfigField::ConvertHeicToJpeg => Some(bool_to_string(c.convert_heic_to_jpeg)),
        ConfigField::KeepHeicOriginal => Some(bool_to_string(c.keep_heic_original)),
        ConfigField::MaxWorkers => Some(u64_to_string(c.max_workers as u64)),
        ConfigField::RequestTimeout => Some(u64_to_string(c.request_timeout)),
        ConfigField::MaxRetries => Some(u64_to_string(c.max_retries as u64)),
        ConfigField::MinWait => Some(u64_to_string(c.min_wait_time)),
        ConfigField::MaxWait => Some(u64_to_string(c.max_wait_time)),
        ConfigField::AudiobookConcurrency => Some(u64_to_string(c.audiobook_concurrency as u64)),
        ConfigField::SegmentCommentsTopN => Some(u64_to_string(c.segment_comments_top_n as u64)),
        ConfigField::SegmentCommentsWorkers => Some(u64_to_string(c.segment_comments_workers as u64)),
        ConfigField::MediaDownloadWorkers => Some(u64_to_string(c.media_download_workers as u64)),
        ConfigField::JpegQuality => Some(u64_to_string(c.jpeg_quality as u64)),
        ConfigField::MediaLimitPerChapter => Some(u64_to_string(c.media_limit_per_chapter as u64)),
        ConfigField::MediaMaxDimensionPx => Some(u64_to_string(c.media_max_dimension_px as u64)),
        ConfigField::ApiEndpoints => Some(join(&c.api_endpoints, ",")),
        ConfigField::BlockedMediaDomains => Some(join(&c.blocked_media_domains, ",")),
    }
}

/// Whether `f` is an on/off setting.
pub open spec fn is_bool_field(f: ConfigField) -> bool {
    match f {
        ConfigField::AutoClearDump => true,
        ConfigField::AutoOpenDownloadedFiles => true,
        ConfigField::AllowOverwriteFiles => true,
        ConfigField::OldCli => true,
        ConfigField::EnableSegmentComments => true,
        ConfigField::UseOfficialApi => true,
        ConfigField::EnableAudiobook => true,
        ConfigField::DownloadCommentImages => true,
        ConfigField::DownloadCommentAvatars => true,
        ConfigField::ForceConvertImagesToJpeg => true,
        ConfigField::JpegRetryConvert => true,
        ConfigField::ConvertHeicToJpeg => true,
        ConfigField::KeepHeicOriginal => true,
        _ => false,
    }
}

/// Whether `field` is an on/off setting.
pub fn cfg_field_is_bool(field: ConfigField) -> (r: bool)
    ensures
        r == is_bool_field(field),
{
    match field {
        ConfigField::AutoClearDump => true,
        ConfigField::AutoOpenDownloadedFiles => true,
        ConfigField::AllowOverwriteFiles => true,
        ConfigField::OldCli => true,
        ConfigField::EnableSegmentComments => true,
        ConfigField::UseOfficialApi => true,
        ConfigField::EnableAudiobook => true,
        ConfigField::DownloadCommentImages => true,
        ConfigField::DownloadCommentAvatars => true,
        ConfigField::ForceConvertImagesToJpeg => true,
        ConfigField::JpegRetryConvert => true,
        ConfigField::ConvertHeicToJpeg => true,
        ConfigField::KeepHeicOriginal => true,
        _ => false,
    }
}

/// The value of the on/off setting `f` in `c`, if `f` is one.
pub open spec fn bool_setting(c: ConfigView, f: ConfigField) -> Option<bool> {
    match f {
        ConfigField::AutoClearDump => Some(c.auto_clear_dump),
        ConfigField::AutoOpenDownloadedFiles => Some(c.auto_open_downloaded_files),
        ConfigField::AllowOverwriteFiles => Some(c.allow_overwrite_files),
        ConfigField::OldCli => Some(c.old_cli),
        ConfigField::EnableSegmentComments => Some(c.enable_segment_comments),
        ConfigField::UseOfficialApi => Some(c.use_official_api),
        ConfigField::EnableAudiobook => Some(c.enable_audiobook),
        ConfigField::DownloadCommentImages => Some(c.download_comment_images),
        ConfigField::DownloadCommentAvatars => Some(c.download_comment_avatars),
        ConfigField::ForceConvertImagesToJpeg => Some(c.force_convert_images_to_jpeg),
        ConfigField::JpegRetryConvert => Some(c.jpeg_retry_convert),
        ConfigField::ConvertHeicToJpeg => Some(c.convert_heic_to_jpeg),
        ConfigField::KeepHeicOriginal => Some(c.keep_heic_original),
        _ => None,
    }
}

/// The value of the on/off setting `field`, if it is one.
pub fn cfg_field_current_bool(app: &ConfigApp, field: ConfigField) -> (r: Option<bool>)
    ensures
        r == bool_setting(app.config@, field),
{
    let c = &app.config;
    let val = match field {
        ConfigField::AutoClearDump => c.auto_clear_dump,
        ConfigField::AutoOpenDownloadedFiles => c.auto_open_downloaded_files,
        ConfigField::AllowOverwriteFiles => c.allow_overwrite_files,
        ConfigField::OldCli => c.old_cli,
        ConfigField::EnableSegmentComments => c.enable_segment_comments,
        ConfigField::UseOfficialApi => c.use_official_api,
        ConfigField::EnableAudiobook => c.enable_audiobook,
        ConfigField::DownloadCommentImages => c.download_comment_images,
        ConfigField::DownloadCommentAvatars => c.download_comment_avatars,
        ConfigField::ForceConvertImagesToJpeg => c.force_convert_images_to_jpeg,
        ConfigField::JpegRetryConvert => c.jpeg_retry_convert,
        ConfigField::ConvertHeicToJpeg => c.convert_heic_to_jpeg,
        ConfigField::KeepHeicOriginal => c.keep_heic_original,
        _ => return None,
    };
    Some(val)
}

/// Which part of a drop-down editor has the focus.
#[derive(Clone, Copy, Debug, PartialEq, Eq, Structural)]
pub enum ComboFocus {
    /// The list of presets.
    List,
    /// The free-text box.
    Input,
}

/// The state of the settings page: the settings, the categories, the
/// selected lines of its lists, the line being edited, the edit box and the
/// status line.
pub struct ConfigApp {
    pub config: Config,
    pub cfg_categories: Vec<ConfigCategory>,
    pub cfg_cat_selected: Option<usize>,
    pub cfg_entry_selected: Option<usize>,
    pub cfg_editing: Option<(usize, usize)>,
    pub cfg_edit_buffer: String,
    pub cfg_bool_selected: Option<usize>,
    pub cfg_combo_focus: ComboFocus,
    pub cfg_combo_selected: Option<usize>,
    pub status: String,
}

/// The position of the first preset whose name equals `b` up to ASCII case.
pub open spec fn first_preset_match(names: Seq<(Seq<char>, Seq<char>)>, b: Seq<char>) -> Option<int>
    decreases names.len(),
{
    if names.len() == 0 {
        None
    } else {
        match first_preset_match(names.drop_last(), b) {
            Some(i) => Some(i),
            None => if lower_seq(names.last().0) == lower_seq(b) {
                Some(names.len() - 1)
            } else {
                None
            },
        }
    }
}

/// The position of the first preset whose name equals `b` up to ASCII case.
fn preset_position(presets: &Vec<VoicePreset>, b: &str) -> (r: Option<usize>)
    ensures
        match first_preset_match(presets_view(presets@), b@) {
            Some(i) => r == Some(i as usize),
            None => r is None,
        },
{
    let mut i: usize = 0;
    while i < presets.len()
        invariant
            i <= presets@.len(),
            first_preset_match(presets_view(presets@).take(i as int), b@) is None,
        decreases presets@.len() - i,
    {
        let ghost pv = presets_view(presets@);
        assert(pv.take(i + 1).drop_last() =~= pv.take(i as int));
        if eq_ignore_ascii_case(presets[i].name, b) {
            proof {
                lemma_first_match_prefix(pv, b@, i + 1);
            }
            return Some(i);
        }
        i = i + 1;
    }
    assert(presets_view(presets@).take(presets@.len() as int) =~= presets_view(presets@));
    None
}

proof fn lemma_first_match_prefix(names: Seq<(Seq<char>, Seq<char>)>, b: Seq<char>, k: int)
    requires
        0 <= k <= names.len(),
        first_preset_match(names.take(k), b) is Some,
    ensures
        first_preset_match(names, b) == first_preset_match(names.take(k), b),
    decreases names.len() - k,
{
    if k < names.len() {
        assert(names.take(k + 1).drop_last() =~= names.take(k));
        lemma_first_match_prefix(names, b, k + 1);
    } else {
        assert(names.take(k) =~= names);
    }
}

/// The status line while a line is edited.
pub open spec fn editing_status(category: Seq<char>, entry: Seq<char>) -> Seq<char> {
    "Правка ["@ + category + "]: "@ + entry
}

/// Opens the edit box for the selected line, when both lists have a valid
/// selection: the box starts with the shown value (empty for the two
/// floating-point settings, which the caller fills), an on/off setting
/// selects its current choice, a drop-down list selects the preset that
/// matches the value (or the first one), and the status line names the
/// line. Returns the setting being edited.
pub fn start_cfg_edit(app: &mut ConfigApp) -> (r: Option<ConfigField>)
    ensures
        ({
            let a = old(app);
            let cats = categories_view(a.cfg_categories@);
            if a.cfg_cat_selected is Some && a.cfg_entry_selected is Some
                && a.cfg_cat_selected.unwrap() < cats.len()
                && a.cfg_entry_selected.unwrap() < cats[a.cfg_cat_selected.unwrap() as int].1.len() {
                let ci = a.cfg_cat_selected.unwrap();
                let ei = a.cfg_entry_selected.unwrap();
                let (etitle, f) = cats[ci as int].1[ei as int];
                let text = match page_value_text(a.config@, f) {
                    Some(t) => t,
                    None => Seq::<char>::empty(),
                };
                &&& r == Some(f)
                &&& final(app).cfg_editing == Some((ci, ei))
                &&& final(app).cfg_edit_buffer@ == text
                &&& final(app).cfg_bool_selected == if is_bool_field(f) {
                    if bool_setting(a.config@, f) == Some(false) { Some(1usize) } else { Some(0usize) }
                } else {
                    a.cfg_bool_selected
                }
                &&& final(app).cfg_combo_focus == if is_combo_field(f) { ComboFocus::List } else { a.cfg_combo_focus }
                &&& final(app).cfg_combo_selected == if is_combo_field(f) {
                    match first_preset_match(combo_table(f).unwrap(), text) {
                        Some(i) => Some(i as usize),
                        None => Some(0usize),
                    }
                } else {
                    a.cfg_combo_selected
                }
                &&& final(app).status@ == editing_status(cats[ci as int].0, etitle)
                &&& final(app).config == a.config
                &&& final(app).cfg_categories == a.cfg_categories
                &&& final(app).cfg_cat_selected == a.cfg_cat_selected
                &&& final(app).cfg_entry_selected == a.cfg_entry_selected
            } else {
                r is None && *final(app) == *a
            }
        }),
{
    let cat_idx = match app.cfg_cat_selected {
        Some(i) => i,
        None => return None,
    };
    let entry_idx = match app.cfg_entry_selected {
        Some(i) => i,
        None => return None,
    };
    if cat_idx >= app.cfg_categories.len() {
        return None;
    }
    if entry_idx >= app.cfg_categories[cat_idx].entries.len() {
        return None;
    }
    let cat_title = app.cfg_categories[cat_idx].title;
    let entry_title = app.cfg_categories[cat_idx].entries[entry_idx].title;
    let field = app.cfg_categories[cat_idx].entries[entry_idx].field;
    proof {
        let cats = categories_view(app.cfg_categories@);
        assert(cats[cat_idx as int].1[entry_idx as int] == (entry_title@, field));
    }
    app.cfg_editing = Some((cat_idx, entry_idx));
    app.cfg_edit_buffer = match current_cfg_value(app, field) {
        Some(t) => t,
        None => String::new(),
    };
    if cfg_field_is_bool(field) {
        let selected = match cfg_field_current_bool(app, field) {
            Some(true) => Some(0),
            Some(false) => Some(1),
            None => Some(0),
        };
        app.cfg_bool_selected = selected;
    }
    if cfg_field_is_combo(field) {
        app.cfg_combo_focus = ComboFocus::List;
        match cfg_combo_presets(field) {
            Some(presets) => {
                let idx = match preset_position(&presets, app.cfg_edit_buffer.as_str()) {
                    Some(i) => Some(i),
                    None => Some(0),
                };
                app.cfg_combo_selected = idx;
            },
            None => {},
        }
    }
    let mut status = "Правка [".to_string();
    string_push_str(&mut status, cat_title);
    string_push_str(&mut status, "]: ");
    string_push_str(&mut status, entry_title);
    app.status = status;
    Some(field)
}

/// What an edit of the settings page does, as plain values.
pub enum PageEditView {
    /// The settings became the first value; the second is a note.
    Changed(ConfigView, Option<Seq<char>>),
    /// Nothing changed; the status line shows this message.
    Rejected(Seq<char>),
    /// Nothing changed; the edit fails with this message.
    Failed(Seq<char>),
    /// The setting holds a floating-point number, which the caller handles.
    FloatValue,
}

/// What an edit of one setting did.
#[derive(Debug)]
pub enum PageEdit {
    /// The setting changed; the text, if any, is a note.
    Changed(Option<String>),
    /// Nothing changed; the text is for the status line.
    Rejected(String),
    /// The setting holds a floating-point number, which the caller handles.
    FloatValue,
}

/// Whether `r`, with the settings `before` and `after`, is what `s`
/// describes.
pub open spec fn page_edit_holds(r: Result<PageEdit, String>, s: PageEditView, before: ConfigView, after: ConfigView) -> bool {
    match s {
        PageEditView::Changed(c, note) => r matches Ok(PageEdit::Changed(n)) && opt_view(n) == note && after == c,
        PageEditView::Rejected(m) => r matches Ok(PageEdit::Rejected(t)) && t@ == m && after == before,
        PageEditView::Failed(m) => r matches Err(e) && e@ == m && after == before,
        PageEditView::FloatValue => r matches Ok(PageEdit::FloatValue) && after == before,
    }
}

/// `raw` read as an unsigned number of at most `max`.
pub open spec fn bounded_value(raw: Seq<char>, max: int) -> Option<int> {
    match unsigned_value(raw) {
        Some(v) => if v <= max { Some(v) } else { None },
        None => None,
    }
}

/// The effect of the trimmed edit box text `raw` on the setting `f` of `c`.
pub open spec fn page_edit(c: ConfigView, f: ConfigField, raw: Seq<char>) -> PageEditView {
    match f {
        ConfigField::FirstLineIndentEm | ConfigField::MinConnectTimeout => edit_spec_float(c, raw),
        ConfigField::NovelFormat => edit_spec_novel_format(c, raw),
        ConfigField::PreferredBookNameField => edit_spec_preferred_book_name_field(c, raw),
        ConfigField::AudiobookFormat => edit_spec_audiobook_format(c, raw),
        ConfigField::EnableSegmentComments => edit_spec_enable_segment_comments(c, raw),
        ConfigField::SavePath => edit_spec_save_path(c, raw),
        ConfigField::AudiobookVoice => edit_spec_audiobook_voice(c, raw),
        ConfigField::AudiobookRate => edit_spec_audiobook_rate(c, raw),
        ConfigField::AudiobookVolume => edit_spec_audiobook_volume(c, raw),
        ConfigField::AudiobookPitch => edit_spec_audiobook_pitch(c, raw),
        ConfigField::AudiobookTtsProvider => edit_spec_audiobook_tts_provider(c, raw),
        ConfigField::AudiobookTtsApiUrl => edit_spec_audiobook_tts_api_url(c, raw),
        ConfigField::AudiobookTtsApiToken => edit_spec_audiobook_tts_api_token(c, raw),
        ConfigField::AudiobookTtsModel => edit_spec_audiobook_tts_model(c, raw),
        ConfigField::AutoClearDump => edit_spec_auto_clear_dump(c, raw),
        ConfigField::AutoOpenDownloadedFiles => edit_spec_auto_open_downloaded_files(c, raw),
        ConfigField::AllowOverwriteFiles => edit_spec_allow_overwrite_files(c, raw),
        ConfigField::OldCli => edit_spec_old_cli(c, raw),
        ConfigField::UseOfficialApi => edit_spec_use_official_api(c, raw),
        ConfigField::EnableAudiobook => edit_spec_enable_audiobook(c, raw),
        ConfigField::DownloadCommentImages => edit_spec_download_comment_images(c, raw),
        ConfigField::DownloadCommentAvatars => edit_spec_download_comment_avatars(c, raw),
        ConfigField::ForceConvertImagesToJpeg => edit_spec_force_convert_images_to_jpeg(c, raw),
        ConfigField::JpegRetryConvert => edit_spec_jpeg_retry_convert(c, raw),
        ConfigField::ConvertHeicToJpeg => edit_spec_convert_heic_to_jpeg(c, raw),
        ConfigField::KeepHeicOriginal => edit_spec_keep_heic_original(c, raw),
        ConfigField::ApiEndpoints => edit_spec_api_endpoints(c, raw),
        ConfigField::BlockedMediaDomains => edit_spec_blocked_media_domains(c, raw),
        ConfigField::MaxWorkers => edit_spec_max_workers(c, raw),
        ConfigField::RequestTimeout => edit_spec_request_timeout(c, raw),
        ConfigField::MaxRetries => edit_spec_max_retries(c, raw),
        ConfigField::MinWait => edit_spec_min_wait(c, raw),
        ConfigField::MaxWait => edit_spec_max_wait(c, raw),
        ConfigField::AudiobookConcurrency => edit_spec_audiobook_concurrency(c, raw),
        ConfigField::SegmentCommentsTopN => edit_spec_segment_comments_top_n(c, raw),
        ConfigField::SegmentCommentsWorkers => edit_spec_segment_comments_workers(c, raw),
        ConfigField::MediaDownloadWorkers => edit_spec_media_download_workers(c, raw),
        ConfigField::JpegQuality => edit_spec_jpeg_quality(c, raw),
        ConfigField::MediaLimitPerChapter => edit_spec_media_limit_per_chapter(c, raw),
        ConfigField::MediaMaxDimensionPx => edit_spec_media_max_dimension_px(c, raw),
    }
}

/// What `raw` does to one of the two floating-point settings: nothing
/// here, the caller handles them.
pub open spec fn edit_spec_float(c: ConfigView, raw: Seq<char>) -> PageEditView {
    PageEditView::FloatValue
}

/// What `raw` does to the novel format setting of `c`.
pub open spec fn edit_spec_novel_format(c: ConfigView, raw: Seq<char>) -> PageEditView {
    let name = match format_of_label_ru(raw) {
        Some(e) => Some(e),
        None => {
            let l = lower_seq(raw);
            if l == "txt"@ || l == "epub"@ || l == "pdf"@ || l == "bulk_txt"@ || l == "ask_after_download"@ {
                Some(l)
            } else {
                None
            }
        },
    };
    match name {
        None => PageEditView::Rejected(format_choice_message()),
        Some(n) => match apply_format_spec(c, n) {
            Err(m) => PageEditView::Failed(m),
            Ok(c2) => if c2.novel_format == "txt"@ && c2.enable_segment_comments {
                PageEditView::Changed(ConfigView { enable_segment_comments: false, ..c2 }, Some(txt_comments_note()))
            } else {
                PageEditView::Changed(c2, None)
            },
        },
    }
}

/// What `raw` does to the preferred book name field setting of `c`.
pub open spec fn edit_spec_preferred_book_name_field(c: ConfigView, raw: Seq<char>) -> PageEditView {
    match book_name_of_label_ru(raw) {
        Some(e) => PageEditView::Changed(ConfigView { preferred_book_name_field: e, ..c }, None),
        None => if is_book_name_field(lower_seq(raw)) {
            PageEditView::Changed(ConfigView { preferred_book_name_field: lower_seq(raw), ..c }, None)
        } else {
            PageEditView::Rejected(book_name_choice_message())
        },
    }
}

/// What `raw` does to the audiobook format setting of `c`.
pub open spec fn edit_spec_audiobook_format(c: ConfigView, raw: Seq<char>) -> PageEditView {
    {
        let l = lower_seq(raw);
        if l != "mp3"@ && l != "wav"@ {
            PageEditView::Rejected("Формат только mp3 или wav"@)
        } else {
            PageEditView::Changed(ConfigView { audiobook_format: l, ..c }, None)
        }
    }
}

/// What `raw` does to the enable segment comments setting of `c`.
pub open spec fn edit_spec_enable_segment_comments(c: ConfigView, raw: Seq<char>) -> PageEditView {
    match bool_value(raw) {
        None => PageEditView::Failed("Введите true/false"@),
        Some(v) => if v && lower_seq(c.novel_format) != "epub"@ {
            PageEditView::Rejected(epub_only_message())
        } else {
            PageEditView::Changed(ConfigView { enable_segment_comments: v, ..c }, None)
        },
    }
}

/// What `raw` does to the save path setting of `c`.
pub open spec fn edit_spec_save_path(c: ConfigView, raw: Seq<char>) -> PageEditView {
    PageEditView::Changed(ConfigView { save_path: raw, ..c }, None)
}

/// What `raw` does to the audiobook voice setting of `c`.
pub open spec fn edit_spec_audiobook_voice(c: ConfigView, raw: Seq<char>) -> PageEditView {
    PageEditView::Changed(ConfigView { audiobook_voice: raw, ..c }, None)
}

/// What `raw` does to the audiobook rate setting of `c`.
pub open spec fn edit_spec_audiobook_rate(c: ConfigView, raw: Seq<char>) -> PageEditView {
    PageEditView::Changed(ConfigView { audiobook_rate: raw, ..c }, None)
}

/// What `raw` does to the audiobook volume setting of `c`.
pub open spec fn edit_spec_audiobook_volume(c: ConfigView, raw: Seq<char>) -> PageEditView {
    PageEditView::Changed(ConfigView { audiobook_volume: raw, ..c }, None)
}

/// What `raw` does to the audiobook pitch setting of `c`.
pub open spec fn edit_spec_audiobook_pitch(c: ConfigView, raw: Seq<char>) -> PageEditView {
    PageEditView::Changed(ConfigView { audiobook_pitch: raw, ..c }, None)
}

/// What `raw` does to the audiobook tts provider setting of `c`.
pub open spec fn edit_spec_audiobook_tts_provider(c: ConfigView, raw: Seq<char>) -> PageEditView {
    PageEditView::Changed(ConfigView { audiobook_tts_provider: raw, ..c }, None)
}

/// What `raw` does to the audiobook tts api url setting of `c`.
pub open spec fn edit_spec_audiobook_tts_api_url(c: ConfigView, raw: Seq<char>) -> PageEditView {
    PageEditView::Changed(ConfigView { audiobook_tts_api_url: raw, ..c }, None)
}

/// What `raw` does to the audiobook tts api token setting of `c`.
pub open spec fn edit_spec_audiobook_tts_api_token(c: ConfigView, raw: Seq<char>) -> PageEditView {
    PageEditView::Changed(ConfigView { audiobook_tts_api_token: raw, ..c }, None)
}

/// What `raw` does to the audiobook tts model setting of `c`.
pub open spec fn edit_spec_audiobook_tts_model(c: ConfigView, raw: Seq<char>) -> PageEditView {
    PageEditView::Changed(ConfigView { audiobook_tts_model: raw, ..c }, None)
}

/// What `raw` does to the auto clear dump setting of `c`.
pub open spec fn edit_spec_auto_clear_dump(c: ConfigView, raw: Seq<char>) -> PageEditView {
    match bool_value(raw) {
        None => PageEditView::Failed("Введите true/false"@),
        Some(v) => PageEditView::Changed(ConfigView { auto_clear_dump: v, ..c }, None),
    }
}

/// What `raw` does to the auto open downloaded files setting of `c`.
pub open spec fn edit_spec_auto_open_downloaded_files(c: ConfigView, raw: Seq<char>) -> PageEditView {
    match bool_value(raw) {
        None => PageEditView::Failed("Введите true/false"@),
        Some(v) => PageEditView::Changed(ConfigView { auto_open_downloaded_files: v, ..c }, None),
    }
}

/// What `raw` does to the allow overwrite files setting of `c`.
pub open spec fn edit_spec_allow_overwrite_files(c: ConfigView, raw: Seq<char>) -> PageEditView {
    match bool_value(raw) {
        None => PageEditView::Failed("Введите true/false"@),
        Some(v) => PageEditView::Changed(ConfigView { allow_overwrite_files: v, ..c }, None),
    }
}

/// What `raw` does to the old cli setting of `c`.
pub open spec fn edit_spec_old_cli(c: ConfigView, raw: Seq<char>) -> PageEditView {
    match bool_value(raw) {
        None => PageEditView::Failed("Введите true/false"@),
        Some(v) => PageEditView::Changed(ConfigView { old_cli: v, ..c }, None),
    }
}

/// What `raw` does to the use official api setting of `c`.
pub open spec fn edit_spec_use_official_api(c: ConfigView, raw: Seq<char>) -> PageEditView {
    match bool_value(raw) {
        None => PageEditView::Failed("Введите true/false"@),
        Some(v) => PageEditView::Changed(ConfigView { use_official_api: v, ..c }, None),
    }
}

/// What `raw` does to the enable audiobook setting of `c`.
pub open spec fn edit_spec_enable_audiobook(c: ConfigView, raw: Seq<char>) -> PageEditView {
    match bool_value(raw) {
        None => PageEditView::Failed("Введите true/false"@),
        Some(v) => PageEditView::Changed(ConfigView { enable_audiobook: v, ..c }, None),
    }
}

/// What `raw` does to the download comment images setting of `c`.
pub open spec fn edit_spec_download_comment_images(c: ConfigView, raw: Seq<char>) -> PageEditView {
    match bool_value(raw) {
        None => PageEditView::Failed("Введите true/false"@),
        Some(v) => PageEditView::Changed(ConfigView { download_comment_images: v, ..c }, None),
    }
}

/// What `raw` does to the download comment avatars setting of `c`.
pub open spec fn edit_spec_download_comment_avatars(c: ConfigView, raw: Seq<char>) -> PageEditView {
    match bool_value(raw) {
        None => PageEditView::Failed("Введите true/false"@),
        Some(v) => PageEditView::Changed(ConfigView { download_comment_avatars: v, ..c }, None),
    }
}

/// What `raw` does to the force convert images to jpeg setting of `c`.
pub open spec fn edit_spec_force_convert_images_to_jpeg(c: ConfigView, raw: Seq<char>) -> PageEditView {
    match bool_value(raw) {
        None => PageEditView::Failed("Введите true/false"@),
        Some(v) => PageEditView::Changed(ConfigView { force_convert_images_to_jpeg: v, ..c }, None),
    }
}

/// What `raw` does to the jpeg retry convert setting of `c`.
pub open spec fn edit_spec_jpeg_retry_convert(c: ConfigView, raw: Seq<char>) -> PageEditView {
    match bool_value(raw) {
        None => PageEditView::Failed("Введите true/false"@),
        Some(v) => PageEditView::Changed(ConfigView { jpeg_retry_convert: v, ..c }, None),
    }
}

/// What `raw` does to the convert heic to jpeg setting of `c`.
pub open spec fn edit_spec_convert_heic_to_jpeg(c: ConfigView, raw: Seq<char>) -> PageEditView {
    match bool_value(raw) {
        None => PageEditView::Failed("Введите true/false"@),
        Some(v) => PageEditView::Changed(ConfigView { convert_heic_to_jpeg: v, ..c }, None),
    }
}

/// What `raw` does to the keep heic original setting of `c`.
pub open spec fn edit_spec_keep_heic_original(c: ConfigView, raw: Seq<char>) -> PageEditView {
    match bool_value(raw) {
        None => PageEditView::Failed("Введите true/false"@),
        Some(v) => PageEditView::Changed(ConfigView { keep_heic_original: v, ..c }, None),
    }
}

/// What `raw` does to the api endpoints setting of `c`.
pub open spec fn edit_spec_api_endpoints(c: ConfigView, raw: Seq<char>) -> PageEditView {
    PageEditView::Changed(ConfigView { api_endpoints: clean_list(split_seq(raw, list_separators_ru())), ..c }, None)
}

/// What `raw` does to the blocked media domains setting of `c`.
pub open spec fn edit_spec_blocked_media_domains(c: ConfigView, raw: Seq<char>) -> PageEditView {
    PageEditView::Changed(ConfigView { blocked_media_domains: clean_list(split_seq(raw, list_separators_ru())), ..c }, None)
}

/// What `raw` does to the max workers setting of `c`.
pub open spec fn edit_spec_max_workers(c: ConfigView, raw: Seq<char>) -> PageEditView {
    match bounded_value(raw, usize::MAX as int) {
        None => PageEditView::Failed("Введите целое положительное число"@),
        Some(v) => if v == 0 {
            PageEditView::Rejected("Макс. потоков должно быть больше 0"@)
        } else {
            PageEditView::Changed(ConfigView { max_workers: v as usize, ..c }, None)
        },
    }
}

/// What `raw` does to the request timeout setting of `c`.
pub open spec fn edit_spec_request_timeout(c: ConfigView, raw: Seq<char>) -> PageEditView {
    match bounded_value(raw, u64::MAX as int) {
        None => PageEditView::Failed("Введите число секунд"@),
        Some(v) => if v == 0 {
            PageEditView::Rejected("Таймаут должен быть больше 0"@)
        } else {
            PageEditView::Changed(ConfigView { request_timeout: v as u64, ..c }, None)
        },
    }
}

/// What `raw` does to the max retries setting of `c`.
pub open spec fn edit_spec_max_retries(c: ConfigView, raw: Seq<char>) -> PageEditView {
    match bounded_value(raw, u32::MAX as int) {
        None => PageEditView::Failed("Введите целое число"@),
        Some(v) => PageEditView::Changed(ConfigView { max_retries: v as u32, ..c }, None),
    }
}

/// What `raw` does to the min wait setting of `c`.
pub open spec fn edit_spec_min_wait(c: ConfigView, raw: Seq<char>) -> PageEditView {
    match bounded_value(raw, u64::MAX as int) {
        None => PageEditView::Failed("Введите целое число миллисекунд"@),
        Some(v) => if v > c.max_wait_time {
            PageEditView::Rejected("Мин. ожидание не может превышать макс. ожидание"@)
        } else {
            PageEditView::Changed(ConfigView { min_wait_time: v as u64, ..c }, None)
        },
    }
}

/// What `raw` does to the max wait setting of `c`.
pub open spec fn edit_spec_max_wait(c: ConfigView, raw: Seq<char>) -> PageEditView {
    match bounded_value(raw, u64::MAX as int) {
        None => PageEditView::Failed("Введите целое число миллисекунд"@),
        Some(v) => if v < c.min_wait_time {
            PageEditView::Rejected("Макс. ожидание не может быть меньше мин. ожидания"@)
        } else {
            PageEditView::Changed(ConfigView { max_wait_time: v as u64, ..c }, None)
        },
    }
}

/// What `raw` does to the audiobook concurrency setting of `c`.
pub open spec fn edit_spec_audiobook_concurrency(c: ConfigView, raw: Seq<char>) -> PageEditView {
    match bounded_value(raw, usize::MAX as int) {
        None => PageEditView::Failed("Введите целое положительное число"@),
        Some(v) => if v == 0 {
            PageEditView::Rejected("Число параллельных глав должно быть больше 0"@)
        } else {
            PageEditView::Changed(ConfigView { audiobook_concurrency: v as usize, ..c }, None)
        },
    }
}

/// What `raw` does to the segment comments top n setting of `c`.
pub open spec fn edit_spec_segment_comments_top_n(c: ConfigView, raw: Seq<char>) -> PageEditView {
    match bounded_value(raw, usize::MAX as int) {
        None => PageEditView::Failed("Введите целое число"@),
        Some(v) => if v == 0 {
            PageEditView::Rejected("Лимит комментариев должен быть больше 0"@)
        } else {
            PageEditView::Changed(ConfigView { segment_comments_top_n: v as usize, ..c }, None)
        },
    }
}

/// What `raw` does to the segment comments workers setting of `c`.
pub open spec fn edit_spec_segment_comments_workers(c: ConfigView, raw: Seq<char>) -> PageEditView {
    match bounded_value(raw, usize::MAX as int) {
        None => PageEditView::Failed("Введите целое положительное число"@),
        Some(v) => if v == 0 {
            PageEditView::Rejected("Число потоков комментариев должно быть больше 0"@)
        } else {
            PageEditView::Changed(ConfigView { segment_comments_workers: v as usize, ..c }, None)
        },
    }
}

/// What `raw` does to the media download workers setting of `c`.
pub open spec fn edit_spec_media_download_workers(c: ConfigView, raw: Seq<char>) -> PageEditView {
    match bounded_value(raw, usize::MAX as int) {
        None => PageEditView::Failed("Введите целое положительное число"@),
        Some(v) => if v == 0 {
            PageEditView::Rejected("Число потоков медиа должно быть больше 0"@)
        } else {
            PageEditView::Changed(ConfigView { media_download_workers: v as usize, ..c }, None)
        },
    }
}

/// What `raw` does to the jpeg quality setting of `c`.
pub open spec fn edit_spec_jpeg_quality(c: ConfigView, raw: Seq<char>) -> PageEditView {
    match bounded_value(raw, u8::MAX as int) {
        None => PageEditView::Failed("Введите целое число от 0 до 100"@),
        Some(v) => if v > 100 {
            PageEditView::Rejected("Качество JPEG должно быть от 0 до 100"@)
        } else {
            PageEditView::Changed(ConfigView { jpeg_quality: v as u8, ..c }, None)
        },
    }
}

/// What `raw` does to the media limit per chapter setting of `c`.
pub open spec fn edit_spec_media_limit_per_chapter(c: ConfigView, raw: Seq<char>) -> PageEditView {
    match bounded_value(raw, usize::MAX as int) {
        None => PageEditView::Failed("Введите целое число"@),
        Some(v) => PageEditView::Changed(ConfigView { media_limit_per_chapter: v as usize, ..c }, None),
    }
}

/// What `raw` does to the media max dimension px setting of `c`.
pub open spec fn edit_spec_media_max_dimension_px(c: ConfigView, raw: Seq<char>) -> PageEditView {
    match bounded_value(raw, u32::MAX as int) {
        None => PageEditView::Failed("Введите целое число"@),
        Some(v) => PageEditView::Changed(ConfigView { media_max_dimension_px: v as u32, ..c }, None),
    }
}

/// The status message when the typed format is not one of the five.
pub open spec fn format_choice_message() -> Seq<char> {
    "Выберите: Формат txt, Формат epub, Формат pdf, Отдельные файлы или Спросить после загрузки"@
}

/// The status message when the typed book-name field is not one of the four.
pub open spec fn book_name_choice_message() -> Seq<char> {
    "Выберите: Название по умолчанию, Оригинальное название, Короткое название или Спросить после загрузки"@
}

/// The status message when paragraph comments are turned on outside EPUB.
pub open spec fn epub_only_message() -> Seq<char> {
    "Комментарии к абзацам только для epub — сначала смените формат на epub"@
}

/// The note when choosing txt turns paragraph comments off.
pub open spec fn txt_comments_note() -> Seq<char> {
    "Комментарии к абзацам отключены для совместимости с txt"@
}

fn edit_novel_format(config: &mut Config, raw: &str) -> (r: Result<PageEdit, String>)
    ensures
        page_edit_holds(r, edit_spec_novel_format(old(config)@, raw@), old(config)@, final(config)@),
{
    let field_name = match chinese_to_novel_format(raw) {
        Some(english) => english,
        None => {
            let lower = to_ascii_lowercase(raw);
            let l = lower.as_str();
            if str_eq(l, "txt") || str_eq(l, "epub") || str_eq(l, "pdf") || str_eq(l, "bulk_txt")
                || str_eq(l, "ask_after_download") {
                lower
            } else {
                return Ok(PageEdit::Rejected(
                    "Выберите: Формат txt, Формат epub, Формат pdf, Отдельные файлы или Спросить после загрузки".to_string(),
                ));
            }
        },
    };
    match config.apply_output_format_choice(field_name.as_str()) {
        Err(m) => Err(m),
        Ok(()) => {
            if str_eq(config.novel_format.as_str(), "txt") && config.enable_segment_comments {
                config.enable_segment_comments = false;
                Ok(PageEdit::Changed(Some("Комментарии к абзацам отключены для совместимости с txt".to_string())))
            } else {
                Ok(PageEdit::Changed(None))
            }
        },
    }
}

fn edit_preferred_book_name_field(config: &mut Config, raw: &str) -> (r: Result<PageEdit, String>)
    ensures
        page_edit_holds(r, edit_spec_preferred_book_name_field(old(config)@, raw@), old(config)@, final(config)@),
{
    let field_name = match chinese_to_book_name_field(raw) {
        Some(english) => english,
        None => {
            let lower = to_ascii_lowercase(raw);
            if crate::config::book_name_field_known(lower.as_str()) {
                lower
            } else {
                return Ok(PageEdit::Rejected(
                    "Выберите: Название по умолчанию, Оригинальное название, Короткое название или Спросить после загрузки".to_string(),
                ));
            }
        },
    };
    config.preferred_book_name_field = field_name;
    Ok(PageEdit::Changed(None))
}

fn edit_audiobook_format(config: &mut Config, raw: &str) -> (r: Result<PageEdit, String>)
    ensures
        page_edit_holds(r, edit_spec_audiobook_format(old(config)@, raw@), old(config)@, final(config)@),
{
    let lower = to_ascii_lowercase(raw);
    if !str_eq(lower.as_str(), "mp3") && !str_eq(lower.as_str(), "wav") {
        return Ok(PageEdit::Rejected("Формат только mp3 или wav".to_string()));
    }
    config.audiobook_format = lower;
    Ok(PageEdit::Changed(None))
}

fn edit_enable_segment_comments(config: &mut Config, raw: &str) -> (r: Result<PageEdit, String>)
    ensures
        page_edit_holds(r, edit_spec_enable_segment_comments(old(config)@, raw@), old(config)@, final(config)@),
{
    let val = match parse_bool(raw) {
        Some(v) => v,
        None => return Err("Введите true/false".to_string()),
    };
    proof {
        reveal_strlit("epub");
        assert(lower_seq("epub"@) =~= "epub"@);
    }
    if val && !eq_ignore_ascii_case(config.novel_format.as_str(), "epub") {
        return Ok(PageEdit::Rejected(
            "Комментарии к абзацам только для epub — сначала смените формат на epub".to_string(),
        ));
    }
    config.enable_segment_comments = val;
    Ok(PageEdit::Changed(None))
}

fn edit_save_path(config: &mut Config, raw: &str) -> (r: Result<PageEdit, String>)
    ensures
        page_edit_holds(r, edit_spec_save_path(old(config)@, raw@), old(config)@, final(config)@),
{
    config.save_path = raw.to_string();
    Ok(PageEdit::Changed(None))
}

fn edit_audiobook_voice(config: &mut Config, raw: &str) -> (r: Result<PageEdit, String>)
    ensures
        page_edit_holds(r, edit_spec_audiobook_voice(old(config)@, raw@), old(config)@, final(config)@),
{
    config.audiobook_voice = raw.to_string();
    Ok(PageEdit::Changed(None))
}

fn edit_audiobook_rate(config: &mut Config, raw: &str) -> (r: Result<PageEdit, String>)
    ensures
        page_edit_holds(r, edit_spec_audiobook_rate(old(config)@, raw@), old(config)@, final(config)@),
{
    config.audiobook_rate = raw.to_string();
    Ok(PageEdit::Changed(None))
}

fn edit_audiobook_volume(config: &mut Config, raw: &str) -> (r: Result<PageEdit, String>)
    ensures
        page_edit_holds(r, edit_spec_audiobook_volume(old(config)@, raw@), old(config)@, final(config)@),
{
    config.audiobook_volume = raw.to_string();
    Ok(PageEdit::Changed(None))
}

fn edit_audiobook_pitch(config: &mut Config, raw: &str) -> (r: Result<PageEdit, String>)
    ensures
        page_edit_holds(r, edit_spec_audiobook_pitch(old(config)@, raw@), old(config)@, final(config)@),
{
    config.audiobook_pitch = raw.to_string();
    Ok(PageEdit::Changed(None))
}

fn edit_audiobook_tts_provider(config: &mut Config, raw: &str) -> (r: Result<PageEdit, String>)
    ensures
        page_edit_holds(r, edit_spec_audiobook_tts_provider(old(config)@, raw@), old(config)@, final(config)@),
{
    config.audiobook_tts_provider = raw.to_string();
    Ok(PageEdit::Changed(None))
}

fn edit_audiobook_tts_api_url(config: &mut Config, raw: &str) -> (r: Result<PageEdit, String>)
    ensures
        page_edit_holds(r, edit_spec_audiobook_tts_api_url(old(config)@, raw@), old(config)@, final(config)@),
{
    config.audiobook_tts_api_url = raw.to_string();
    Ok(PageEdit::Changed(None))
}

fn edit_audiobook_tts_api_token(config: &mut Config, raw: &str) -> (r: Result<PageEdit, String>)
    ensures
        page_edit_holds(r, edit_spec_audiobook_tts_api_token(old(config)@, raw@), old(config)@, final(config)@),
{
    config.audiobook_tts_api_token = raw.to_string();
    Ok(PageEdit::Changed(None))
}

fn edit_audiobook_tts_model(config: &mut Config, raw: &str) -> (r: Result<PageEdit, String>)
    ensures
        page_edit_holds(r, edit_spec_audiobook_tts_model(old(config)@, raw@), old(config)@, final(config)@),
{
    config.audiobook_tts_model = raw.to_string();
    Ok(PageEdit::Changed(None))
}

fn edit_auto_clear_dump(config: &mut Config, raw: &str) -> (r: Result<PageEdit, String>)
    ensures
        page_edit_holds(r, edit_spec_auto_clear_dump(old(config)@, raw@), old(config)@, final(config)@),
{
    match parse_bool(raw) {
        Some(v) => {
            config.auto_clear_dump = v;
            Ok(PageEdit::Changed(None))
        },
        None => Err("Введите true/false".to_string()),
    }
}

fn edit_auto_open_downloaded_files(config: &mut Config, raw: &str) -> (r: Result<PageEdit, String>)
    ensures
        page_edit_holds(r, edit_spec_auto_open_downloaded_files(old(config)@, raw@), old(config)@, final(config)@),
{
    match parse_bool(raw) {
        Some(v) => {
            config.auto_open_downloaded_files = v;
            Ok(PageEdit::Changed(None))
        },
        None => Err("Введите true/false".to_string()),
    }
}

fn edit_allow_overwrite_files(config: &mut Config, raw: &str) -> (r: Result<PageEdit, String>)
    ensures
        page_edit_holds(r, edit_spec_allow_overwrite_files(old(config)@, raw@), old(config)@, final(config)@),
{
    match parse_bool(raw) {
        Some(v) => {
            config.allow_overwrite_files = v;
            Ok(PageEdit::Changed(None))
        },
        None => Err("Введите true/false".to_string()),
    }
}

fn edit_old_cli(config: &mut Config, raw: &str) -> (r: Result<PageEdit, String>)
    ensures
        page_edit_holds(r, edit_spec_old_cli(old(config)@, raw@), old(config)@, final(config)@),
{
    match parse_bool(raw) {
        Some(v) => {
            config.old_cli = v;
            Ok(PageEdit::Changed(None))
        },
        None => Err("Введите true/false".to_string()),
    }
}

fn edit_use_official_api(config: &mut Config, raw: &str) -> (r: Result<PageEdit, String>)
    ensures
        page_edit_holds(r, edit_spec_use_official_api(old(config)@, raw@), old(config)@, final(config)@),
{
    match parse_bool(raw) {
        Some(v) => {
            config.use_official_api = v;
            Ok(PageEdit::Changed(None))
        },
        None => Err("Введите true/false".to_string()),
    }
}

fn edit_enable_audiobook(config: &mut Config, raw: &str) -> (r: Result<PageEdit, String>)
    ensures
        page_edit_holds(r, edit_spec_enable_audiobook(old(config)@, raw@), old(config)@, final(config)@),
{
    match parse_bool(raw) {
        Some(v) => {
            config.enable_audiobook = v;
            Ok(PageEdit::Changed(None))
        },
        None => Err("Введите true/false".to_string()),
    }
}

fn edit_download_comment_images(config: &mut Config, raw: &str) -> (r: Result<PageEdit, String>)
    ensures
        page_edit_holds(r, edit_spec_download_comment_images(old(config)@, raw@), old(config)@, final(config)@),
{
    match parse_bool(raw) {
        Some(v) => {
            config.download_comment_images = v;
            Ok(PageEdit::Changed(None))
        },
        None => Err("Введите true/false".to_string()),
    }
}

fn edit_download_comment_avatars(config: &mut Config, raw: &str) -> (r: Result<PageEdit, String>)
    ensures
        page_edit_holds(r, edit_spec_download_comment_avatars(old(config)@, raw@), old(config)@, final(config)@),
{
    match parse_bool(raw) {
        Some(v) => {
            config.download_comment_avatars = v;
            Ok(PageEdit::Changed(None))
        },
        None => Err("Введите true/false".to_string()),
    }
}

fn edit_force_convert_images_to_jpeg(config: &mut Config, raw: &str) -> (r: Result<PageEdit, String>)
    ensures
        page_edit_holds(r, edit_spec_force_convert_images_to_jpeg(old(config)@, raw@), old(config)@, final(config)@),
{
    match parse_bool(raw) {
        Some(v) => {
            config.force_convert_images_to_jpeg = v;
            Ok(PageEdit::Changed(None))
        },
        None => Err("Введите true/false".to_string()),
    }
}

fn edit_jpeg_retry_convert(config: &mut Config, raw: &str) -> (r: Result<PageEdit, String>)
    ensures
        page_edit_holds(r, edit_spec_jpeg_retry_convert(old(config)@, raw@), old(config)@, final(config)@),
{
    match parse_bool(raw) {
        Some(v) => {
            config.jpeg_retry_convert = v;
            Ok(PageEdit::Changed(None))
        },
        None => Err("Введите true/false".to_string()),
    }
}

fn edit_convert_heic_to_jpeg(config: &mut Config, raw: &str) -> (r: Result<PageEdit, String>)
    ensures
        page_edit_holds(r, edit_spec_convert_heic_to_jpeg(old(config)@, raw@), old(config)@, final(config)@),
{
    match parse_bool(raw) {
        Some(v) => {
            config.convert_heic_to_jpeg = v;
            Ok(PageEdit::Changed(None))
        },
        None => Err("Введите true/false".to_string()),
    }
}

fn edit_keep_heic_original(config: &mut Config, raw: &str) -> (r: Result<PageEdit, String>)
    ensures
        page_edit_holds(r, edit_spec_keep_heic_original(old(config)@, raw@), old(config)@, final(config)@),
{
    match parse_bool(raw) {
        Some(v) => {
            config.keep_heic_original = v;
            Ok(PageEdit::Changed(None))
        },
        None => Err("Введите true/false".to_string()),
    }
}

fn edit_api_endpoints(config: &mut Config, raw: &str) -> (r: Result<PageEdit, String>)
    ensures
        page_edit_holds(r, edit_spec_api_endpoints(old(config)@, raw@), old(config)@, final(config)@),
{
    config.api_endpoints = parse_string_list(raw);
    Ok(PageEdit::Changed(None))
}

fn edit_blocked_media_domains(config: &mut Config, raw: &str) -> (r: Result<PageEdit, String>)
    ensures
        page_edit_holds(r, edit_spec_blocked_media_domains(old(config)@, raw@), old(config)@, final(config)@),
{
    config.blocked_media_domains = parse_string_list(raw);
    Ok(PageEdit::Changed(None))
}

fn edit_max_workers(config: &mut Config, raw: &str) -> (r: Result<PageEdit, String>)
    ensures
        page_edit_holds(r, edit_spec_max_workers(old(config)@, raw@), old(config)@, final(config)@),
{
    let v = match parse_unsigned(raw, usize::MAX as u64) {
        Some(v) => v,
        None => return Err("Введите целое положительное число".to_string()),
    };
    if v == 0 {
        return Ok(PageEdit::Rejected("Макс. потоков должно быть больше 0".to_string()));
    }
    config.max_workers = v as usize;
    Ok(PageEdit::Changed(None))
}

fn edit_request_timeout(config: &mut Config, raw: &str) -> (r: Result<PageEdit, String>)
    ensures
        page_edit_holds(r, edit_spec_request_timeout(old(config)@, raw@), old(config)@, final(config)@),
{
    let v = match parse_unsigned(raw, u64::MAX) {
        Some(v) => v,
        None => return Err("Введите число секунд".to_string()),
    };
    if v == 0 {
        return Ok(PageEdit::Rejected("Таймаут должен быть больше 0".to_string()));
    }
    config.request_timeout = v as u64;
    Ok(PageEdit::Changed(None))
}

fn edit_max_retries(config: &mut Config, raw: &str) -> (r: Result<PageEdit, String>)
    ensures
        page_edit_holds(r, edit_spec_max_retries(old(config)@, raw@), old(config)@, final(config)@),
{
    let v = match parse_unsigned(raw, u32::MAX as u64) {
        Some(v) => v,
        None => return Err("Введите целое число".to_string()),
    };
    config.max_retries = v as u32;
    Ok(PageEdit::Changed(None))
}

fn edit_min_wait(config: &mut Config, raw: &str) -> (r: Result<PageEdit, String>)
    ensures
        page_edit_holds(r, edit_spec_min_wait(old(config)@, raw@), old(config)@, final(config)@),
{
    let v = match parse_unsigned(raw, u64::MAX) {
        Some(v) => v,
        None => return Err("Введите целое число миллисекунд".to_string()),
    };
    if v > config.max_wait_time as u64 {
        return Ok(PageEdit::Rejected("Мин. ожидание не может превышать макс. ожидание".to_string()));
    }
    config.min_wait_time = v as u64;
    Ok(PageEdit::Changed(None))
}

fn edit_max_wait(config: &mut Config, raw: &str) -> (r: Result<PageEdit, String>)
    ensures
        page_edit_holds(r, edit_spec_max_wait(old(config)@, raw@), old(config)@, final(config)@),
{
    let v = match parse_unsigned(raw, u64::MAX) {
        Some(v) => v,
        None => return Err("Введите целое число миллисекунд".to_string()),
    };
    if v < config.min_wait_time as u64 {
        return Ok(PageEdit::Rejected("Макс. ожидание не может быть меньше мин. ожидания".to_string()));
    }
    config.max_wait_time = v as u64;
    Ok(PageEdit::Changed(None))
}

fn edit_audiobook_concurrency(config: &mut Config, raw: &str) -> (r: Result<PageEdit, String>)
    ensures
        page_edit_holds(r, edit_spec_audiobook_concurrency(old(config)@, raw@), old(config)@, final(config)@),
{
    let v = match parse_unsigned(raw, usize::MAX as u64) {
        Some(v) => v,
        None => return Err("Введите целое положительное число".to_string()),
    };
    if v == 0 {
        return Ok(PageEdit::Rejected("Число параллельных глав должно быть больше 0".to_string()));
    }
    config.audiobook_concurrency = v as usize;
    Ok(PageEdit::Changed(None))
}

fn edit_segment_comments_top_n(config: &mut Config, raw: &str) -> (r: Result<PageEdit, String>)
    ensures
        page_edit_holds(r, edit_spec_segment_comments_top_n(old(config)@, raw@), old(config)@, final(config)@),
{
    let v = match parse_unsigned(raw, usize::MAX as u64) {
        Some(v) => v,
        None => return Err("Введите целое число".to_string()),
    };
    if v == 0 {
        return Ok(PageEdit::Rejected("Лимит комментариев должен быть больше 0".to_string()));
    }
    config.segment_comments_top_n = v as usize;
    Ok(PageEdit::Changed(None))
}

fn edit_segment_comments_workers(config: &mut Config, raw: &str) -> (r: Result<PageEdit, String>)
    ensures
        page_edit_holds(r, edit_spec_segment_comments_workers(old(config)@, raw@), old(config)@, final(config)@),
{
    let v = match parse_unsigned(raw, usize::MAX as u64) {
        Some(v) => v,
        None => return Err("Введите целое положительное число".to_string()),
    };
    if v == 0 {
        return Ok(PageEdit::Rejected("Число потоков комментариев должно быть больше 0".to_string()));
    }
    config.segment_comments_workers = v as usize;
    Ok(PageEdit::Changed(None))
}

fn edit_media_download_workers(config: &mut Config, raw: &str) -> (r: Result<PageEdit, String>)
    ensures
        page_edit_holds(r, edit_spec_media_download_workers(old(config)@, raw@), old(config)@, final(config)@),
{
    let v = match parse_unsigned(raw, usize::MAX as u64) {
        Some(v) => v,
        None => return Err("Введите целое положительное число".to_string()),
    };
    if v == 0 {
        return Ok(PageEdit::Rejected("Число потоков медиа должно быть больше 0".to_string()));
    }
    config.media_download_workers = v as usize;
    Ok(PageEdit::Changed(None))
}

fn edit_jpeg_quality(config: &mut Config, raw: &str) -> (r: Result<PageEdit, String>)
    ensures
        page_edit_holds(r, edit_spec_jpeg_quality(old(config)@, raw@), old(config)@, final(config)@),
{
    let v = match parse_unsigned(raw, u8::MAX as u64) {
        Some(v) => v,
        None => return Err("Введите целое число от 0 до 100".to_string()),
    };
    if v > 100 {
        return Ok(PageEdit::Rejected("Качество JPEG должно быть от 0 до 100".to_string()));
    }
    config.jpeg_quality = v as u8;
    Ok(PageEdit::Changed(None))
}

fn edit_media_limit_per_chapter(config: &mut Config, raw: &str) -> (r: Result<PageEdit, String>)
    ensures
        page_edit_holds(r, edit_spec_media_limit_per_chapter(old(config)@, raw@), old(config)@, final(config)@),
{
    let v = match parse_unsigned(raw, usize::MAX as u64) {
        Some(v) => v,
        None => return Err("Введите целое число".to_string()),
    };
    config.media_limit_per_chapter = v as usize;
    Ok(PageEdit::Changed(None))
}

fn edit_media_max_dimension_px(config: &mut Config, raw: &str) -> (r: Result<PageEdit, String>)
    ensures
        page_edit_holds(r, edit_spec_media_max_dimension_px(old(config)@, raw@), old(config)@, final(config)@),
{
    let v = match parse_unsigned(raw, u32::MAX as u64) {
        Some(v) => v,
        None => return Err("Введите целое число".to_string()),
    };
    config.media_max_dimension_px = v as u32;
    Ok(PageEdit::Changed(None))
}

/// Applies the trimmed edit box text `raw` to the setting `field`.
pub fn edit_page_field(config: &mut Config, field: ConfigField, raw: &str) -> (r: Result<PageEdit, String>)
    ensures
        page_edit_holds(r, page_edit(old(config)@, field, raw@), old(config)@, final(config)@),
{
    match field {
        ConfigField::FirstLineIndentEm | ConfigField::MinConnectTimeout => Ok(PageEdit::FloatValue),
        ConfigField::NovelFormat => edit_novel_format(config, raw),
        ConfigField::PreferredBookNameField => edit_preferred_book_name_field(config, raw),
        ConfigField::AudiobookFormat => edit_audiobook_format(config, raw),
        ConfigField::EnableSegmentComments => edit_enable_segment_comments(config, raw),
        ConfigField::SavePath => edit_save_path(config, raw),
        ConfigField::AudiobookVoice => edit_audiobook_voice(config, raw),
        ConfigField::AudiobookRate => edit_audiobook_rate(config, raw),
        ConfigField::AudiobookVolume => edit_audiobook_volume(config, raw),
        ConfigField::AudiobookPitch => edit_audiobook_pitch(config, raw),
        ConfigField::AudiobookTtsProvider => edit_audiobook_tts_provider(config, raw),
        ConfigField::AudiobookTtsApiUrl => edit_audiobook_tts_api_url(config, raw),
        ConfigField::AudiobookTtsApiToken => edit_audiobook_tts_api_token(config, raw),
        ConfigField::AudiobookTtsModel => edit_audiobook_tts_model(config, raw),
        ConfigField::AutoClearDump => edit_auto_clear_dump(config, raw),
        ConfigField::AutoOpenDownloadedFiles => edit_auto_open_downloaded_files(config, raw),
        ConfigField::AllowOverwriteFiles => edit_allow_overwrite_files(config, raw),
        ConfigField::OldCli => edit_old_cli(config, raw),
        ConfigField::UseOfficialApi => edit_use_official_api(config, raw),
        ConfigField::EnableAudiobook => edit_enable_audiobook(config, raw),
        ConfigField::DownloadCommentImages => edit_download_comment_images(config, raw),
        ConfigField::DownloadCommentAvatars => edit_download_comment_avatars(config, raw),
        ConfigField::ForceConvertImagesToJpeg => edit_force_convert_images_to_jpeg(config, raw),
        ConfigField::JpegRetryConvert => edit_jpeg_retry_convert(config, raw),
        ConfigField::ConvertHeicToJpeg => edit_convert_heic_to_jpeg(config, raw),
        ConfigField::KeepHeicOriginal => edit_keep_heic_original(config, raw),
        ConfigField::ApiEndpoints => edit_api_endpoints(config, raw),
        ConfigField::BlockedMediaDomains => edit_blocked_media_domains(config, raw),
        ConfigField::MaxWorkers => edit_max_workers(config, raw),
        ConfigField::RequestTimeout => edit_request_timeout(config, raw),
        ConfigField::MaxRetries => edit_max_retries(config, raw),
        ConfigField::MinWait => edit_min_wait(config, raw),
        ConfigField::MaxWait => edit_max_wait(config, raw),
        ConfigField::AudiobookConcurrency => edit_audiobook_concurrency(config, raw),
        ConfigField::SegmentCommentsTopN => edit_segment_comments_top_n(config, raw),
        ConfigField::SegmentCommentsWorkers => edit_segment_comments_workers(config, raw),
        ConfigField::MediaDownloadWorkers => edit_media_download_workers(config, raw),
        ConfigField::JpegQuality => edit_jpeg_quality(config, raw),
        ConfigField::MediaLimitPerChapter => edit_media_limit_per_chapter(config, raw),
        ConfigField::MediaMaxDimensionPx => edit_media_max_dimension_px(config, raw),
    }
}

/// What applying the edit box to a line did.
#[derive(Debug)]
pub enum CfgEdit {
    /// The line does not exist; nothing changed.
    Ignored,
    /// Nothing changed; the status line says why.
    Rejected,
    /// The setting changed: the line's title and a note, if any. The caller
    /// saves the settings and then shows [`saved_status`].
    Changed(String, Option<String>),
    /// The line holds a floating-point setting, which the caller parses and
    /// stores.
    FloatValue(ConfigField),
}

/// Applies the edit box of the settings page to line `entry_idx` of
/// category `cat_idx`: the trimmed text goes to the line's setting; a
/// rejected value only sets the status line; text that does not read as the
/// setting's kind fails with a message.
pub fn apply_cfg_edit(app: &mut ConfigApp, cat_idx: usize, entry_idx: usize) -> (r: Result<CfgEdit, String>)
    ensures
        ({
            let a = old(app);
            let cats = categories_view(a.cfg_categories@);
            &&& final(app).cfg_categories == a.cfg_categories
            &&& final(app).cfg_cat_selected == a.cfg_cat_selected
            &&& final(app).cfg_entry_selected == a.cfg_entry_selected
            &&& final(app).cfg_editing == a.cfg_editing
            &&& final(app).cfg_edit_buffer == a.cfg_edit_buffer
            &&& final(app).cfg_bool_selected == a.cfg_bool_selected
            &&& final(app).cfg_combo_focus == a.cfg_combo_focus
            &&& final(app).cfg_combo_selected == a.cfg_combo_selected
            &&& if cat_idx < cats.len() && entry_idx < cats[cat_idx as int].1.len() {
                let (title, f) = cats[cat_idx as int].1[entry_idx as int];
                match page_edit(a.config@, f, trim_seq(a.cfg_edit_buffer@)) {
                    PageEditView::Changed(c, note) => r matches Ok(CfgEdit::Changed(t, n)) && t@ == title
                        && opt_view(n) == note && final(app).config@ == c && final(app).status == a.status,
                    PageEditView::Rejected(m) => r matches Ok(CfgEdit::Rejected) && final(app).status@ == m
                        && final(app).config@ == a.config@,
                    PageEditView::Failed(m) => r matches Err(e) && e@ == m && final(app).config@ == a.config@
                        && final(app).status == a.status,
                    PageEditView::FloatValue => r matches Ok(CfgEdit::FloatValue(g)) && g == f
                        && final(app).config@ == a.config@ && final(app).status == a.status,
                }
            } else {
                r matches Ok(CfgEdit::Ignored) && final(app).config == a.config && final(app).status == a.status
            }
        }),
{
    if cat_idx >= app.cfg_categories.len() {
        return Ok(CfgEdit::Ignored);
    }
    if entry_idx >= app.cfg_categories[cat_idx].entries.len() {
        return Ok(CfgEdit::Ignored);
    }
    let field = app.cfg_categories[cat_idx].entries[entry_idx].field;
    let entry_title = app.cfg_categories[cat_idx].entries[entry_idx].title;
    proof {
        let cats = categories_view(app.cfg_categories@);
        assert(cats[cat_idx as int].1[entry_idx as int] == (entry_title@, field));
    }
    let raw = trim(app.cfg_edit_buffer.as_str());
    match edit_page_field(&mut app.config, field, raw.as_str()) {
        Err(e) => Err(e),
        Ok(PageEdit::Rejected(msg)) => {
            app.status = msg;
            Ok(CfgEdit::Rejected)
        },
        Ok(PageEdit::Changed(note)) => Ok(CfgEdit::Changed(entry_title.to_string(), note)),
        Ok(PageEdit::FloatValue) => Ok(CfgEdit::FloatValue(field)),
    }
}

/// The status line after a setting was saved.
pub open spec fn saved_text(title: Seq<char>, note: Option<Seq<char>>) -> Seq<char> {
    match note {
        Some(extra) => "Сохранено: "@ + title + " ("@ + extra + ")"@,
        None => "Сохранено: "@ + title,
    }
}

/// The status line after the setting of line `title` was saved.
pub fn saved_status(title: &str, note: Option<&str>) -> (r: String)
    ensures
        r@ == saved_text(title@, match note {
            Some(n) => Some(n@),
            None => None,
        }),
{
    let mut s = "Сохранено: ".to_string();
    string_push_str(&mut s, title);
    match note {
        Some(extra) => {
            string_push_str(&mut s, " (");
            string_push_str(&mut s, extra);
            string_push_str(&mut s, ")");
        },
        None => {},
    }
    s
}


proof fn lemma_book_name_literals_ru()
    ensures
        "book_name"@ != "original_book_name"@,
        "book_name"@ != "book_short_name"@,
        "book_name"@ != "ask_after_download"@,
        "original_book_name"@ != "book_short_name"@,
        "original_book_name"@ != "ask_after_download"@,
        "book_short_name"@ != "ask_after_download"@,
        "Название по умолчанию"@ != "Оригинальное название"@,
        "Название по умолчанию"@ != "Короткое название"@,
        "Название по умолчанию"@ != "Спросить после загрузки"@,
        "Оригинальное название"@ != "Короткое название"@,
        "Оригинальное название"@ != "Спросить после загрузки"@,
        "Короткое название"@ != "Спросить после загрузки"@,
{
    reveal_strlit("book_name");
    reveal_strlit("original_book_name");
    reveal_strlit("book_short_name");
    reveal_strlit("ask_after_download");
    reveal_strlit("Название по умолчанию");
    reveal_strlit("Оригинальное название");
    reveal_strlit("Короткое название");
    reveal_strlit("Спросить после загрузки");
    assert("book_name"@.len() != "original_book_name"@.len());
    assert("book_name"@.len() != "book_short_name"@.len());
    assert("book_name"@.len() != "ask_after_download"@.len());
    assert("original_book_name"@.len() != "book_short_name"@.len());
    assert("original_book_name"@[0] != "ask_after_download"@[0]);
    assert("book_short_name"@.len() != "ask_after_download"@.len());
    assert("Название по умолчанию"@[0] != "Оригинальное название"@[0]);
    assert("Название по умолчанию"@[0] != "Короткое название"@[0]);
    assert("Название по умолчанию"@[0] != "Спросить после загрузки"@[0]);
    assert("Оригинальное название"@[0] != "Короткое название"@[0]);
    assert("Оригинальное название"@[0] != "Спросить после загрузки"@[0]);
    assert("Короткое название"@[0] != "Спросить после загрузки"@[0]);
}

/// The known book-name fields and their settings-page labels undo each
/// other.
pub proof fn law_book_name_roundtrip_ru(f: Seq<char>, d: Seq<char>)
    ensures
        is_book_name_field(f) ==> book_name_of_label_ru(book_name_label_ru(f)) == Some(f),
        book_name_of_label_ru(d) matches Some(g) ==> book_name_label_ru(g) == d && is_book_name_field(g),
{
    lemma_book_name_literals_ru();
}

/// Whether `f` holds a whole number.
pub open spec fn is_int_field(f: ConfigField) -> bool {
    match f {
        ConfigField::MaxWorkers => true,
        ConfigField::RequestTimeout => true,
        ConfigField::MaxRetries => true,
        ConfigField::MinWait => true,
        ConfigField::MaxWait => true,
        ConfigField::AudiobookConcurrency => true,
        ConfigField::SegmentCommentsTopN => true,
        ConfigField::SegmentCommentsWorkers => true,
        ConfigField::MediaDownloadWorkers => true,
        ConfigField::JpegQuality => true,
        ConfigField::MediaLimitPerChapter => true,
        ConfigField::MediaMaxDimensionPx => true,
        _ => false,
    }
}

/// A whole number that the settings page accepts is shown back as its
/// decimal notation.
pub proof fn law_page_int_edit_shows_value(c: ConfigView, f: ConfigField, raw: Seq<char>)
    requires
        is_int_field(f),
        page_edit(c, f, raw) is Changed,
    ensures
        unsigned_value(raw) is Some,
        page_value_text(page_edit(c, f, raw)->Changed_0, f) == Some(decimal_repr(unsigned_value(raw).unwrap() as nat)),
{
    crate::text::lemma_unsigned_value_nonneg(raw);
}

/// Every edit of the settings page keeps the minimum wait at most the
/// maximum wait.
pub proof fn law_page_edits_keep_wait_order(c: ConfigView, f: ConfigField, raw: Seq<char>)
    requires
        crate::noui_config::waits_ordered(c),
        page_edit(c, f, raw) is Changed,
    ensures
        crate::noui_config::waits_ordered(page_edit(c, f, raw)->Changed_0),
{
    crate::text::lemma_unsigned_value_nonneg(raw);
    if f == ConfigField::NovelFormat {
        let name = match format_of_label_ru(raw) {
            Some(e) => e,
            None => lower_seq(raw),
        };
        crate::config::lemma_format_choice_case(c, name);
    }
}

/// No edit of the settings page leaves paragraph comments on with the txt
/// format, whatever the waits.
pub proof fn law_page_edits_keep_txt_without_comments(c: ConfigView, f: ConfigField, raw: Seq<char>)
    requires
        txt_without_comments(c),
        page_edit(c, f, raw) is Changed,
    ensures
        txt_without_comments(page_edit(c, f, raw)->Changed_0),
{
    crate::config::lemma_format_literals();
    crate::text::lemma_unsigned_value_nonneg(raw);
    if f == ConfigField::NovelFormat {
        let name = match format_of_label_ru(raw) {
            Some(e) => e,
            None => lower_seq(raw),
        };
        crate::config::lemma_format_choice_case(c, name);
    }
    if f == ConfigField::EnableSegmentComments {
        reveal_strlit("epub");
        reveal_strlit("txt");
        assert("epub"@.len() != "txt"@.len());
    }
}


proof fn lemma_trim_word(w: Seq<char>)
    requires
        w.len() > 0,
        !crate::text::is_ws(w[0]),
        !crate::text::is_ws(w.last()),
    ensures
        trim_seq(w) == w,
{
}

/// The label shown on the settings page for a known output format reads
/// back as that format.
pub proof fn law_format_label_ru_roundtrip(v: Seq<char>)
    requires
        crate::config::is_format_value(v),
    ensures
        format_of_label_ru(format_label_ru(v)) == Some(v),
{
    crate::config::lemma_format_literals();
    reveal_strlit("txt");
    reveal_strlit("epub");
    reveal_strlit("pdf");
    reveal_strlit("bulk_txt");
    reveal_strlit("ask_after_download");
    reveal_strlit("Формат txt");
    reveal_strlit("Формат epub");
    reveal_strlit("Формат pdf");
    reveal_strlit("Отдельные файлы");
    reveal_strlit("Спросить после загрузки");
    let vals = crate::config::format_values();
    let i = choose|i: int| 0 <= i < vals.len() && vals[i] == v;
    lemma_trim_word(v);
    assert("epub"@.len() != "pdf"@.len());
    assert("epub"@.len() != "bulk_txt"@.len());
    assert("epub"@.len() != "ask_after_download"@.len());
    assert("pdf"@.len() != "bulk_txt"@.len());
    assert("pdf"@.len() != "ask_after_download"@.len());
    assert("bulk_txt"@.len() != "ask_after_download"@.len());
    assert("Формат txt"@.len() != "Формат epub"@.len());
    assert("Формат txt"@[7] != "Формат pdf"@[7]);
    assert("Формат txt"@[0] != "Отдельные файлы"@[0]);
    assert("Формат txt"@[0] != "Спросить после загрузки"@[0]);
    assert("Формат epub"@.len() != "Формат pdf"@.len());
    assert("Формат epub"@[0] != "Отдельные файлы"@[0]);
    assert("Формат epub"@[0] != "Спросить после загрузки"@[0]);
    assert("Формат pdf"@[0] != "Отдельные файлы"@[0]);
    assert("Формат pdf"@[0] != "Спросить после загрузки"@[0]);
    assert("Отдельные файлы"@[0] != "Спросить после загрузки"@[0]);
}


/// Whether `f` stores the typed text as it is.
pub open spec fn is_free_text_field(f: ConfigField) -> bool {
    match f {
        ConfigField::SavePath => true,
        ConfigField::AudiobookVoice => true,
        ConfigField::AudiobookRate => true,
        ConfigField::AudiobookVolume => true,
        ConfigField::AudiobookPitch => true,
        ConfigField::AudiobookTtsProvider => true,
        ConfigField::AudiobookTtsApiUrl => true,
        ConfigField::AudiobookTtsApiToken => true,
        ConfigField::AudiobookTtsModel => true,
        _ => false,
    }
}

/// What the settings page stores from typed text or an on/off word is what
/// it shows afterwards: the text itself, or `true`/`false`.
pub proof fn law_page_edit_shows_text(c: ConfigView, f: ConfigField, raw: Seq<char>)
    requires
        page_edit(c, f, raw) is Changed,
    ensures
        is_free_text_field(f) ==> page_value_text(page_edit(c, f, raw)->Changed_0, f) == Some(raw),
        is_bool_field(f) ==> page_value_text(page_edit(c, f, raw)->Changed_0, f) == Some(
            bool_text(bool_value(raw).unwrap()),
        ),
{
}

/// The whole number that the whole-number setting `f` holds in `c`.
pub open spec fn page_int_setting(c: ConfigView, f: ConfigField) -> int {
    match f {
        ConfigField::MaxWorkers => c.max_workers as int,
        ConfigField::RequestTimeout => c.request_timeout as int,
        ConfigField::MaxRetries => c.max_retries as int,
        ConfigField::MinWait => c.min_wait_time as int,
        ConfigField::MaxWait => c.max_wait_time as int,
        ConfigField::AudiobookConcurrency => c.audiobook_concurrency as int,
        ConfigField::SegmentCommentsTopN => c.segment_comments_top_n as int,
        ConfigField::SegmentCommentsWorkers => c.segment_comments_workers as int,
        ConfigField::MediaDownloadWorkers => c.media_download_workers as int,
        ConfigField::JpegQuality => c.jpeg_quality as int,
        ConfigField::MediaLimitPerChapter => c.media_limit_per_chapter as int,
        ConfigField::MediaMaxDimensionPx => c.media_max_dimension_px as int,
        _ => 0,
    }
}

/// Whether paragraph comments are on while the format is not EPUB, so
/// that the page refuses to save them on.
pub open spec fn comments_outside_epub(c: ConfigView) -> bool {
    c.enable_segment_comments && lower_seq(c.novel_format) != "epub"@
}

/// Whether the page may refuse the value it shows for `f`: a whole number
/// out of its range, paragraph comments on outside EPUB, or an audio format
/// other than mp3 and wav.
pub open spec fn page_may_refuse(c: ConfigView, f: ConfigField) -> bool {
    ||| is_int_field(f)
    ||| f == ConfigField::EnableSegmentComments && comments_outside_epub(c)
    ||| f == ConfigField::AudiobookFormat && c.audiobook_format != "mp3"@ && c.audiobook_format
        != "wav"@
}

/// What saving again the shown value of `f` does: the same settings with no
/// note, or, for a value the page refuses, a message and no change; and the
/// page accepts it unless [`page_may_refuse`].
spec fn resave_holds(c: ConfigView, f: ConfigField) -> bool {
    let raw = trim_seq(page_value_text(c, f)->Some_0);
    &&& match page_edit(c, f, raw) {
        PageEditView::Changed(c2, note) => c2 == c && note is None,
        PageEditView::Rejected(_) => true,
        _ => false,
    }
    &&& !page_may_refuse(c, f) ==> page_edit(c, f, raw) is Changed
}

/// The words, labels and audio formats the page shows have no whitespace
/// at their ends, and the on/off words read back as what they say.
proof fn lemma_page_words()
    ensures
        trim_seq("true"@) == "true"@,
        trim_seq("false"@) == "false"@,
        bool_value("true"@) == Some(true),
        bool_value("false"@) == Some(false),
        trim_seq("Формат txt"@) == "Формат txt"@,
        trim_seq("Формат epub"@) == "Формат epub"@,
        trim_seq("Формат pdf"@) == "Формат pdf"@,
        trim_seq("Отдельные файлы"@) == "Отдельные файлы"@,
        trim_seq("Спросить после загрузки"@) == "Спросить после загрузки"@,
        trim_seq("Название по умолчанию"@) == "Название по умолчанию"@,
        trim_seq("Оригинальное название"@) == "Оригинальное название"@,
        trim_seq("Короткое название"@) == "Короткое название"@,
        trim_seq("mp3"@) == "mp3"@,
        trim_seq("wav"@) == "wav"@,
        lower_seq("mp3"@) == "mp3"@,
        lower_seq("wav"@) == "wav"@,
{
    reveal_strlit("true");
    reveal_strlit("false");
    reveal_strlit("1");
    reveal_strlit("yes");
    reveal_strlit("y");
    reveal_strlit("on");
    reveal_strlit("Формат txt");
    reveal_strlit("Формат epub");
    reveal_strlit("Формат pdf");
    reveal_strlit("Отдельные файлы");
    reveal_strlit("Спросить после загрузки");
    reveal_strlit("Название по умолчанию");
    reveal_strlit("Оригинальное название");
    reveal_strlit("Короткое название");
    reveal_strlit("mp3");
    reveal_strlit("wav");
    lemma_trim_unchanged("true"@);
    lemma_trim_unchanged("false"@);
    lemma_trim_unchanged("Формат txt"@);
    lemma_trim_unchanged("Формат epub"@);
    lemma_trim_unchanged("Формат pdf"@);
    lemma_trim_unchanged("Отдельные файлы"@);
    lemma_trim_unchanged("Спросить после загрузки"@);
    lemma_trim_unchanged("Название по умолчанию"@);
    lemma_trim_unchanged("Оригинальное название"@);
    lemma_trim_unchanged("Короткое название"@);
    lemma_trim_unchanged("mp3"@);
    lemma_trim_unchanged("wav"@);
    assert(lower_seq("true"@) =~= "true"@);
    assert(lower_seq("false"@) =~= "false"@);
    assert(lower_seq("mp3"@) =~= "mp3"@);
    assert(lower_seq("wav"@) =~= "wav"@);
}

#[verifier::rlimit(100)]
proof fn lemma_resave_bool(c: ConfigView, f: ConfigField)
    requires
        ({
            ||| f == ConfigField::AutoClearDump
            ||| f == ConfigField::AutoOpenDownloadedFiles
            ||| f == ConfigField::AllowOverwriteFiles
            ||| f == ConfigField::OldCli
            ||| f == ConfigField::EnableSegmentComments
            ||| f == ConfigField::UseOfficialApi
            ||| f == ConfigField::EnableAudiobook
            ||| f == ConfigField::DownloadCommentImages
            ||| f == ConfigField::DownloadCommentAvatars
            ||| f == ConfigField::ForceConvertImagesToJpeg
            ||| f == ConfigField::JpegRetryConvert
            ||| f == ConfigField::ConvertHeicToJpeg
            ||| f == ConfigField::KeepHeicOriginal
        }),
    ensures
        resave_holds(c, f),
{
    lemma_page_words();
}

proof fn lemma_page_int_shown(c: ConfigView, f: ConfigField)
    requires
        ({
            ||| f == ConfigField::MaxWorkers
            ||| f == ConfigField::RequestTimeout
            ||| f == ConfigField::MaxRetries
            ||| f == ConfigField::MinWait
            ||| f == ConfigField::MaxWait
            ||| f == ConfigField::AudiobookConcurrency
            ||| f == ConfigField::SegmentCommentsTopN
            ||| f == ConfigField::SegmentCommentsWorkers
            ||| f == ConfigField::MediaDownloadWorkers
            ||| f == ConfigField::JpegQuality
            ||| f == ConfigField::MediaLimitPerChapter
            ||| f == ConfigField::MediaMaxDimensionPx
        }),
    ensures
        page_value_text(c, f) == Some(decimal_repr(page_int_setting(c, f) as nat)),
        0 <= page_int_setting(c, f),
        f == ConfigField::MaxRetries || f == ConfigField::MediaMaxDimensionPx ==> page_int_setting(c, f) <= u32::MAX,
        f == ConfigField::JpegQuality ==> page_int_setting(c, f) <= u8::MAX,
        page_int_setting(c, f) <= u64::MAX,
        page_int_setting(c, f) <= usize::MAX || f == ConfigField::RequestTimeout || f == ConfigField::MinWait || f == ConfigField::MaxWait,
{
}

#[verifier::rlimit(100)]
proof fn lemma_resave_int(c: ConfigView, f: ConfigField)
    requires
        ({
            ||| f == ConfigField::MaxWorkers
            ||| f == ConfigField::RequestTimeout
            ||| f == ConfigField::MaxRetries
            ||| f == ConfigField::MinWait
            ||| f == ConfigField::MaxWait
            ||| f == ConfigField::AudiobookConcurrency
            ||| f == ConfigField::SegmentCommentsTopN
            ||| f == ConfigField::SegmentCommentsWorkers
            ||| f == ConfigField::MediaDownloadWorkers
            ||| f == ConfigField::JpegQuality
            ||| f == ConfigField::MediaLimitPerChapter
            ||| f == ConfigField::MediaMaxDimensionPx
        }),
    ensures
        resave_holds(c, f),
{
    lemma_page_int_shown(c, f);
    lemma_decimal_trimmed(page_int_setting(c, f) as nat);
    law_decimal_roundtrip(page_int_setting(c, f) as nat);
}

#[verifier::rlimit(100)]
proof fn lemma_resave_text(c: ConfigView, f: ConfigField)
    requires
        ({
            ||| f == ConfigField::SavePath
            ||| f == ConfigField::AudiobookVoice
            ||| f == ConfigField::AudiobookRate
            ||| f == ConfigField::AudiobookVolume
            ||| f == ConfigField::AudiobookPitch
            ||| f == ConfigField::AudiobookTtsProvider
            ||| f == ConfigField::AudiobookTtsApiUrl
            ||| f == ConfigField::AudiobookTtsApiToken
            ||| f == ConfigField::AudiobookTtsModel
            ||| f == ConfigField::NovelFormat
            ||| f == ConfigField::PreferredBookNameField
            ||| f == ConfigField::AudiobookFormat
        }),
        f == ConfigField::NovelFormat ==> txt_without_comments(c),
        is_free_text_field(f) ==> trim_seq(page_value_text(c, f)->Some_0) == page_value_text(
            c,
            f,
        )->Some_0,
        f == ConfigField::NovelFormat ==> is_format_value(c.novel_format),
        f == ConfigField::PreferredBookNameField ==> is_book_name_field(
            c.preferred_book_name_field,
        ),
        f == ConfigField::AudiobookFormat ==> trim_seq(c.audiobook_format) == c.audiobook_format
            && lower_seq(c.audiobook_format) == c.audiobook_format,
    ensures
        resave_holds(c, f),
{
    lemma_page_words();
    lemma_format_literals();
    if f == ConfigField::NovelFormat {
        law_format_label_ru_roundtrip(c.novel_format);
        assert(ConfigView { novel_format: c.novel_format, ..c } == c);
    } else if f == ConfigField::PreferredBookNameField {
        law_book_name_roundtrip_ru(c.preferred_book_name_field, c.preferred_book_name_field);
    }
}

proof fn lemma_resave_list(c: ConfigView, f: ConfigField)
    requires
        f == ConfigField::ApiEndpoints || f == ConfigField::BlockedMediaDomains,
        f == ConfigField::ApiEndpoints ==> plain_items(c.api_endpoints, list_separators_ru()),
        f == ConfigField::BlockedMediaDomains ==> plain_items(
            c.blocked_media_domains,
            list_separators_ru(),
        ),
    ensures
        resave_holds(c, f),
{
    assert(list_separators_ru()[0] == ',');
    if f == ConfigField::ApiEndpoints {
        lemma_join_trimmed(c.api_endpoints, list_separators_ru());
        lemma_join_reads_back(c.api_endpoints, list_separators_ru());
    } else {
        lemma_join_trimmed(c.blocked_media_domains, list_separators_ru());
        lemma_join_reads_back(c.blocked_media_domains, list_separators_ru());
    }
}

/// Saving again the value that the settings page shows for a setting
/// changes nothing: the page stores the same settings with no note, or, for
/// a value it refuses now ([`page_may_refuse`]), leaves them as they are
/// with a message; every other setting is accepted. It holds where what is
/// shown reads back: for the format line, paragraph comments are not on
/// with txt; a free text has no whitespace at its ends; the format and
/// book-name field are known ones; the audio format is in small letters
/// without whitespace at its ends; and list items are plain.
pub proof fn law_page_resave_keeps_settings(c: ConfigView, f: ConfigField)
    requires
        page_value_text(c, f) is Some,
        f == ConfigField::NovelFormat ==> txt_without_comments(c),
        is_free_text_field(f) ==> trim_seq(page_value_text(c, f)->Some_0) == page_value_text(
            c,
            f,
        )->Some_0,
        f == ConfigField::NovelFormat ==> is_format_value(c.novel_format),
        f == ConfigField::PreferredBookNameField ==> is_book_name_field(
            c.preferred_book_name_field,
        ),
        f == ConfigField::AudiobookFormat ==> trim_seq(c.audiobook_format) == c.audiobook_format
            && lower_seq(c.audiobook_format) == c.audiobook_format,
        f == ConfigField::ApiEndpoints ==> plain_items(c.api_endpoints, list_separators_ru()),
        f == ConfigField::BlockedMediaDomains ==> plain_items(
            c.blocked_media_domains,
            list_separators_ru(),
        ),
    ensures
        match page_edit(c, f, trim_seq(page_value_text(c, f)->Some_0)) {
            PageEditView::Changed(c2, note) => c2 == c && note is None,
            PageEditView::Rejected(_) => true,
            _ => false,
        },
        !page_may_refuse(c, f) ==> page_edit(c, f, trim_seq(page_value_text(c, f)->Some_0))
            is Changed,
{
    if ({
        ||| f == ConfigField::AutoClearDump
        ||| f == ConfigField::AutoOpenDownloadedFiles
        ||| f == ConfigField::AllowOverwriteFiles
        ||| f == ConfigField::OldCli
        ||| f == ConfigField::EnableSegmentComments
        ||| f == ConfigField::UseOfficialApi
        ||| f == ConfigField::EnableAudiobook
        ||| f == ConfigField::DownloadCommentImages
        ||| f == ConfigField::DownloadCommentAvatars
        ||| f == ConfigField::ForceConvertImagesToJpeg
        ||| f == ConfigField::JpegRetryConvert
        ||| f == ConfigField::ConvertHeicToJpeg
        ||| f == ConfigField::KeepHeicOriginal
    }) {
        lemma_resave_bool(c, f);
    } else if ({
        ||| f == ConfigField::MaxWorkers
        ||| f == ConfigField::RequestTimeout
        ||| f == ConfigField::MaxRetries
        ||| f == ConfigField::MinWait
        ||| f == ConfigField::MaxWait
        ||| f == ConfigField::AudiobookConcurrency
        ||| f == ConfigField::SegmentCommentsTopN
        ||| f == ConfigField::SegmentCommentsWorkers
        ||| f == ConfigField::MediaDownloadWorkers
        ||| f == ConfigField::JpegQuality
        ||| f == ConfigField::MediaLimitPerChapter
        ||| f == ConfigField::MediaMaxDimensionPx
    }) {
        lemma_resave_int(c, f);
    } else if ({
        ||| f == ConfigField::SavePath
        ||| f == ConfigField::AudiobookVoice
        ||| f == ConfigField::AudiobookRate
        ||| f == ConfigField::AudiobookVolume
        ||| f == ConfigField::AudiobookPitch
        ||| f == ConfigField::AudiobookTtsProvider
        ||| f == ConfigField::AudiobookTtsApiUrl
        ||| f == ConfigField::AudiobookTtsApiToken
        ||| f == ConfigField::AudiobookTtsModel
        ||| f == ConfigField::NovelFormat
        ||| f == ConfigField::PreferredBookNameField
        ||| f == ConfigField::AudiobookFormat
    }) {
        lemma_resave_text(c, f);
    } else if f == ConfigField::ApiEndpoints || f == ConfigField::BlockedMediaDomains {
        lemma_resave_list(c, f);
    }
}

/// The settings page never stores 0 for a setting that must be positive
/// (the worker counts, the request timeout, the audiobook concurrency and
/// the comment limit), a JPEG quality above 100, or waits out of order:
/// typing `0` for such a setting is refused with a message.
pub proof fn law_page_edits_keep_ranges(c: ConfigView, raw: Seq<char>)
    ensures
        page_edit(c, ConfigField::MaxWorkers, raw) is Changed ==> (page_edit(c, ConfigField::MaxWorkers, raw)->Changed_0).max_workers > 0,
        page_edit(c, ConfigField::RequestTimeout, raw) is Changed ==> (page_edit(c, ConfigField::RequestTimeout, raw)->Changed_0).request_timeout > 0,
        page_edit(c, ConfigField::AudiobookConcurrency, raw) is Changed ==> (page_edit(c, ConfigField::AudiobookConcurrency, raw)->Changed_0).audiobook_concurrency > 0,
        page_edit(c, ConfigField::SegmentCommentsTopN, raw) is Changed ==> (page_edit(c, ConfigField::SegmentCommentsTopN, raw)->Changed_0).segment_comments_top_n > 0,
        page_edit(c, ConfigField::SegmentCommentsWorkers, raw) is Changed ==> (page_edit(c, ConfigField::SegmentCommentsWorkers, raw)->Changed_0).segment_comments_workers > 0,
        page_edit(c, ConfigField::MediaDownloadWorkers, raw) is Changed ==> (page_edit(c, ConfigField::MediaDownloadWorkers, raw)->Changed_0).media_download_workers > 0,
        page_edit(c, ConfigField::JpegQuality, raw) is Changed ==> (page_edit(
            c,
            ConfigField::JpegQuality,
            raw,
        )->Changed_0).jpeg_quality <= 100,
        page_edit(c, ConfigField::RequestTimeout, "0"@) is Rejected,
        page_edit(c, ConfigField::MaxWorkers, "0"@) is Rejected,
{
    crate::text::lemma_unsigned_value_nonneg(raw);
    reveal_strlit("0");
    crate::text::law_decimal_roundtrip(0);
    assert(decimal_repr(0) =~= "0"@);
}

/// The settings page reads `true`, `1`, `yes`, `y` and `on` as on and
/// `false`, `0`, `no`, `n` and `off` as off, in any ASCII case.
pub proof fn law_page_on_off_words(s: Seq<char>)
    ensures
        lower_seq(s) == "true"@ || lower_seq(s) == "1"@ || lower_seq(s) == "yes"@ || lower_seq(s)
            == "y"@ || lower_seq(s) == "on"@ ==> bool_value(s) == Some(true),
        lower_seq(s) == "false"@ || lower_seq(s) == "0"@ || lower_seq(s) == "no"@ || lower_seq(s)
            == "n"@ || lower_seq(s) == "off"@ ==> bool_value(s) == Some(false),
{
    reveal_strlit("true");
    reveal_strlit("1");
    reveal_strlit("yes");
    reveal_strlit("y");
    reveal_strlit("on");
    reveal_strlit("false");
    reveal_strlit("0");
    reveal_strlit("no");
    reveal_strlit("n");
    reveal_strlit("off");
    assert("false"@.len() != "true"@.len());
    assert("false"@.len() != "1"@.len());
    assert("false"@.len() != "yes"@.len());
    assert("false"@.len() != "y"@.len());
    assert("false"@.len() != "on"@.len());
    assert("0"@.len() != "true"@.len());
    assert("0"@[0] != "1"@[0]);
    assert("0"@.len() != "yes"@.len());
    assert("0"@[0] != "y"@[0]);
    assert("0"@.len() != "on"@.len());
    assert("no"@.len() != "true"@.len());
    assert("no"@.len() != "1"@.len());
    assert("no"@.len() != "yes"@.len());
    assert("no"@.len() != "y"@.len());
    assert("no"@[0] != "on"@[0]);
    assert("n"@.len() != "true"@.len());
    assert("n"@[0] != "1"@[0]);
    assert("n"@.len() != "yes"@.len());
    assert("n"@[0] != "y"@[0]);
    assert("n"@.len() != "on"@.len());
    assert("off"@.len() != "true"@.len());
    assert("off"@.len() != "1"@.len());
    assert("off"@[0] != "yes"@[0]);
    assert("off"@.len() != "y"@.len());
    assert("off"@.len() != "on"@.len());
}

/// Choosing an output format by its label on the settings page stores that
/// format; choosing txt turns paragraph comments off, any other format
/// leaves them as they were.
pub proof fn law_page_format_choice(c: ConfigView, v: Seq<char>)
    requires
        is_format_value(v),
    ensures
        page_edit(c, ConfigField::NovelFormat, format_label_ru(v)) matches PageEditView::Changed(
            c2,
            _,
        ) && c2.novel_format == v && (v == "txt"@ ==> !c2.enable_segment_comments) && (v != "txt"@
            ==> c2.enable_segment_comments == c.enable_segment_comments),
{
    law_format_label_ru_roundtrip(v);
    crate::config::lemma_format_choice_case(c, v);
}

/// Choosing a book-name field by its label on the settings page stores
/// that field and nothing else.
pub proof fn law_page_book_name_choice(c: ConfigView, g: Seq<char>)
    requires
        is_book_name_field(g),
    ensures
        page_edit(c, ConfigField::PreferredBookNameField, book_name_label_ru(g))
            == PageEditView::Changed(ConfigView { preferred_book_name_field: g, ..c }, None),
{
    law_book_name_roundtrip_ru(g, g);
}

/// Typing an on word for an on/off line of the settings page turns the
/// setting on, and an off word turns it off.
pub proof fn law_page_words_switch(c: ConfigView, s: Seq<char>)
    ensures
        bool_value(s) == Some(true) ==> page_edit(c, ConfigField::OldCli, s)
            == PageEditView::Changed(ConfigView { old_cli: true, ..c }, None),
        bool_value(s) == Some(false) ==> page_edit(c, ConfigField::OldCli, s)
            == PageEditView::Changed(ConfigView { old_cli: false, ..c }, None),
        bool_value(s) == Some(true) ==> page_edit(c, ConfigField::AutoClearDump, s)
            == PageEditView::Changed(ConfigView { auto_clear_dump: true, ..c }, None),
        bool_value(s) is None ==> page_edit(c, ConfigField::OldCli, s) is Failed,
{
}

/// Every item that the settings page stores in a list is trimmed and not
/// empty.
pub proof fn law_page_list_items_plain(c: ConfigView, raw: Seq<char>)
    ensures
        forall|i: int|
            0 <= i < (page_edit(c, ConfigField::ApiEndpoints, raw)->Changed_0).api_endpoints.len()
                ==> (#[trigger] (page_edit(c, ConfigField::ApiEndpoints, raw)->Changed_0).api_endpoints[i]).len()
                > 0 && trim_seq(
                (page_edit(c, ConfigField::ApiEndpoints, raw)->Changed_0).api_endpoints[i],
            ) == (page_edit(c, ConfigField::ApiEndpoints, raw)->Changed_0).api_endpoints[i],
{
    crate::text::lemma_clean_list_items(split_seq(raw, list_separators_ru()));
}

/// A list typed on the settings page with its items separated by commas,
/// semicolons or line breaks is stored item for item, when each item is
/// trimmed, not empty and free of separators.
pub proof fn law_page_list_separators(c: ConfigView, items: Seq<Seq<char>>)
    requires
        plain_items(items, list_separators_ru()),
    ensures
        page_edit(c, ConfigField::ApiEndpoints, join_seq(items, seq![',']))
            == PageEditView::Changed(ConfigView { api_endpoints: items, ..c }, None),
        page_edit(c, ConfigField::ApiEndpoints, join_seq(items, seq![';']))
            == PageEditView::Changed(ConfigView { api_endpoints: items, ..c }, None),
        page_edit(c, ConfigField::BlockedMediaDomains, join_seq(items, seq!['\n']))
            == PageEditView::Changed(ConfigView { blocked_media_domains: items, ..c }, None),
{
    let seps = list_separators_ru();
    assert(seps[0] == ',');
    assert(seps[1] == ';');
    assert(seps[2] == '\n');
    crate::text::lemma_join_char_reads_back(items, ',', seps);
    crate::text::lemma_join_char_reads_back(items, ';', seps);
    crate::text::lemma_join_char_reads_back(items, '\n', seps);
}

/// The settings page stores an audio format only as mp3 or wav, in small
/// letters; anything else is refused and changes nothing.
pub proof fn law_page_audio_format(c: ConfigView, raw: Seq<char>)
    ensures
        lower_seq(raw) == "mp3"@ || lower_seq(raw) == "wav"@ ==> page_edit(
            c,
            ConfigField::AudiobookFormat,
            raw,
        ) == PageEditView::Changed(ConfigView { audiobook_format: lower_seq(raw), ..c }, None),
        lower_seq(raw) != "mp3"@ && lower_seq(raw) != "wav"@ ==> page_edit(
            c,
            ConfigField::AudiobookFormat,
            raw,
        ) is Rejected,
{
}

} // verus!
