//! The downloader's settings as the editors see them, and the vocabulary of
//! their values: output formats and book-name fields.
//!
//! The two settings that hold floating-point numbers (the minimum connect
//! timeout and the first-line indent) are not part of [`Config`]; the
//! program keeps them beside it.

use vstd::prelude::*;

use crate::text::{lower_seq, str_eq, views};

verus! {

/// The settings that the editors read and change.
#[derive(Clone, Debug)]
pub struct Config {
    pub save_path: String,
    pub novel_format: String,
    pub auto_clear_dump: bool,
    pub auto_open_downloaded_files: bool,
    pub allow_overwrite_files: bool,
    pub preferred_book_name_field: String,
    pub old_cli: bool,
    pub enable_segment_comments: bool,
    pub use_official_api: bool,
    pub api_endpoints: Vec<String>,
    pub max_workers: usize,
    pub request_timeout: u64,
    pub max_retries: u32,
    pub min_wait_time: u64,
    pub max_wait_time: u64,
    pub enable_audiobook: bool,
    pub audiobook_voice: String,
    pub audiobook_rate: String,
    pub audiobook_volume: String,
    pub audiobook_pitch: String,
    pub audiobook_format: String,
    pub audiobook_concurrency: usize,
    pub audiobook_tts_provider: String,
    pub audiobook_tts_api_url: String,
    pub audiobook_tts_api_token: String,
    pub audiobook_tts_model: String,
    pub segment_comments_top_n: usize,
    pub segment_comments_workers: usize,
    pub download_comment_images: bool,
    pub download_comment_avatars: bool,
    pub media_download_workers: usize,
    pub blocked_media_domains: Vec<String>,
    pub force_convert_images_to_jpeg: bool,
    pub jpeg_retry_convert: bool,
    pub jpeg_quality: u8,
    pub convert_heic_to_jpeg: bool,
    pub keep_heic_original: bool,
    pub media_limit_per_chapter: usize,
    pub media_max_dimension_px: u32,
}

/// [`Config`] with every string as its characters.
pub struct ConfigView {
    pub save_path: Seq<char>,
    pub novel_format: Seq<char>,
    pub auto_clear_dump: bool,
    pub auto_open_downloaded_files: bool,
    pub allow_overwrite_files: bool,
    pub preferred_book_name_field: Seq<char>,
    pub old_cli: bool,
    pub enable_segment_comments: bool,
    pub use_official_api: bool,
    pub api_endpoints: Seq<Seq<char>>,
    pub max_workers: usize,
    pub request_timeout: u64,
    pub max_retries: u32,
    pub min_wait_time: u64,
    pub max_wait_time: u64,
    pub enable_audiobook: bool,
    pub audiobook_voice: Seq<char>,
    pub audiobook_rate: Seq<char>,
    pub audiobook_volume: Seq<char>,
    pub audiobook_pitch: Seq<char>,
    pub audiobook_format: Seq<char>,
    pub audiobook_concurrency: usize,
    pub audiobook_tts_provider: Seq<char>,
    pub audiobook_tts_api_url: Seq<char>,
    pub audiobook_tts_api_token: Seq<char>,
    pub audiobook_tts_model: Seq<char>,
    pub segment_comments_top_n: usize,
    pub segment_comments_workers: usize,
    pub download_comment_images: bool,
    pub download_comment_avatars: bool,
    pub media_download_workers: usize,
    pub blocked_media_domains: Seq<Seq<char>>,
    pub force_convert_images_to_jpeg: bool,
    pub jpeg_retry_convert: bool,
    pub jpeg_quality: u8,
    pub convert_heic_to_jpeg: bool,
    pub keep_heic_original: bool,
    pub media_limit_per_chapter: usize,
    pub media_max_dimension_px: u32,
}

impl View for Config {
    type V = ConfigView;

    open spec fn view(&self) -> ConfigView {
        ConfigView {
            save_path: self.save_path@,
            novel_format: self.novel_format@,
            auto_clear_dump: self.auto_clear_dump,
            auto_open_downloaded_files: self.auto_open_downloaded_files,
            allow_overwrite_files: self.allow_overwrite_files,
            preferred_book_name_field: self.preferred_book_name_field@,
            old_cli: self.old_cli,
            enable_segment_comments: self.enable_segment_comments,
            use_official_api: self.use_official_api,
            api_endpoints: views(self.api_endpoints@),
            max_workers: self.max_workers,
            request_timeout: self.request_timeout,
            max_retries: self.max_retries,
            min_wait_time: self.min_wait_time,
            max_wait_time: self.max_wait_time,
            enable_audiobook: self.enable_audiobook,
            audiobook_voice: self.audiobook_voice@,
            audiobook_rate: self.audiobook_rate@,
            audiobook_volume: self.audiobook_volume@,
            audiobook_pitch: self.audiobook_pitch@,
            audiobook_format: self.audiobook_format@,
            audiobook_concurrency: self.audiobook_concurrency,
            audiobook_tts_provider: self.audiobook_tts_provider@,
            audiobook_tts_api_url: self.audiobook_tts_api_url@,
            audiobook_tts_api_token: self.audiobook_tts_api_token@,
            audiobook_tts_model: self.audiobook_tts_model@,
            segment_comments_top_n: self.segment_comments_top_n,
            segment_comments_workers: self.segment_comments_workers,
            download_comment_images: self.download_comment_images,
            download_comment_avatars: self.download_comment_avatars,
            media_download_workers: self.media_download_workers,
            blocked_media_domains: views(self.blocked_media_domains@),
            force_convert_images_to_jpeg: self.force_convert_images_to_jpeg,
            jpeg_retry_convert: self.jpeg_retry_convert,
            jpeg_quality: self.jpeg_quality,
            convert_heic_to_jpeg: self.convert_heic_to_jpeg,
            keep_heic_original: self.keep_heic_original,
            media_limit_per_chapter: self.media_limit_per_chapter,
            media_max_dimension_px: self.media_max_dimension_px,
        }
    }
}

/// The output format values, in the order the editors offer them.
pub open spec fn format_values() -> Seq<Seq<char>> {
    seq!["txt"@, "epub"@, "pdf"@, "bulk_txt"@, "ask_after_download"@]
}

/// The labels of the output formats, in the order of [`format_values`].
pub open spec fn format_labels() -> Seq<Seq<char>> {
    seq![
        "Формат txt"@,
        "Формат epub"@,
        "Формат pdf"@,
        "Отдельные файлы"@,
        "Спросить после загрузки"@,
    ]
}

/// The output formats as `(value, label)` pairs, in the order they are offered.
pub fn output_format_choices() -> (r: Vec<(&'static str, &'static str)>)
    ensures
        r@.len() == 5,
        forall|i: int|
            0 <= i < 5 ==> (#[trigger] r@[i]).0@ == format_values()[i] && r@[i].1@
                == format_labels()[i],
{
    vec![
        ("txt", "Формат txt"),
        ("epub", "Формат epub"),
        ("pdf", "Формат pdf"),
        ("bulk_txt", "Отдельные файлы"),
        ("ask_after_download", "Спросить после загрузки"),
    ]
}

/// The label of the output format value `v`; an unknown value reads as txt.
pub open spec fn format_label_of(v: Seq<char>) -> Seq<char> {
    if v == "epub"@ {
        "Формат epub"@
    } else if v == "pdf"@ {
        "Формат pdf"@
    } else if v == "bulk_txt"@ {
        "Отдельные файлы"@
    } else if v == "ask_after_download"@ {
        "Спросить после загрузки"@
    } else {
        "Формат txt"@
    }
}

/// The label of the output format `choice`.
pub fn output_format_label(choice: &str) -> (r: &'static str)
    ensures
        r@ == format_label_of(choice@),
{
    if str_eq(choice, "epub") {
        "Формат epub"
    } else if str_eq(choice, "pdf") {
        "Формат pdf"
    } else if str_eq(choice, "bulk_txt") {
        "Отдельные файлы"
    } else if str_eq(choice, "ask_after_download") {
        "Спросить после загрузки"
    } else {
        "Формат txt"
    }
}

/// The output format value whose label is `label`, if any.
pub open spec fn format_value_of_label(label: Seq<char>) -> Option<Seq<char>> {
    if label == "Формат txt"@ {
        Some("txt"@)
    } else if label == "Формат epub"@ {
        Some("epub"@)
    } else if label == "Формат pdf"@ {
        Some("pdf"@)
    } else if label == "Отдельные файлы"@ {
        Some("bulk_txt"@)
    } else if label == "Спросить после загрузки"@ {
        Some("ask_after_download"@)
    } else {
        None
    }
}

/// The output format value whose label is `label`, if any.
pub fn output_format_value_from_label(label: &str) -> (r: Option<&'static str>)
    ensures
        r is Some <==> format_value_of_label(label@) is Some,
        r is Some ==> r.unwrap()@ == format_value_of_label(label@).unwrap(),
{
    if str_eq(label, "Формат txt") {
        Some("txt")
    } else if str_eq(label, "Формат epub") {
        Some("epub")
    } else if str_eq(label, "Формат pdf") {
        Some("pdf")
    } else if str_eq(label, "Отдельные файлы") {
        Some("bulk_txt")
    } else if str_eq(label, "Спросить после загрузки") {
        Some("ask_after_download")
    } else {
        None
    }
}

/// Whether `v` is one of the output format values.
pub open spec fn is_format_value(v: Seq<char>) -> bool {
    format_values().contains(v)
}

/// The message for an output format value that is not known.
pub open spec fn unknown_format_message(v: Seq<char>) -> Seq<char> {
    "Неизвестный формат вывода: "@ + v
}

/// `c` after the output format `choice` is applied: the choice is stored
/// when it is a known value; otherwise the message says why not.
pub open spec fn apply_format_spec(c: ConfigView, choice: Seq<char>) -> Result<ConfigView, Seq<char>> {
    if is_format_value(choice) {
        Ok(ConfigView { novel_format: choice, ..c })
    } else {
        Err(unknown_format_message(choice))
    }
}

/// Whether the book-name field `v` is one of the four known names.
pub open spec fn is_book_name_field(v: Seq<char>) -> bool {
    ||| v == "book_name"@
    ||| v == "original_book_name"@
    ||| v == "book_short_name"@
    ||| v == "ask_after_download"@
}

/// Whether `v` is one of the four known book-name fields.
pub fn book_name_field_known(v: &str) -> (r: bool)
    ensures
        r == is_book_name_field(v@),
{
    str_eq(v, "book_name") || str_eq(v, "original_book_name") || str_eq(v, "book_short_name")
        || str_eq(v, "ask_after_download")
}

impl Config {
    /// The output format that is chosen now.
    pub fn current_output_format_choice(&self) -> (r: &str)
        ensures
            r@ == self@.novel_format,
    {
        self.novel_format.as_str()
    }

    /// Chooses the output format `choice`, when it is a known value.
    pub fn apply_output_format_choice(&mut self, choice: &str) -> (r: Result<(), String>)
        ensures
            match apply_format_spec(old(self)@, choice@) {
                Ok(c) => r is Ok && final(self)@ == c,
                Err(m) => r matches Err(e) && e@ == m && final(self)@ == old(self)@,
            },
    {
        let known = str_eq(choice, "txt") || str_eq(choice, "epub") || str_eq(choice, "pdf")
            || str_eq(choice, "bulk_txt") || str_eq(choice, "ask_after_download");
        proof {
            assert(format_values()[0] == "txt"@);
            assert(format_values()[1] == "epub"@);
            assert(format_values()[2] == "pdf"@);
            assert(format_values()[3] == "bulk_txt"@);
            assert(format_values()[4] == "ask_after_download"@);
        }
        if known {
            self.novel_format = choice.to_string();
            Ok(())
        } else {
            let mut m = "Неизвестный формат вывода: ".to_string();
            crate::text::string_push_str(&mut m, choice);
            Err(m)
        }
    }
}

/// The output format values are in small letters, and only txt reads as txt.
pub proof fn lemma_format_literals()
    ensures
        lower_seq("txt"@) == "txt"@,
        lower_seq("epub"@) == "epub"@,
        lower_seq("pdf"@) == "pdf"@,
        lower_seq("bulk_txt"@) == "bulk_txt"@,
        lower_seq("ask_after_download"@) == "ask_after_download"@,
        "epub"@ != "txt"@,
        "pdf"@ != "txt"@,
        "bulk_txt"@ != "txt"@,
        "ask_after_download"@ != "txt"@,
{
    reveal_strlit("txt");
    reveal_strlit("epub");
    reveal_strlit("pdf");
    reveal_strlit("bulk_txt");
    reveal_strlit("ask_after_download");
    assert(lower_seq("txt"@) =~= "txt"@);
    assert(lower_seq("epub"@) =~= "epub"@);
    assert(lower_seq("pdf"@) =~= "pdf"@);
    assert(lower_seq("bulk_txt"@) =~= "bulk_txt"@);
    assert(lower_seq("ask_after_download"@) =~= "ask_after_download"@);
    assert("epub"@.len() != "txt"@.len());
    assert("pdf"@[0] != "txt"@[0]);
    assert("bulk_txt"@.len() != "txt"@.len());
    assert("ask_after_download"@.len() != "txt"@.len());
}

/// A chosen output format is always one of the known values, none of which
/// reads as txt unless it is txt.
pub proof fn lemma_format_choice_case(c: ConfigView, choice: Seq<char>)
    requires
        apply_format_spec(c, choice) is Ok,
    ensures
        (apply_format_spec(c, choice)->Ok_0).novel_format == choice,
        lower_seq(choice) == "txt"@ <==> choice == "txt"@,
        (apply_format_spec(c, choice)->Ok_0) == (ConfigView { novel_format: choice, ..c }),
{
    lemma_format_literals();
    let vals = format_values();
    assert(vals[0] == "txt"@);
    assert(vals[1] == "epub"@);
    assert(vals[2] == "pdf"@);
    assert(vals[3] == "bulk_txt"@);
    assert(vals[4] == "ask_after_download"@);
    let i = choose|i: int| 0 <= i < vals.len() && vals[i] == choice;
}


proof fn lemma_format_label_literals()
    ensures
        "Формат txt"@ != "Формат epub"@,
        "Формат txt"@ != "Формат pdf"@,
        "Формат txt"@ != "Отдельные файлы"@,
        "Формат txt"@ != "Спросить после загрузки"@,
        "Формат epub"@ != "Формат pdf"@,
        "Формат epub"@ != "Отдельные файлы"@,
        "Формат epub"@ != "Спросить после загрузки"@,
        "Формат pdf"@ != "Отдельные файлы"@,
        "Формат pdf"@ != "Спросить после загрузки"@,
        "Отдельные файлы"@ != "Спросить после загрузки"@,
{
    reveal_strlit("Формат txt");
    reveal_strlit("Формат epub");
    reveal_strlit("Формат pdf");
    reveal_strlit("Отдельные файлы");
    reveal_strlit("Спросить после загрузки");
    assert("Формат txt"@.len() != "Формат epub"@.len());
    assert("Формат txt"@[7] != "Формат pdf"@[7]);
    assert("Формат txt"@[0] != "Отдельные файлы"@[0]);
    assert("Формат txt"@[0] != "Спросить после загрузки"@[0]);
    assert("Формат epub"@.len() != "Формат pdf"@.len());
    assert("Формат epub"@[0] != "Отдельные файлы"@[0]);
    assert("Формат epub"@[0] != "Спросить после загрузки"@[0]);
    assert("Формат pdf"@[0] != "Отдельные файлы"@[0]);
    assert("Формат pdf"@[0] != "Спросить после загрузки"@[0]);
    assert("Отдельные файлы"@[0] != "Спросить после загрузки"@[0]);
}

/// The label shown for a known output format reads back as that format.
pub proof fn law_format_label_roundtrip(v: Seq<char>)
    requires
        is_format_value(v),
    ensures
        format_value_of_label(format_label_of(v)) == Some(v),
{
    lemma_format_literals();
    lemma_format_label_literals();
    reveal_strlit("txt");
    reveal_strlit("epub");
    reveal_strlit("pdf");
    reveal_strlit("bulk_txt");
    reveal_strlit("ask_after_download");
    assert("epub"@.len() != "pdf"@.len());
    assert("epub"@.len() != "bulk_txt"@.len());
    assert("epub"@.len() != "ask_after_download"@.len());
    assert("pdf"@.len() != "bulk_txt"@.len());
    assert("pdf"@.len() != "ask_after_download"@.len());
    assert("bulk_txt"@.len() != "ask_after_download"@.len());
    let vals = format_values();
    let i = choose|i: int| 0 <= i < vals.len() && vals[i] == v;
}

} // verus!
