//! Language codes: ISO 639 lookup and statistical detection, as the gateway
//! consumes them.

use crate::error::AppError;
use crate::text::{before_first, chars_of, first_index};
use vstd::prelude::*;
use vstd::string::{StrSliceExecFns, StringExecFns, StringSliceAdditionalSpecFns};

verus! {

/// A language as contracts see it: its ISO 639-3 code, its ISO 639-1 code
/// where it has one, and its English name.
pub type TagView = (Seq<char>, Option<Seq<char>>, Seq<char>);

/// A language, held by its codes.
#[derive(Debug, PartialEq, Eq)]
pub struct LanguageTag {
    /// The three-letter ISO 639-3 code.
    pub code3: String,
    /// The two-letter ISO 639-1 code, where the language has one.
    pub code1: Option<String>,
    /// The English name.
    pub name: String,
}

impl LanguageTag {
    /// The two codes and the name.
    pub open spec fn view(&self) -> TagView {
        (
            self.code3@,
            match self.code1 {
                Some(code) => Some(code@),
                None => None,
            },
            self.name@,
        )
    }

    /// A tag with the same codes and name.
    pub fn duplicate(&self) -> (tag: Self)
        ensures
            tag@ == self@,
    {
        LanguageTag {
            code3: self.code3.clone(),
            code1: match &self.code1 {
                Some(code) => Some(code.clone()),
                None => None,
            },
            name: self.name.clone(),
        }
    }

    /// Tests whether two tags name one language: whether their ISO 639-3
    /// codes agree.
    pub fn same_language(&self, other: &LanguageTag) -> (same: bool)
        ensures
            same == (self@.0 == other@.0),
    {
        self.code3 == other.code3
    }
}

/// The language that the ISO 639 table lists under the two-letter code `code`.
pub uninterp spec fn language_of_639_1(code: Seq<char>) -> Option<TagView>;

/// The language that the ISO 639 table lists under the three-letter code
/// `code`.
pub uninterp spec fn language_of_639_3(code: Seq<char>) -> Option<TagView>;

/// The ISO 639-3 code of the language that the classifier assigns to `text`.
pub uninterp spec fn detected_639_3(text: Seq<char>) -> Seq<char>;

/// The longest text that is handed to the classifier, in bytes.
pub const MAX_DETECT_BYTES: usize = 1_000_000_000;

/// `isolang::Language::from_639_1`: the language listed under a two-letter
/// code, handed out as its codes and its English name (`to_639_3`,
/// `to_639_1`, `to_name`). The result is the table's entry for the code, and
/// nothing more is claimed of it.
#[verifier::external_body]
fn lookup_639_1(code: &str) -> (found: Option<LanguageTag>)
    ensures
        match found {
            Some(tag) => language_of_639_1(code@) == Some(tag@),
            None => language_of_639_1(code@) is None,
        },
{
    isolang::Language::from_639_1(code).map(|language| LanguageTag {
        code3: language.to_639_3().to_string(),
        code1: language.to_639_1().map(|short| short.to_string()),
        name: language.to_name().to_string(),
    })
}

/// `isolang::Language::from_639_3`: the language listed under a three-letter
/// code, handed out as its codes and its English name (`to_639_3`,
/// `to_639_1`, `to_name`). The result is the table's entry for the code, and
/// nothing more is claimed of it.
#[verifier::external_body]
fn lookup_639_3(code: &str) -> (found: Option<LanguageTag>)
    ensures
        match found {
            Some(tag) => language_of_639_3(code@) == Some(tag@),
            None => language_of_639_3(code@) is None,
        },
{
    isolang::Language::from_639_3(code).map(|language| LanguageTag {
        code3: language.to_639_3().to_string(),
        code1: language.to_639_1().map(|short| short.to_string()),
        name: language.to_name().to_string(),
    })
}

/// `whichlang::detect_language`: the language that the classifier assigns to
/// a text, as its three-letter code (`three_letter_code`). The classifier
/// counts the features of the text in 32 bits, at most three per character,
/// so that texts beyond `MAX_DETECT_BYTES` are kept out.
#[verifier::external_body]
fn detect(text: &str) -> (code: String)
    requires
        text.spec_bytes().len() <= MAX_DETECT_BYTES,
    ensures
        code@ == detected_639_3(text@),
{
    whichlang::detect_language(text).three_letter_code().to_string()
}

/// The part of a language code that names the language: what stands before
/// the first hyphen.
pub open spec fn primary_subtag(code: Seq<char>) -> Seq<char> {
    before_first(code, '-')
}

/// The text of the failure for a code that names no language.
pub open spec fn invalid_code_message(code: Seq<char>) -> Seq<char> {
    "Invalid language code: '"@ + code + "'. Please use ISO 639-1 format."@
}

/// The text of the failure for a language without a two-letter code; it
/// quotes the English name of the language.
pub open spec fn no_short_code_message(name: Seq<char>) -> Seq<char> {
    "Language '"@ + name + "' doesn't have an ISO 639-1 code"@
}

/// The text of the failure for a text whose language is not identified.
pub open spec fn unidentified_message(text: Seq<char>) -> Seq<char> {
    "Failed to identify language for text: '"@ + text + "'"@
}

/// The two-letter code under which a language is served: `zh` for Mandarin
/// Chinese, else the ISO 639-1 code of the language.
pub open spec fn served_code(tag: TagView) -> Option<Seq<char>> {
    if tag.0 == "cmn"@ {
        Some("zh"@)
    } else {
        tag.1
    }
}

/// What parsing `code` yields: the language that the table lists under its
/// primary subtag, else the text of the failure.
pub open spec fn parse_result(code: Seq<char>) -> Result<TagView, Seq<char>> {
    match language_of_639_1(primary_subtag(code)) {
        Some(tag) => Ok(tag),
        None => Err(invalid_code_message(code)),
    }
}

/// What serving the language `tag` yields: its served code, else the text of
/// the failure.
pub open spec fn serve_result(tag: TagView) -> Result<Seq<char>, Seq<char>> {
    match served_code(tag) {
        Some(short) => Ok(short),
        None => Err(no_short_code_message(tag.2)),
    }
}

/// What detecting the language of `text` yields, given the table's entry
/// `found` for the classifier's answer.
pub open spec fn detect_result(text: Seq<char>, found: Option<TagView>) -> Result<
    Seq<char>,
    Seq<char>,
> {
    match found {
        Some(tag) => serve_result(tag),
        None => Err(unidentified_message(text)),
    }
}

/// Whether `got` is the language `want`, or a translation error with the
/// text `want`.
pub open spec fn tag_matches(got: Result<LanguageTag, AppError>, want: Result<TagView, Seq<char>>) -> bool {
    match (got, want) {
        (Ok(language), Ok(tag)) => language@ == tag,
        (Err(AppError::TranslationError(message)), Err(text)) => message@ == text,
        _ => false,
    }
}

/// Whether `got` is the code `want`, or a translation error with the text
/// `want`.
pub open spec fn code_matches(got: Result<String, AppError>, want: Result<Seq<char>, Seq<char>>) -> bool {
    match (got, want) {
        (Ok(code), Ok(text)) => code@ == text,
        (Err(AppError::TranslationError(message)), Err(text)) => message@ == text,
        _ => false,
    }
}

/// The view of a tag that may be absent.
pub open spec fn tag_view(found: Option<LanguageTag>) -> Option<TagView> {
    match found {
        Some(tag) => Some(tag@),
        None => None,
    }
}

/// The primary subtag of `code`.
pub fn primary(code: &str) -> (subtag: &str)
    ensures
        subtag@ == primary_subtag(code@),
{
    let chars = chars_of(code);
    let at = first_index(chars.as_slice(), '-');
    code.substring_char(0, at)
}

/// Concludes the parsing of `code` from the table's entry for its primary
/// subtag: the language where there is one, else a translation error that
/// quotes the code.
pub fn parsed_from(code: &str, found: Option<LanguageTag>) -> (parsed: Result<
    LanguageTag,
    AppError,
>)
    ensures
        match (found, parsed) {
            (Some(tag), Ok(language)) => language == tag,
            (None, Err(AppError::TranslationError(message))) => message@ == invalid_code_message(
                code@,
            ),
            _ => false,
        },
{
    match found {
        Some(tag) => Ok(tag),
        None => Err(
            AppError::TranslationError(
                String::from_str("Invalid language code: '").concat(code).concat(
                    "'. Please use ISO 639-1 format.",
                ),
            ),
        ),
    }
}

/// Parses a language code: its primary subtag must be an ISO 639-1 code.
pub fn parse_language_code(code: &str) -> (parsed: Result<LanguageTag, AppError>)
    ensures
        tag_matches(parsed, parse_result(code@)),
{
    parsed_from(code, lookup_639_1(primary(code)))
}

/// The two-letter code under which `language` is served: `zh` for Mandarin
/// Chinese, else its ISO 639-1 code; a translation error where it has none.
pub fn get_iso_code(language: &LanguageTag) -> (code: Result<String, AppError>)
    ensures
        code_matches(code, serve_result(language@)),
{
    let mandarin = String::from_str("cmn");
    if language.code3 == mandarin {
        return Ok(String::from_str("zh"));
    }
    match &language.code1 {
        Some(short) => Ok(short.clone()),
        None => Err(
            AppError::TranslationError(
                String::from_str("Language '").concat(language.name.as_str()).concat(
                    "' doesn't have an ISO 639-1 code",
                ),
            ),
        ),
    }
}

/// Concludes a detection on `text` from the table's entry for the
/// classifier's answer: the code under which the language is served, or a
/// translation error where the table has no entry or the language has no
/// two-letter code.
pub fn detected_from(text: &str, found: Option<LanguageTag>) -> (code: Result<String, AppError>)
    ensures
        code_matches(code, detect_result(text@, tag_view(found))),
{
    match found {
        Some(tag) => get_iso_code(&tag),
        None => Err(
            AppError::TranslationError(
                String::from_str("Failed to identify language for text: '").concat(text).concat(
                    "'",
                ),
            ),
        ),
    }
}

/// The language of `text` as the classifier and the table give it; none for
/// a text that is too long for the classifier.
pub open spec fn detected_language(text: &str) -> Option<TagView> {
    if text.spec_bytes().len() <= MAX_DETECT_BYTES {
        language_of_639_3(detected_639_3(text@))
    } else {
        None
    }
}

/// Detects the language of `text`, as a tag.
pub fn detect_language(text: &str) -> (found: Option<LanguageTag>)
    ensures
        tag_view(found) == detected_language(text),
{
    if text.as_bytes().len() > MAX_DETECT_BYTES {
        return None;
    }
    let code = detect(text);
    lookup_639_3(code.as_str())
}

/// Detects the language of `text` and gives the two-letter code under which
/// it is served.
pub fn detect_language_code(text: &str) -> (code: Result<String, AppError>)
    ensures
        code_matches(code, detect_result(text@, detected_language(text))),
{
    detected_from(text, detect_language(text))
}

} // verus!
