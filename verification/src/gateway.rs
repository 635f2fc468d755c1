//! The rules of the gateway service around the bridge: who may call, which
//! model a directory stands for, and what a translation request comes to.

use crate::error::AppError;
use crate::language::{
    detect_language, detected_language, get_iso_code, parse_language_code, parse_result,
    serve_result, tag_matches, LanguageTag, TagView,
};
use crate::text::{
    before_first, chars_of, first_index, first_index_at, first_index_from, part_equals,
    same_text, starts_with,
};
use vstd::prelude::*;
use vstd::slice::slice_subrange;
use vstd::string::{StrSliceExecFns, StringExecFns};

verus! {

/// The key that an `Authorization` header carries: what follows `Bearer `.
pub open spec fn bearer_key(authorization: Seq<char>) -> Option<Seq<char>> {
    if "Bearer "@.is_prefix_of(authorization) {
        Some(authorization.subrange("Bearer "@.len() as int, authorization.len() as int))
    } else {
        None
    }
}

/// The key that one `name=value` pair of a query carries: the value of a pair
/// named `token`, up to a second `=`.
pub open spec fn token_of_pair(pair: Seq<char>) -> Option<Seq<char>> {
    if "token="@.is_prefix_of(pair) {
        Some(before_first(pair.subrange("token="@.len() as int, pair.len() as int), '='))
    } else {
        None
    }
}

/// The key that a query carries from position `from` on: that of the first
/// pair, among those that `&` separates, which carries one.
pub open spec fn query_key_from(query: Seq<char>, from: int) -> Option<Seq<char>>
    decreases query.len() - from,
{
    if from < 0 || from > query.len() {
        None
    } else {
        let end = first_index_from(query, '&', from);
        match token_of_pair(query.subrange(from, end)) {
            Some(key) => Some(key),
            None => if from <= end < query.len() {
                query_key_from(query, end + 1)
            } else {
                None
            },
        }
    }
}

/// The key that a query carries.
pub open spec fn query_key(query: Seq<char>) -> Option<Seq<char>> {
    query_key_from(query, 0)
}

/// Whether a request may pass: no key is configured, or the header or the
/// query carries the configured key.
pub open spec fn is_authorized(
    expected: Seq<char>,
    authorization: Option<Seq<char>>,
    query: Option<Seq<char>>,
) -> bool {
    ||| expected.len() == 0
    ||| (authorization matches Some(header) && bearer_key(header) == Some(expected))
    ||| (query matches Some(q) && query_key(q) == Some(expected))
}

/// Tests whether the header carries the key `expected`.
pub fn header_carries(authorization: &str, expected: &[char]) -> (carried: bool)
    ensures
        carried == (bearer_key(authorization@) == Some(expected@)),
{
    let header = chars_of(authorization);
    let prefix = chars_of("Bearer ");
    if !starts_with(header.as_slice(), prefix.as_slice()) {
        return false;
    }
    part_equals(header.as_slice(), prefix.len(), header.len(), expected)
}

/// Tests whether the pair carries the key `expected`; `None` where it
/// carries no key at all.
fn pair_carries(pair: &[char], expected: &[char]) -> (carried: Option<bool>)
    ensures
        match carried {
            Some(same) => token_of_pair(pair@) matches Some(key) && same == (key == expected@),
            None => token_of_pair(pair@) is None,
        },
{
    let name = chars_of("token=");
    if !starts_with(pair, name.as_slice()) {
        return None;
    }
    let value = slice_subrange(pair, name.len(), pair.len());
    let end = first_index(value, '=');
    Some(part_equals(value, 0, end, expected))
}

/// Tests whether the query carries the key `expected`.
pub fn query_carries(query: &str, expected: &[char]) -> (carried: bool)
    ensures
        carried == (query_key(query@) == Some(expected@)),
{
    let text = chars_of(query);
    let mut from: usize = 0;
    loop
        invariant
            from <= text.len(),
            text@ == query@,
            query_key(query@) == query_key_from(text@, from as int),
        decreases text.len() - from,
    {
        let end = first_index_at(text.as_slice(), '&', from);
        match pair_carries(slice_subrange(text.as_slice(), from, end), expected) {
            Some(same) => {
                return same;
            },
            None => {
                if end < text.len() {
                    from = end + 1;
                } else {
                    return false;
                }
            },
        }
    }
}

/// Decides whether a request may pass, from the configured key, the
/// `Authorization` header and the query string.
pub fn authorized(expected: &str, authorization: Option<&str>, query: Option<&str>) -> (allowed:
    bool)
    ensures
        allowed == is_authorized(
            expected@,
            match authorization {
                Some(header) => Some(header@),
                None => None,
            },
            match query {
                Some(q) => Some(q@),
                None => None,
            },
        ),
{
    let key = chars_of(expected);
    if key.len() == 0 {
        return true;
    }
    let by_header = match authorization {
        Some(header) => header_carries(header, key.as_slice()),
        None => false,
    };
    if by_header {
        return true;
    }
    match query {
        Some(q) => query_carries(q, key.as_slice()),
        None => false,
    }
}

/// Admits a request or refuses it as unauthorized, by `authorized`.
pub fn authorize(expected: &str, authorization: Option<&str>, query: Option<&str>) -> (admitted:
    Result<(), AppError>)
    ensures
        admitted == (if is_authorized(
            expected@,
            match authorization {
                Some(header) => Some(header@),
                None => None,
            },
            match query {
                Some(q) => Some(q@),
                None => None,
            },
        ) {
            Ok::<(), AppError>(())
        } else {
            Err::<(), AppError>(AppError::Unauthorized)
        }),
{
    if authorized(expected, authorization, query) {
        Ok(())
    } else {
        Err(AppError::Unauthorized)
    }
}

/// The text of the failure for a directory whose name is no language pair.
pub open spec fn invalid_pair_message(name: Seq<char>) -> Seq<char> {
    "Invalid language pair format: '"@ + name + "'. Expected format like 'enzh', 'jpen'"@
}

/// Splits the name of a model directory into the codes of its pair: the
/// first two characters and the two after them. A name of fewer than four
/// characters is a configuration error.
pub fn split_pair_name(name: &str) -> (codes: Result<(String, String), AppError>)
    ensures
        match codes {
            Ok((from, to)) => name@.len() >= 4 && from@ == name@.subrange(0, 2) && to@
                == name@.subrange(2, 4),
            Err(AppError::ConfigError(message)) => name@.len() < 4 && message@
                == invalid_pair_message(name@),
            Err(_) => false,
        },
{
    if name.unicode_len() >= 4 {
        Ok((name.substring_char(0, 2).to_owned(), name.substring_char(2, 4).to_owned()))
    } else {
        Err(
            AppError::ConfigError(
                String::from_str("Invalid language pair format: '").concat(name).concat(
                    "'. Expected format like 'enzh', 'jpen'",
                ),
            ),
        )
    }
}

/// The languages of the model that the directory `name` holds.
pub fn model_languages(name: &str) -> (pair: Result<(LanguageTag, LanguageTag), AppError>)
    ensures
        match pair {
            Ok((from, to)) => name@.len() >= 4 && parse_result(name@.subrange(0, 2)) == Ok::<
                TagView,
                Seq<char>,
            >(from@) && parse_result(name@.subrange(2, 4)) == Ok::<TagView, Seq<char>>(to@),
            Err(AppError::ConfigError(message)) => name@.len() < 4 && message@
                == invalid_pair_message(name@),
            Err(AppError::TranslationError(message)) => name@.len() >= 4 && (parse_result(
                name@.subrange(0, 2),
            ) == Err::<TagView, Seq<char>>(message@) || (parse_result(name@.subrange(0, 2)) is Ok
                && parse_result(name@.subrange(2, 4)) == Err::<TagView, Seq<char>>(message@))),
            Err(_) => false,
        },
{
    let (from, to) = match split_pair_name(name) {
        Ok(codes) => codes,
        Err(e) => {
            return Err(e);
        },
    };
    let source = match parse_language_code(from.as_str()) {
        Ok(tag) => tag,
        Err(e) => {
            return Err(e);
        },
    };
    let target = match parse_language_code(to.as_str()) {
        Ok(tag) => tag,
        Err(e) => {
            return Err(e);
        },
    };
    Ok((source, target))
}

/// What a translation request comes to, as contracts see it.
pub enum PlanView {
    /// Source and target are served under one code: the text is the answer.
    Echo { text: Seq<char>, from: Seq<char>, to: Seq<char> },
    /// The text goes to the dispatcher, under these codes.
    Forward { from: Seq<char>, to: Seq<char> },
}

/// What a translation request comes to.
#[derive(Debug, PartialEq, Eq)]
pub enum TranslationPlan {
    /// Source and target are served under one code: the text is the answer.
    Echo { text: String, from: String, to: String },
    /// The text goes to the dispatcher, under these codes.
    Forward { from: String, to: String },
}

impl TranslationPlan {
    /// The plan as contracts see it.
    pub open spec fn view(&self) -> PlanView {
        match *self {
            TranslationPlan::Echo { text, from, to } => PlanView::Echo {
                text: text@,
                from: from@,
                to: to@,
            },
            TranslationPlan::Forward { from, to } => PlanView::Forward { from: from@, to: to@ },
        }
    }
}

/// The languages of a list of models.
pub open spec fn model_views(models: Seq<(LanguageTag, LanguageTag)>) -> Seq<(TagView, TagView)> {
    models.map_values(|m: (LanguageTag, LanguageTag)| (m.0@, m.1@))
}

/// Whether a model from `source` to `target` is among `models`; languages
/// are told apart by their ISO 639-3 codes.
pub open spec fn serves(models: Seq<(TagView, TagView)>, source: TagView, target: TagView) -> bool {
    exists|i: int|
        0 <= i < models.len() && (#[trigger] models[i]).0.0 == source.0 && models[i].1.0
            == target.0
}

/// The text of the failure for a pair without a model.
pub open spec fn unsupported_message(from: Seq<char>, to: Seq<char>) -> Seq<char> {
    "Translation"@ + direction(from, to) + " is not supported (model not loaded)"@
}

/// The two codes of a pair as a failure quotes them.
pub open spec fn direction(from: Seq<char>, to: Seq<char>) -> Seq<char> {
    " from '"@ + from + "' to '"@ + to + "'"@
}

/// The text of the failure for a text whose language is not detected.
pub open spec fn undetected_message(text: Seq<char>) -> Seq<char> {
    "Failed to detect language for text: '"@ + text + "'"@
}

/// Whether the request names no source language: none is given, or it is
/// empty or `auto`.
pub open spec fn is_automatic(from_lang: Option<Seq<char>>) -> bool {
    match from_lang {
        None => true,
        Some(code) => code == ""@ || code == "auto"@,
    }
}

/// The source language of a request. Where the request names one it is
/// parsed. Otherwise a gateway with a single model takes the source of that
/// model, and any other gateway detects the language of the text.
pub open spec fn source_result(
    models: Seq<(TagView, TagView)>,
    text: &str,
    from_lang: Option<Seq<char>>,
) -> Result<TagView, Seq<char>> {
    if is_automatic(from_lang) {
        if models.len() == 1 {
            Ok(models[0].0)
        } else {
            match detected_language(text) {
                Some(tag) => Ok(tag),
                None => Err(undetected_message(text@)),
            }
        }
    } else {
        parse_result(from_lang->0)
    }
}

/// What a request for `text` from `source` to `target` comes to: a failure
/// where either language has no served code; the text itself where both are
/// served under one code; a failure where no model serves the pair; else the
/// call to forward.
pub open spec fn plan_result(
    models: Seq<(TagView, TagView)>,
    text: Seq<char>,
    source: TagView,
    target: TagView,
) -> Result<PlanView, Seq<char>> {
    match (serve_result(source), serve_result(target)) {
        (Err(reason), _) => Err(reason),
        (Ok(_), Err(reason)) => Err(reason),
        (Ok(from), Ok(to)) => if from == to {
            Ok(PlanView::Echo { text, from, to })
        } else if !serves(models, source, target) {
            Err(unsupported_message(from, to))
        } else {
            Ok(PlanView::Forward { from, to })
        },
    }
}

/// What a translation request comes to, from the source given or detected
/// and the target given.
pub open spec fn request_result(
    models: Seq<(TagView, TagView)>,
    text: &str,
    from_lang: Option<Seq<char>>,
    to_lang: Seq<char>,
) -> Result<PlanView, Seq<char>> {
    match (source_result(models, text, from_lang), parse_result(to_lang)) {
        (Err(reason), _) => Err(reason),
        (Ok(_), Err(reason)) => Err(reason),
        (Ok(source), Ok(target)) => plan_result(models, text@, source, target),
    }
}

/// Whether `got` is the plan `want`, or a translation error with the text
/// `want`.
pub open spec fn plan_matches(got: Result<TranslationPlan, AppError>, want: Result<
    PlanView,
    Seq<char>,
>) -> bool {
    match (got, want) {
        (Ok(plan), Ok(view)) => plan@ == view,
        (Err(AppError::TranslationError(message)), Err(text)) => message@ == text,
        _ => false,
    }
}

/// Tests whether a model from `source` to `target` is among `models`.
pub fn has_model(models: &Vec<(LanguageTag, LanguageTag)>, source: &LanguageTag, target: &LanguageTag) -> (found: bool)
    ensures
        found == serves(model_views(models@), source@, target@),
{
    let mut i: usize = 0;
    while i < models.len()
        invariant
            i <= models.len(),
            forall|j: int|
                0 <= j < i ==> !((#[trigger] model_views(models@)[j]).0.0 == source@.0
                    && model_views(models@)[j].1.0 == target@.0),
        decreases models.len() - i,
    {
        if models[i].0.same_language(source) && models[i].1.same_language(target) {
            assert(model_views(models@)[i as int] == (models@[i as int].0@, models@[i as int].1@));
            return true;
        }
        assert(model_views(models@)[i as int] == (models@[i as int].0@, models@[i as int].1@));
        i += 1;
    }
    false
}

/// Determines the source language of a request.
pub fn choose_source(models: &Vec<(LanguageTag, LanguageTag)>, text: &str, from_lang: Option<&str>) -> (source: Result<LanguageTag, AppError>)
    ensures
        tag_matches(
            source,
            source_result(
                model_views(models@),
                text,
                match from_lang {
                    Some(code) => Some(code@),
                    None => None,
                },
            ),
        ),
{
    let named = match from_lang {
        None => None,
        Some(code) => if same_text(code, "") || same_text(code, "auto") {
            None
        } else {
            Some(code)
        },
    };
    match named {
        Some(code) => parse_language_code(code),
        None => {
            if models.len() == 1 {
                assert(model_views(models@)[0] == (models@[0].0@, models@[0].1@));
                Ok(models[0].0.duplicate())
            } else {
                match detect_language(text) {
                    Some(tag) => Ok(tag),
                    None => Err(
                        AppError::TranslationError(
                            String::from_str("Failed to detect language for text: '").concat(
                                text,
                            ).concat("'"),
                        ),
                    ),
                }
            }
        },
    }
}

/// The two codes of a pair as a failure quotes them.
fn quoted(from: &String, to: &String) -> (text: String)
    ensures
        text@ == direction(from@, to@),
{
    String::from_str(" from '").concat(from.as_str()).concat("' to '").concat(to.as_str()).concat(
        "'",
    )
}

/// Decides what a request for `text` from `source` to `target` comes to.
pub fn plan_translation(models: &Vec<(LanguageTag, LanguageTag)>, text: &str, source: &LanguageTag, target: &LanguageTag) -> (plan: Result<TranslationPlan, AppError>)
    ensures
        plan_matches(plan, plan_result(model_views(models@), text@, source@, target@)),
{
    let from = match get_iso_code(source) {
        Ok(code) => code,
        Err(e) => {
            return Err(e);
        },
    };
    let to = match get_iso_code(target) {
        Ok(code) => code,
        Err(e) => {
            return Err(e);
        },
    };
    if from == to {
        return Ok(TranslationPlan::Echo { text: text.to_owned(), from, to });
    }
    if !has_model(models, source, target) {
        return Err(
            AppError::TranslationError(
                String::from_str("Translation").concat(quoted(&from, &to).as_str()).concat(
                    " is not supported (model not loaded)",
                ),
            ),
        );
    }
    Ok(TranslationPlan::Forward { from, to })
}

/// Decides what a translation request comes to: the source language is the
/// one given, or the one of the single model, or the one detected; the
/// target is parsed; then the plan follows from the two.
pub fn perform_translation(models: &Vec<(LanguageTag, LanguageTag)>, text: &str, from_lang: Option<String>, to_lang: &str) -> (plan: Result<TranslationPlan, AppError>)
    ensures
        plan_matches(
            plan,
            request_result(
                model_views(models@),
                text,
                match from_lang {
                    Some(code) => Some(code@),
                    None => None,
                },
                to_lang@,
            ),
        ),
{
    let given = match &from_lang {
        Some(code) => Some(code.as_str()),
        None => None,
    };
    let source = match choose_source(models, text, given) {
        Ok(tag) => tag,
        Err(e) => {
            return Err(e);
        },
    };
    let target = match parse_language_code(to_lang) {
        Ok(tag) => tag,
        Err(e) => {
            return Err(e);
        },
    };
    plan_translation(models, text, &source, &target)
}

/// Concludes a forwarded translation: the translated text with the two
/// codes, or a translation error that carries the dispatcher's reason.
pub fn finish_translation(from: String, to: String, outcome: Result<String, String>) -> (answer:
    Result<(String, String, String), AppError>)
    ensures
        match (outcome, answer) {
            (Ok(text), Ok((translated, source, target))) => translated == text && source == from
                && target == to,
            (Err(reason), Err(AppError::TranslationError(message))) => message == reason,
            _ => false,
        },
{
    match outcome {
        Ok(text) => Ok((text, from, to)),
        Err(reason) => Err(AppError::TranslationError(reason)),
    }
}

} // verus!
