use vstd::prelude::*;

use crate::error::Error;
use crate::http::{header, header_views, HttpMethod, HttpRequest};
use crate::llm::{ProviderConfig, Translation, TranslationRequest, TranslationResponse};
use crate::text::{chars_of, concat, ends_with, occurs_at_exec, owned, push_str, views};

verus! {

/// The endpoint for keys of the free plan.
pub open spec fn free_api_base() -> Seq<char> {
    "https://api-free.deepl.com/v2"@
}

/// The endpoint for keys of paid plans.
pub open spec fn pro_api_base() -> Seq<char> {
    "https://api.deepl.com/v2"@
}

/// The base URL a client uses: the configured one, else the free endpoint for a
/// key ending in `:fx` and the paid one for any other key.
pub open spec fn deepl_base(api_key: Seq<char>, configured: Option<Seq<char>>) -> Seq<char> {
    match configured {
        Some(u) => u,
        None => if ends_with(api_key, ":fx"@) { free_api_base() } else { pro_api_base() },
    }
}

/// A client of the DeepL translation API.
#[derive(Debug)]
pub struct DeepLClient {
    api_key: String,
    base_url: String,
}

impl DeepLClient {
    pub closed spec fn key(self) -> Seq<char> {
        self.api_key@
    }

    pub closed spec fn base(self) -> Seq<char> {
        self.base_url@
    }

    pub fn new(config: ProviderConfig) -> (r: Self)
        ensures
            r.key() == config.api_key@,
            r.base() == deepl_base(config.api_key@, match config.base_url {
                Some(u) => Some(u@),
                None => None,
            }),
    {
        let key = chars_of(config.api_key.as_str());
        let fx = chars_of(":fx");
        let is_free = fx.len() <= key.len() && occurs_at_exec(&key, &fx, key.len() - fx.len());
        let base_url = match config.base_url {
            Some(u) => u,
            None => if is_free {
                owned("https://api-free.deepl.com/v2")
            } else {
                owned("https://api.deepl.com/v2")
            },
        };
        DeepLClient { api_key: config.api_key, base_url }
    }

    pub fn from_api_key(api_key: String) -> (r: Self)
        ensures
            r.key() == api_key@,
            r.base() == deepl_base(api_key@, None),
    {
        DeepLClient::new(ProviderConfig::new(api_key))
    }

    /// A request to `path` under the base URL, with the key and JSON headers.
    pub fn request(&self, method: HttpMethod, path: &str) -> (r: HttpRequest)
        ensures
            r.method == method,
            r.url@ == self.base() + path@,
            header_views(r.headers@) == seq![
                ("Authorization"@, "DeepL-Auth-Key "@ + self.key()),
                ("Content-Type"@, "application/json"@),
            ],
    {
        let url = concat(self.base_url.as_str(), path);
        let auth = concat("DeepL-Auth-Key ", self.api_key.as_str());
        let mut headers: Vec<(String, String)> = Vec::new();
        headers.push((owned("Authorization"), auth));
        headers.push(header("Content-Type", "application/json"));
        proof {
            assert(header_views(headers@) =~= seq![
                ("Authorization"@, "DeepL-Auth-Key "@ + self.key()),
                ("Content-Type"@, "application/json"@),
            ]);
        }
        HttpRequest { method, url, headers }
    }
}

/// The path listing languages, optionally of one type (`source` or `target`).
pub fn languages_path(lang_type: Option<&str>) -> (r: String)
    ensures
        r@ == match lang_type {
            Some(t) => "/languages?type="@ + t@,
            None => "/languages"@,
        },
{
    match lang_type {
        Some(t) => concat("/languages?type=", t),
        None => owned("/languages"),
    }
}

/// The path of a document's status: `/document/<id>`.
pub fn document_path(document_id: &str) -> (r: String)
    ensures
        r@ == "/document/"@ + document_id@,
{
    concat("/document/", document_id)
}

/// The path of a translated document: `/document/<id>/result`.
pub fn document_result_path(document_id: &str) -> (r: String)
    ensures
        r@ == "/document/"@ + document_id@ + "/result"@,
{
    let mut r = concat("/document/", document_id);
    push_str(&mut r, "/result");
    r
}

/// The path of one glossary: `/glossaries/<id>`.
pub fn glossary_path(glossary_id: &str) -> (r: String)
    ensures
        r@ == "/glossaries/"@ + glossary_id@,
{
    concat("/glossaries/", glossary_id)
}

/// A translation request as DeepL takes it.
#[derive(Debug)]
pub struct DeepLTranslateRequest {
    pub text: Vec<String>,
    pub target_lang: String,
    pub source_lang: Option<String>,
    pub formality: Option<String>,
    pub preserve_formatting: Option<bool>,
    pub tag_handling: Option<String>,
    pub glossary_id: Option<String>,
    pub split_sentences: Option<String>,
}

impl DeepLTranslateRequest {
    /// Texts to translate into `target_lang`, with no other option set.
    pub fn new(text: Vec<String>, target_lang: String) -> (r: Self)
        ensures
            r.text == text,
            r.target_lang == target_lang,
            r.source_lang is None,
            r.formality is None,
            r.preserve_formatting is None,
            r.tag_handling is None,
            r.glossary_id is None,
            r.split_sentences is None,
    {
        DeepLTranslateRequest {
            text,
            target_lang,
            source_lang: None,
            formality: None,
            preserve_formatting: None,
            tag_handling: None,
            glossary_id: None,
            split_sentences: None,
        }
    }

    /// One text to translate.
    pub fn single(text: String, target_lang: String) -> (r: Self)
        ensures
            r.text@ == seq![text],
            r.target_lang == target_lang,
            r.source_lang is None,
            r.formality is None,
            r.preserve_formatting is None,
            r.tag_handling is None,
            r.glossary_id is None,
            r.split_sentences is None,
    {
        let mut texts: Vec<String> = Vec::new();
        texts.push(text);
        DeepLTranslateRequest::new(texts, target_lang)
    }

    pub fn with_source_lang(self, lang: String) -> (r: Self)
        ensures
            r == (DeepLTranslateRequest { source_lang: Some(lang), ..self }),
    {
        DeepLTranslateRequest { source_lang: Some(lang), ..self }
    }

    pub fn with_formality(self, formality: String) -> (r: Self)
        ensures
            r == (DeepLTranslateRequest { formality: Some(formality), ..self }),
    {
        DeepLTranslateRequest { formality: Some(formality), ..self }
    }

    pub fn with_glossary(self, glossary_id: String) -> (r: Self)
        ensures
            r == (DeepLTranslateRequest { glossary_id: Some(glossary_id), ..self }),
    {
        DeepLTranslateRequest { glossary_id: Some(glossary_id), ..self }
    }
}

/// The translations DeepL returns.
#[derive(Debug)]
pub struct DeepLTranslateResponse {
    pub translations: Vec<DeepLTranslation>,
}

#[derive(Debug)]
pub struct DeepLTranslation {
    pub text: String,
    pub detected_source_language: String,
}

/// The characters (and documents) used and allowed in the billing period.
#[derive(Debug)]
pub struct UsageResponse {
    pub character_count: u64,
    pub character_limit: u64,
    pub document_count: Option<u64>,
    pub document_limit: Option<u64>,
}

#[derive(Debug)]
pub struct Language {
    pub language: String,
    pub name: String,
    pub supports_formality: Option<bool>,
}

#[derive(Debug)]
pub struct DocumentUploadResponse {
    pub document_id: String,
    pub document_key: String,
}

#[derive(Debug)]
pub struct DocumentStatusResponse {
    pub document_id: String,
    pub status: String,
    pub seconds_remaining: Option<u64>,
    pub billed_characters: Option<u64>,
    pub error_message: Option<String>,
}

#[derive(Debug)]
pub struct CreateGlossaryRequest {
    pub name: String,
    pub source_lang: String,
    pub target_lang: String,
    pub entries: String,
    pub entries_format: String,
}

#[derive(Debug)]
pub struct GlossaryListResponse {
    pub glossaries: Vec<Glossary>,
}

#[derive(Debug)]
pub struct Glossary {
    pub glossary_id: String,
    pub name: String,
    pub ready: bool,
    pub source_lang: String,
    pub target_lang: String,
    pub creation_time: String,
    pub entry_count: u64,
}

/// The DeepL request for a provider-neutral translation request: same texts,
/// languages, formality and formatting choice; no tag handling, glossary or
/// sentence splitting.
pub fn translate_request_for(request: TranslationRequest) -> (r: DeepLTranslateRequest)
    ensures
        r == (DeepLTranslateRequest {
            text: request.text,
            target_lang: request.target_language,
            source_lang: request.source_language,
            formality: request.formality,
            preserve_formatting: request.preserve_formatting,
            tag_handling: None,
            glossary_id: None,
            split_sentences: None,
        }),
{
    DeepLTranslateRequest {
        text: request.text,
        target_lang: request.target_language,
        source_lang: request.source_language,
        formality: request.formality,
        preserve_formatting: request.preserve_formatting,
        tag_handling: None,
        glossary_id: None,
        split_sentences: None,
    }
}

pub open spec fn translation_views(t: Seq<Translation>) -> Seq<(Seq<char>, Option<Seq<char>>)> {
    t.map_values(|x: Translation| (x.text@, match x.detected_source_language {
        Some(l) => Some(l@),
        None => None,
    }))
}

pub open spec fn deepl_translation_views(t: Seq<DeepLTranslation>) -> Seq<(Seq<char>, Option<Seq<char>>)> {
    t.map_values(|x: DeepLTranslation| (x.text@, Some(x.detected_source_language@)))
}

/// A DeepL response as provider-neutral translations, each with its detected language.
pub fn translation_response_from(response: DeepLTranslateResponse) -> (r: TranslationResponse)
    ensures
        translation_views(r.translations@) == deepl_translation_views(response.translations@),
{
    let mut out: Vec<Translation> = Vec::new();
    let mut i: usize = 0;
    let ts = response.translations;
    while i < ts.len()
        invariant
            i <= ts.len(),
            translation_views(out@) == deepl_translation_views(ts@.take(i as int)),
        decreases ts.len() - i,
    {
        let t = &ts[i];
        proof {
            assert(ts@.take(i + 1) =~= ts@.take(i as int).push(ts@[i as int]));
        }
        let ghost prev = out@;
        let item = Translation { text: t.text.clone(), detected_source_language: Some(t.detected_source_language.clone()) };
        out.push(item);
        proof {
            assert(out@ == prev.push(item));
            assert(translation_views(out@) =~= translation_views(prev).push((item.text@, Some(t.detected_source_language@))));
            assert(deepl_translation_views(ts@.take(i + 1)) =~= deepl_translation_views(ts@.take(i as int)).push((t.text@, Some(t.detected_source_language@))));
        }
        i = i + 1;
    }
    proof {
        assert(ts@.take(ts@.len() as int) =~= ts@);
    }
    TranslationResponse { translations: out }
}

/// The detection request for a text: the text translated into English.
pub fn detect_request(text: &str) -> (r: DeepLTranslateRequest)
    ensures
        r.text@.len() == 1,
        r.text@[0]@ == text@,
        r.target_lang@ == "EN"@,
        r.source_lang is None,
        r.formality is None,
        r.preserve_formatting is None,
        r.tag_handling is None,
        r.glossary_id is None,
        r.split_sentences is None,
{
    DeepLTranslateRequest::single(owned(text), owned("EN"))
}

/// The language detected for the first text, or an error when DeepL returned nothing.
pub fn detected_language(response: &DeepLTranslateResponse) -> (r: Result<String, Error>)
    ensures
        response.translations@.len() > 0 ==> (r matches Ok(l) && l@ == response.translations@[0].detected_source_language@),
        response.translations@.len() == 0 ==> (r matches Err(Error::Api { message, code }) && message@ == "No translation returned"@ && code is None),
{
    if response.translations.len() > 0 {
        Ok(response.translations[0].detected_source_language.clone())
    } else {
        Err(Error::Api { message: owned("No translation returned"), code: None })
    }
}

pub open spec fn language_code_views(l: Seq<Language>) -> Seq<Seq<char>> {
    l.map_values(|x: Language| x.language@)
}

/// The codes of the languages, in order.
pub fn language_codes(languages: &Vec<Language>) -> (r: Vec<String>)
    ensures
        views(r@) == language_code_views(languages@),
{
    let mut out: Vec<String> = Vec::new();
    let mut i: usize = 0;
    while i < languages.len()
        invariant
            i <= languages.len(),
            views(out@) == language_code_views(languages@.take(i as int)),
        decreases languages.len() - i,
    {
        proof {
            assert(languages@.take(i + 1) =~= languages@.take(i as int).push(languages@[i as int]));
        }
        let ghost prev = out@;
        let code = languages[i].language.clone();
        out.push(code);
        proof {
            assert(out@ == prev.push(code));
            assert(views(out@) =~= views(prev).push(code@));
            assert(language_code_views(languages@.take(i + 1)) =~= language_code_views(languages@.take(i as int)).push(languages@[i as int].language@));
        }
        i = i + 1;
        proof {
            assert(views(out@) =~= language_code_views(languages@.take(i as int)));
        }
    }
    proof {
        assert(languages@.take(languages@.len() as int) =~= languages@);
    }
    out
}

} // verus!
