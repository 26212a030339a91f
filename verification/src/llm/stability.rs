use vstd::prelude::*;

use crate::http::{header, header_views, HttpMethod, HttpRequest};
use crate::llm::{ImageData, ImageRequest, ImageResponse, ProviderConfig};
use crate::llm::runway::opt_view;
use crate::text::{concat, decimal, decimal_string, lemma_seq_add_contains, owned};

verus! {

/// The default endpoint of the Stability API.
pub open spec fn stability_api_base() -> Seq<char> {
    "https://api.stability.ai/v2beta"@
}

/// A client of the Stability image API.
#[derive(Debug)]
pub struct StabilityClient {
    api_key: String,
    base_url: String,
}

impl StabilityClient {
    pub closed spec fn key(self) -> Seq<char> {
        self.api_key@
    }

    pub closed spec fn base(self) -> Seq<char> {
        self.base_url@
    }

    pub fn new(config: ProviderConfig) -> (r: Self)
        ensures
            r.key() == config.api_key@,
            r.base() == match config.base_url {
                Some(u) => u@,
                None => stability_api_base(),
            },
    {
        let base_url = match config.base_url {
            Some(u) => u,
            None => owned("https://api.stability.ai/v2beta"),
        };
        StabilityClient { api_key: config.api_key, base_url }
    }

    pub fn from_api_key(api_key: String) -> (r: Self)
        ensures
            r.key() == api_key@,
            r.base() == stability_api_base(),
    {
        StabilityClient::new(ProviderConfig::new(api_key))
    }

    /// A request to `path` with the bearer key, asking for JSON.
    pub fn request(&self, method: HttpMethod, path: &str) -> (r: HttpRequest)
        ensures
            r.method == method,
            r.url@ == self.base() + path@,
            header_views(r.headers@) == seq![
                ("Authorization"@, "Bearer "@ + self.key()),
                ("Accept"@, "application/json"@),
            ],
    {
        let url = concat(self.base_url.as_str(), path);
        let auth = concat("Bearer ", self.api_key.as_str());
        let mut headers: Vec<(String, String)> = Vec::new();
        headers.push((owned("Authorization"), auth));
        headers.push(header("Accept", "application/json"));
        proof {
            assert(header_views(headers@) =~= seq![
                ("Authorization"@, "Bearer "@ + self.key()),
                ("Accept"@, "application/json"@),
            ]);
        }
        HttpRequest { method, url, headers }
    }
}

/// A Stable Diffusion 3 generation request.
#[derive(Debug)]
pub struct SD3Request {
    pub prompt: String,
    pub model: Option<String>,
    pub negative_prompt: Option<String>,
    pub aspect_ratio: Option<String>,
    pub seed: Option<u64>,
    pub output_format: Option<String>,
}

impl Default for SD3Request {
    fn default() -> (r: Self)
        ensures
            r.prompt@ == Seq::<char>::empty(),
            r.model is None,
            r.negative_prompt is None,
            r.aspect_ratio is None,
            r.seed is None,
            r.output_format is None,
    {
        SD3Request {
            prompt: String::new(),
            model: None,
            negative_prompt: None,
            aspect_ratio: None,
            seed: None,
            output_format: None,
        }
    }
}

impl SD3Request {
    pub fn new(prompt: String) -> (r: Self)
        ensures
            r == (SD3Request {
                prompt,
                model: None,
                negative_prompt: None,
                aspect_ratio: None,
                seed: None,
                output_format: None,
            }),
    {
        SD3Request { prompt, model: None, negative_prompt: None, aspect_ratio: None, seed: None, output_format: None }
    }

    pub fn with_model(self, model: String) -> (r: Self)
        ensures
            r == (SD3Request { model: Some(model), ..self }),
    {
        SD3Request { model: Some(model), ..self }
    }

    pub fn with_aspect_ratio(self, ar: String) -> (r: Self)
        ensures
            r == (SD3Request { aspect_ratio: Some(ar), ..self }),
    {
        SD3Request { aspect_ratio: Some(ar), ..self }
    }

    pub fn with_negative_prompt(self, prompt: String) -> (r: Self)
        ensures
            r == (SD3Request { negative_prompt: Some(prompt), ..self }),
    {
        SD3Request { negative_prompt: Some(prompt), ..self }
    }
}

/// A Stable Image Ultra generation request.
#[derive(Debug)]
pub struct UltraRequest {
    pub prompt: String,
    pub negative_prompt: Option<String>,
    pub aspect_ratio: Option<String>,
    pub seed: Option<u64>,
    pub output_format: Option<String>,
}

impl Default for UltraRequest {
    fn default() -> (r: Self)
        ensures
            r.prompt@ == Seq::<char>::empty(),
            r.negative_prompt is None,
            r.aspect_ratio is None,
            r.seed is None,
            r.output_format is None,
    {
        UltraRequest { prompt: String::new(), negative_prompt: None, aspect_ratio: None, seed: None, output_format: None }
    }
}

impl UltraRequest {
    pub fn new(prompt: String) -> (r: Self)
        ensures
            r == (UltraRequest { prompt, negative_prompt: None, aspect_ratio: None, seed: None, output_format: None }),
    {
        UltraRequest { prompt, negative_prompt: None, aspect_ratio: None, seed: None, output_format: None }
    }

    pub fn with_aspect_ratio(self, ar: String) -> (r: Self)
        ensures
            r == (UltraRequest { aspect_ratio: Some(ar), ..self }),
    {
        UltraRequest { aspect_ratio: Some(ar), ..self }
    }
}

pub open spec fn field_views(f: Seq<(String, String)>) -> Seq<(Seq<char>, Seq<char>)> {
    f.map_values(|p: (String, String)| (p.0@, p.1@))
}

/// An optional form field: present only when the value is.
pub open spec fn optional_field(name: Seq<char>, value: Option<Seq<char>>) -> Seq<(Seq<char>, Seq<char>)> {
    match value {
        Some(v) => seq![(name, v)],
        None => Seq::empty(),
    }
}

pub open spec fn seed_text(seed: Option<u64>) -> Option<Seq<char>> {
    match seed {
        Some(s) => Some(decimal(s as nat)),
        None => None,
    }
}

/// The form of an SD3 request: the prompt, the output format (`png` unless
/// chosen), then model, negative prompt, aspect ratio and seed when given.
pub open spec fn sd3_fields(r: SD3Request) -> Seq<(Seq<char>, Seq<char>)> {
    seq![("prompt"@, r.prompt@), ("output_format"@, match r.output_format { Some(f) => f@, None => "png"@ })]
        + optional_field("model"@, opt_view(r.model))
        + optional_field("negative_prompt"@, opt_view(r.negative_prompt))
        + optional_field("aspect_ratio"@, opt_view(r.aspect_ratio))
        + optional_field("seed"@, seed_text(r.seed))
}

/// The form of an Ultra request: as for SD3, without a model.
pub open spec fn ultra_fields(r: UltraRequest) -> Seq<(Seq<char>, Seq<char>)> {
    seq![("prompt"@, r.prompt@), ("output_format"@, match r.output_format { Some(f) => f@, None => "png"@ })]
        + optional_field("negative_prompt"@, opt_view(r.negative_prompt))
        + optional_field("aspect_ratio"@, opt_view(r.aspect_ratio))
        + optional_field("seed"@, seed_text(r.seed))
}

fn push_optional(fields: &mut Vec<(String, String)>, name: &str, value: &Option<String>)
    ensures
        field_views(final(fields)@) == field_views(old(fields)@) + optional_field(name@, opt_view(*value)),
{
    let ghost before = fields@;
    match value {
        Some(v) => {
            fields.push((owned(name), v.clone()));
            proof {
                assert(field_views(fields@) =~= field_views(before) + optional_field(name@, opt_view(*value)));
            }
        },
        None => {
            proof {
                assert(field_views(fields@) =~= field_views(before) + optional_field(name@, opt_view(*value)));
            }
        },
    }
}

fn push_seed(fields: &mut Vec<(String, String)>, seed: Option<u64>)
    ensures
        field_views(final(fields)@) == field_views(old(fields)@) + optional_field("seed"@, seed_text(seed)),
{
    let ghost before = fields@;
    match seed {
        Some(s) => {
            fields.push((owned("seed"), decimal_string(s)));
            proof {
                assert(field_views(fields@) =~= field_views(before) + optional_field("seed"@, seed_text(seed)));
            }
        },
        None => {
            proof {
                assert(field_views(fields@) =~= field_views(before) + optional_field("seed"@, seed_text(seed)));
            }
        },
    }
}

fn base_fields(prompt: &String, output_format: &Option<String>) -> (r: Vec<(String, String)>)
    ensures
        field_views(r@) == seq![("prompt"@, prompt@), ("output_format"@, match output_format { Some(f) => f@, None => "png"@ })],
{
    let format = match output_format {
        Some(f) => f.clone(),
        None => owned("png"),
    };
    let mut fields: Vec<(String, String)> = Vec::new();
    fields.push((owned("prompt"), prompt.clone()));
    fields.push((owned("output_format"), format));
    proof {
        assert(field_views(fields@) =~= seq![("prompt"@, prompt@), ("output_format"@, match output_format { Some(f) => f@, None => "png"@ })]);
    }
    fields
}

/// The text fields of the form that generates an SD3 image.
pub fn sd3_form_fields(request: &SD3Request) -> (r: Vec<(String, String)>)
    ensures
        field_views(r@) == sd3_fields(*request),
{
    let mut fields = base_fields(&request.prompt, &request.output_format);
    push_optional(&mut fields, "model", &request.model);
    push_optional(&mut fields, "negative_prompt", &request.negative_prompt);
    push_optional(&mut fields, "aspect_ratio", &request.aspect_ratio);
    push_seed(&mut fields, request.seed);
    proof {
        assert(field_views(fields@) =~= sd3_fields(*request));
    }
    fields
}

/// The text fields of the form that generates an Ultra image.
pub fn ultra_form_fields(request: &UltraRequest) -> (r: Vec<(String, String)>)
    ensures
        field_views(r@) == ultra_fields(*request),
{
    let mut fields = base_fields(&request.prompt, &request.output_format);
    push_optional(&mut fields, "negative_prompt", &request.negative_prompt);
    push_optional(&mut fields, "aspect_ratio", &request.aspect_ratio);
    push_seed(&mut fields, request.seed);
    proof {
        assert(field_views(fields@) =~= ultra_fields(*request));
    }
    fields
}

/// The text fields sent with an image to upscale: PNG output, and the prompt when given.
pub fn upscale_form_fields(prompt: Option<&str>) -> (r: Vec<(String, String)>)
    ensures
        field_views(r@) == seq![("output_format"@, "png"@)] + match prompt {
            Some(p) => seq![("prompt"@, p@)],
            None => Seq::empty(),
        },
{
    let mut fields: Vec<(String, String)> = Vec::new();
    fields.push((owned("output_format"), owned("png")));
    match prompt {
        Some(p) => {
            fields.push((owned("prompt"), owned(p)));
        },
        None => {},
    }
    proof {
        assert(field_views(fields@) =~= seq![("output_format"@, "png"@)] + match prompt {
            Some(p) => seq![("prompt"@, p@)],
            None => Seq::empty(),
        });
    }
    fields
}

/// The text fields sent with an image to transform by a prompt: the prompt
/// and PNG output. A strength, which is floating point, is added by the
/// caller when given.
pub fn image_to_image_form_fields(prompt: &str) -> (r: Vec<(String, String)>)
    ensures
        field_views(r@) == seq![("prompt"@, prompt@), ("output_format"@, "png"@)],
{
    let mut fields: Vec<(String, String)> = Vec::new();
    fields.push((owned("prompt"), owned(prompt)));
    fields.push((owned("output_format"), owned("png")));
    proof {
        assert(field_views(fields@) =~= seq![("prompt"@, prompt@), ("output_format"@, "png"@)]);
    }
    fields
}

/// The text fields sent with an image whose background is to be removed:
/// PNG output.
pub fn remove_background_form_fields() -> (r: Vec<(String, String)>)
    ensures
        field_views(r@) == seq![("output_format"@, "png"@)],
{
    let mut fields: Vec<(String, String)> = Vec::new();
    fields.push((owned("output_format"), owned("png")));
    proof {
        assert(field_views(fields@) =~= seq![("output_format"@, "png"@)]);
    }
    fields
}

/// The SD3 request for a provider-neutral image request: the size becomes the
/// aspect ratio and the response format the output format.
pub fn sd3_request_for(request: ImageRequest) -> (r: SD3Request)
    ensures
        r == (SD3Request {
            prompt: request.prompt,
            model: request.model,
            negative_prompt: None,
            aspect_ratio: request.size,
            seed: None,
            output_format: request.response_format,
        }),
{
    SD3Request {
        prompt: request.prompt,
        model: request.model,
        negative_prompt: None,
        aspect_ratio: request.size,
        seed: None,
        output_format: request.response_format,
    }
}

/// A generated image as a response: one base64 image, no link, created at 0.
pub fn image_response(image: String) -> (r: ImageResponse)
    ensures
        r.created == 0,
        r.data@.len() == 1,
        r.data@[0].url is None,
        r.data@[0].b64_json == Some(image),
        r.data@[0].revised_prompt is None,
{
    let mut data: Vec<ImageData> = Vec::new();
    data.push(ImageData { url: None, b64_json: Some(image), revised_prompt: None });
    ImageResponse { created: 0, data }
}

/// A field `(name, v)` of an optional field named `n` is there exactly when
/// the names agree and the value is given as `v`.
proof fn lemma_optional_field_contains(n: Seq<char>, value: Option<Seq<char>>, name: Seq<char>, v: Seq<char>)
    ensures
        optional_field(n, value).contains((name, v)) <==> (name == n && value == Some(v)),
{
    match value {
        Some(x) => {
            if optional_field(n, value).contains((name, v)) {
                assert(optional_field(n, value)[0] == (n, x));
            }
            if name == n && value == Some(v) {
                assert(optional_field(n, value)[0] == (name, v));
            }
        },
        None => {},
    }
}

proof fn lemma_field_names_distinct()
    ensures
        "prompt"@ != "output_format"@, "prompt"@ != "model"@, "prompt"@ != "negative_prompt"@,
        "prompt"@ != "aspect_ratio"@, "prompt"@ != "seed"@,
        "output_format"@ != "model"@, "output_format"@ != "negative_prompt"@,
        "output_format"@ != "aspect_ratio"@, "output_format"@ != "seed"@,
        "model"@ != "negative_prompt"@, "model"@ != "aspect_ratio"@, "model"@ != "seed"@,
        "negative_prompt"@ != "aspect_ratio"@, "negative_prompt"@ != "seed"@, "aspect_ratio"@ != "seed"@,
{
    reveal_strlit("prompt");
    reveal_strlit("output_format");
    reveal_strlit("model");
    reveal_strlit("negative_prompt");
    reveal_strlit("aspect_ratio");
    reveal_strlit("seed");
    assert("prompt"@.len() == 6);
    assert("output_format"@.len() == 13);
    assert("model"@.len() == 5);
    assert("negative_prompt"@.len() == 15);
    assert("aspect_ratio"@.len() == 12);
    assert("seed"@.len() == 4);
}

/// The SD3 form starts with the prompt and the output format (`png` unless
/// one is chosen), and holds a `model`, `negative_prompt`, `aspect_ratio` or
/// `seed` field with value `v` exactly when the request gives that value
/// (the seed written in decimal); no prompt or format field follows.
pub proof fn law_sd3_form(r: SD3Request, v: Seq<char>)
    ensures
        sd3_fields(r).len() >= 2,
        sd3_fields(r)[0] == ("prompt"@, r.prompt@),
        sd3_fields(r)[1] == ("output_format"@, match r.output_format { Some(f) => f@, None => "png"@ }),
        sd3_fields(r).contains(("model"@, v)) <==> (r.model matches Some(m) && m@ == v),
        sd3_fields(r).contains(("negative_prompt"@, v)) <==> (r.negative_prompt matches Some(p) && p@ == v),
        sd3_fields(r).contains(("aspect_ratio"@, v)) <==> (r.aspect_ratio matches Some(a) && a@ == v),
        sd3_fields(r).contains(("seed"@, v)) <==> (r.seed matches Some(s) && decimal(s as nat) == v),
        sd3_fields(r).skip(2).contains(("prompt"@, v)) == false,
        sd3_fields(r).skip(2).contains(("output_format"@, v)) == false,
{
    lemma_field_names_distinct();
    let head = seq![("prompt"@, r.prompt@), ("output_format"@, match r.output_format { Some(f) => f@, None => "png"@ })];
    let m = optional_field("model"@, opt_view(r.model));
    let n = optional_field("negative_prompt"@, opt_view(r.negative_prompt));
    let a = optional_field("aspect_ratio"@, opt_view(r.aspect_ratio));
    let s = optional_field("seed"@, seed_text(r.seed));
    let tail = m + n + a + s;
    assert(sd3_fields(r) =~= head + tail);
    assert(sd3_fields(r).skip(2) =~= tail);
    let names = seq!["prompt"@, "output_format"@, "model"@, "negative_prompt"@, "aspect_ratio"@, "seed"@];
    assert forall|name: Seq<char>| names.contains(name) implies
        (tail.contains((name, v)) <==> (m.contains((name, v)) || n.contains((name, v)) || a.contains((name, v)) || s.contains((name, v))))
    by {
        lemma_seq_add_contains(m + n + a, s, (name, v));
        lemma_seq_add_contains(m + n, a, (name, v));
        lemma_seq_add_contains(m, n, (name, v));
    };
    assert(names[0] == "prompt"@ && names[1] == "output_format"@ && names[2] == "model"@);
    assert(names[3] == "negative_prompt"@ && names[4] == "aspect_ratio"@ && names[5] == "seed"@);
    assert forall|name: Seq<char>| names.contains(name) implies
        (head.contains((name, v)) <==> ((name == "prompt"@ && v == r.prompt@) || (name == "output_format"@ && v == head[1].1)))
    by {
        if head.contains((name, v)) {
            let i = choose|i: int| 0 <= i < head.len() && head[i] == (name, v);
        }
        if name == "prompt"@ && v == r.prompt@ {
            assert(head[0] == (name, v));
        }
        if name == "output_format"@ && v == head[1].1 {
            assert(head[1] == (name, v));
        }
    };
    assert forall|name: Seq<char>| names.contains(name) implies
        (sd3_fields(r).contains((name, v)) <==> (head.contains((name, v)) || tail.contains((name, v))))
    by {
        lemma_seq_add_contains(head, tail, (name, v));
    };
    assert forall|name: Seq<char>| names.contains(name) implies
        (m.contains((name, v)) <==> (name == "model"@ && opt_view(r.model) == Some(v)))
        && (n.contains((name, v)) <==> (name == "negative_prompt"@ && opt_view(r.negative_prompt) == Some(v)))
        && (a.contains((name, v)) <==> (name == "aspect_ratio"@ && opt_view(r.aspect_ratio) == Some(v)))
        && (s.contains((name, v)) <==> (name == "seed"@ && seed_text(r.seed) == Some(v)))
    by {
        lemma_optional_field_contains("model"@, opt_view(r.model), name, v);
        lemma_optional_field_contains("negative_prompt"@, opt_view(r.negative_prompt), name, v);
        lemma_optional_field_contains("aspect_ratio"@, opt_view(r.aspect_ratio), name, v);
        lemma_optional_field_contains("seed"@, seed_text(r.seed), name, v);
    };
    assert(names.contains("model"@));
    assert(names.contains("negative_prompt"@));
    assert(names.contains("aspect_ratio"@));
    assert(names.contains("seed"@));
    assert(names.contains("prompt"@));
    assert(names.contains("output_format"@));
}

/// The Ultra form starts with the prompt and the output format (`png` unless
/// one is chosen), holds no model, and holds a `negative_prompt`,
/// `aspect_ratio` or `seed` field with value `v` exactly when the request
/// gives that value (the seed written in decimal).
pub proof fn law_ultra_form(r: UltraRequest, v: Seq<char>)
    ensures
        ultra_fields(r).len() >= 2,
        ultra_fields(r)[0] == ("prompt"@, r.prompt@),
        ultra_fields(r)[1] == ("output_format"@, match r.output_format { Some(f) => f@, None => "png"@ }),
        !ultra_fields(r).contains(("model"@, v)),
        ultra_fields(r).contains(("negative_prompt"@, v)) <==> (r.negative_prompt matches Some(p) && p@ == v),
        ultra_fields(r).contains(("aspect_ratio"@, v)) <==> (r.aspect_ratio matches Some(a) && a@ == v),
        ultra_fields(r).contains(("seed"@, v)) <==> (r.seed matches Some(s) && decimal(s as nat) == v),
{
    lemma_field_names_distinct();
    let head = seq![("prompt"@, r.prompt@), ("output_format"@, match r.output_format { Some(f) => f@, None => "png"@ })];
    let n = optional_field("negative_prompt"@, opt_view(r.negative_prompt));
    let a = optional_field("aspect_ratio"@, opt_view(r.aspect_ratio));
    let s = optional_field("seed"@, seed_text(r.seed));
    let tail = n + a + s;
    assert(ultra_fields(r) =~= head + tail);
    let names = seq!["prompt"@, "output_format"@, "model"@, "negative_prompt"@, "aspect_ratio"@, "seed"@];
    assert forall|name: Seq<char>| names.contains(name) implies
        (tail.contains((name, v)) <==> (n.contains((name, v)) || a.contains((name, v)) || s.contains((name, v))))
    by {
        lemma_seq_add_contains(n + a, s, (name, v));
        lemma_seq_add_contains(n, a, (name, v));
    };
    assert(names[0] == "prompt"@ && names[1] == "output_format"@ && names[2] == "model"@);
    assert(names[3] == "negative_prompt"@ && names[4] == "aspect_ratio"@ && names[5] == "seed"@);
    assert forall|name: Seq<char>| names.contains(name) implies
        (head.contains((name, v)) <==> ((name == "prompt"@ && v == r.prompt@) || (name == "output_format"@ && v == head[1].1)))
    by {
        if head.contains((name, v)) {
            let i = choose|i: int| 0 <= i < head.len() && head[i] == (name, v);
        }
        if name == "prompt"@ && v == r.prompt@ {
            assert(head[0] == (name, v));
        }
        if name == "output_format"@ && v == head[1].1 {
            assert(head[1] == (name, v));
        }
    };
    assert forall|name: Seq<char>| names.contains(name) implies
        (ultra_fields(r).contains((name, v)) <==> (head.contains((name, v)) || tail.contains((name, v))))
    by {
        lemma_seq_add_contains(head, tail, (name, v));
    };
    assert forall|name: Seq<char>| names.contains(name) implies
        (n.contains((name, v)) <==> (name == "negative_prompt"@ && opt_view(r.negative_prompt) == Some(v)))
        && (a.contains((name, v)) <==> (name == "aspect_ratio"@ && opt_view(r.aspect_ratio) == Some(v)))
        && (s.contains((name, v)) <==> (name == "seed"@ && seed_text(r.seed) == Some(v)))
    by {
        lemma_optional_field_contains("negative_prompt"@, opt_view(r.negative_prompt), name, v);
        lemma_optional_field_contains("aspect_ratio"@, opt_view(r.aspect_ratio), name, v);
        lemma_optional_field_contains("seed"@, seed_text(r.seed), name, v);
    };
    assert(names.contains("model"@));
    assert(names.contains("negative_prompt"@));
    assert(names.contains("aspect_ratio"@));
    assert(names.contains("seed"@));
}

/// The fields of a form stand for themselves: each field's name and value, in order.
pub proof fn law_field_views(f: Seq<(String, String)>)
    ensures
        field_views(f).len() == f.len(),
        forall|i: int| 0 <= i < f.len() ==> #[trigger] field_views(f)[i] == (f[i].0@, f[i].1@),
{
}

} // verus!
