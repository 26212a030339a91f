use vstd::prelude::*;

use crate::error::Error;
use crate::http::{header, header_views, HttpMethod, HttpRequest};
use crate::json::{JsonData, JsonNumber, JsonValue, NumberData, members_data, lemma_members_data_len};
use crate::llm::{ProviderConfig, VideoData, VideoRequest, VideoResponse};
use crate::text::{concat, owned, str_equal};

verus! {

/// The default endpoint of the Runway API.
pub open spec fn runway_api_base() -> Seq<char> {
    "https://api.runwayml.com/v1"@
}

/// A client of the Runway video API.
#[derive(Debug)]
pub struct RunwayClient {
    api_key: String,
    base_url: String,
}

impl RunwayClient {
    pub closed spec fn key(self) -> Seq<char> {
        self.api_key@
    }

    pub closed spec fn base(self) -> Seq<char> {
        self.base_url@
    }

    pub fn new(config: ProviderConfig) -> (r: Self)
        ensures
            r.key() == config.api_key@,
            r.base() == match config.base_url {
                Some(u) => u@,
                None => runway_api_base(),
            },
    {
        let base_url = match config.base_url {
            Some(u) => u,
            None => owned("https://api.runwayml.com/v1"),
        };
        RunwayClient { api_key: config.api_key, base_url }
    }

    pub fn from_api_key(api_key: String) -> (r: Self)
        ensures
            r.key() == api_key@,
            r.base() == runway_api_base(),
    {
        RunwayClient::new(ProviderConfig::new(api_key))
    }

    /// A request to `path` with the bearer key, JSON content and the API version.
    pub fn request(&self, method: HttpMethod, path: &str) -> (r: HttpRequest)
        ensures
            r.method == method,
            r.url@ == self.base() + path@,
            header_views(r.headers@) == seq![
                ("Authorization"@, "Bearer "@ + self.key()),
                ("Content-Type"@, "application/json"@),
                ("X-Runway-Version"@, "2024-11-06"@),
            ],
    {
        let url = concat(self.base_url.as_str(), path);
        let auth = concat("Bearer ", self.api_key.as_str());
        let mut headers: Vec<(String, String)> = Vec::new();
        headers.push((owned("Authorization"), auth));
        headers.push(header("Content-Type", "application/json"));
        headers.push(header("X-Runway-Version", "2024-11-06"));
        proof {
            assert(header_views(headers@) =~= seq![
                ("Authorization"@, "Bearer "@ + self.key()),
                ("Content-Type"@, "application/json"@),
                ("X-Runway-Version"@, "2024-11-06"@),
            ]);
        }
        HttpRequest { method, url, headers }
    }
}

/// The path of a task: `/tasks/<id>`.
pub fn task_path(task_id: &str) -> (r: String)
    ensures
        r@ == "/tasks/"@ + task_id@,
{
    concat("/tasks/", task_id)
}

/// An image-to-video generation request.
#[derive(Debug)]
pub struct Gen3Request {
    pub model: Option<String>,
    pub prompt_image: String,
    pub prompt_text: Option<String>,
    pub duration: Option<u32>,
    pub ratio: Option<String>,
    pub seed: Option<u64>,
}

impl Gen3Request {
    /// A request animating `prompt_image`, with no other choice made.
    pub fn new(prompt_image: String) -> (r: Self)
        ensures
            r == (Gen3Request {
                model: None,
                prompt_image,
                prompt_text: None,
                duration: None,
                ratio: None,
                seed: None,
            }),
    {
        Gen3Request { model: None, prompt_image, prompt_text: None, duration: None, ratio: None, seed: None }
    }

    pub fn with_prompt(self, text: String) -> (r: Self)
        ensures
            r == (Gen3Request { prompt_text: Some(text), ..self }),
    {
        Gen3Request { prompt_text: Some(text), ..self }
    }

    pub fn with_duration(self, seconds: u32) -> (r: Self)
        ensures
            r == (Gen3Request { duration: Some(seconds), ..self }),
    {
        Gen3Request { duration: Some(seconds), ..self }
    }

    pub fn with_ratio(self, ratio: String) -> (r: Self)
        ensures
            r == (Gen3Request { ratio: Some(ratio), ..self }),
    {
        Gen3Request { ratio: Some(ratio), ..self }
    }
}

/// A text-to-video generation request.
#[derive(Debug)]
pub struct TextToVideoRequest {
    pub model: Option<String>,
    pub prompt: String,
    pub duration: Option<u32>,
    pub ratio: Option<String>,
}

impl Default for TextToVideoRequest {
    fn default() -> (r: Self)
        ensures
            r.model is None,
            r.prompt@ == Seq::<char>::empty(),
            r.duration is None,
            r.ratio is None,
    {
        TextToVideoRequest { model: None, prompt: String::new(), duration: None, ratio: None }
    }
}

impl TextToVideoRequest {
    pub fn new(prompt: String) -> (r: Self)
        ensures
            r == (TextToVideoRequest { model: None, prompt, duration: None, ratio: None }),
    {
        TextToVideoRequest { model: None, prompt, duration: None, ratio: None }
    }

    pub fn with_duration(self, seconds: u32) -> (r: Self)
        ensures
            r == (TextToVideoRequest { duration: Some(seconds), ..self }),
    {
        TextToVideoRequest { duration: Some(seconds), ..self }
    }
}

/// The task that a generation request started.
#[derive(Debug)]
pub struct TaskResponse {
    pub id: String,
}

/// The body of a text-to-video request: the model (`gen3a_turbo` unless
/// chosen), the prompt, the duration (5 seconds unless chosen) and the ratio
/// (`1280:768` unless chosen).
pub open spec fn text_to_video_body_data(model: Option<Seq<char>>, prompt: Seq<char>, duration: Option<u32>, ratio: Option<Seq<char>>) -> JsonData {
    JsonData::Object(seq![
        ("model"@, JsonData::Str(match model { Some(m) => m, None => "gen3a_turbo"@ })),
        ("promptText"@, JsonData::Str(prompt)),
        ("duration"@, JsonData::Number(NumberData::PosInt(match duration { Some(d) => d as u64, None => 5u64 }))),
        ("ratio"@, JsonData::Str(match ratio { Some(r) => r, None => "1280:768"@ })),
    ])
}

pub open spec fn opt_view(o: Option<String>) -> Option<Seq<char>> {
    match o {
        Some(s) => Some(s@),
        None => None,
    }
}

/// The JSON body sent to start a text-to-video task.
pub fn text_to_video_body(request: &TextToVideoRequest) -> (r: JsonValue)
    ensures
        r@ == text_to_video_body_data(opt_view(request.model), request.prompt@, request.duration, opt_view(request.ratio)),
{
    let model = match &request.model {
        Some(m) => m.clone(),
        None => owned("gen3a_turbo"),
    };
    let duration: u64 = match request.duration {
        Some(d) => d as u64,
        None => 5,
    };
    let ratio = match &request.ratio {
        Some(r) => r.clone(),
        None => owned("1280:768"),
    };
    let mut members: Vec<(String, JsonValue)> = Vec::new();
    members.push((owned("model"), JsonValue::String(model)));
    members.push((owned("promptText"), JsonValue::String(request.prompt.clone())));
    members.push((owned("duration"), JsonValue::Number(JsonNumber::PosInt(duration))));
    members.push((owned("ratio"), JsonValue::String(ratio)));
    proof {
        lemma_members_data_len(members@);
        assert(members_data(members@) =~= text_to_video_body_data(opt_view(request.model), request.prompt@, request.duration, opt_view(request.ratio))->Object_0);
    }
    JsonValue::Object(members)
}

/// What one look at a task tells the waiter: done, failed, or keep waiting.
#[derive(Debug)]
pub enum TaskPoll {
    Succeeded,
    Failed(Error),
    Pending,
}

/// The outcome of a task's status: `SUCCEEDED` ends the wait, `FAILED` ends it
/// with the task's failure (or "Task failed") and failure code (or empty),
/// `CANCELLED` ends it with a cancellation error, anything else means waiting on.
pub fn task_poll(status: &str, failure: Option<String>, failure_code: Option<String>) -> (r: TaskPoll)
    ensures
        status@ == "SUCCEEDED"@ ==> r is Succeeded,
        status@ == "FAILED"@ ==> (r matches TaskPoll::Failed(Error::Api { message, code })
            && message@ == match failure { Some(f) => f@, None => "Task failed"@ }
            && code is Some && code->0@ == match failure_code { Some(c) => c@, None => Seq::<char>::empty() }),
        status@ == "CANCELLED"@ ==> (r matches TaskPoll::Failed(Error::Api { message, code })
            && message@ == "Task cancelled"@ && code is Some && code->0@ == "CANCELLED"@),
        status@ != "SUCCEEDED"@ && status@ != "FAILED"@ && status@ != "CANCELLED"@ ==> r is Pending,
{
    proof {
        reveal_strlit("SUCCEEDED");
        reveal_strlit("FAILED");
        reveal_strlit("CANCELLED");
        assert("SUCCEEDED"@[0] != "FAILED"@[0]);
        assert("SUCCEEDED"@[0] != "CANCELLED"@[0]);
        assert("FAILED"@[0] != "CANCELLED"@[0]);
    }
    if str_equal(status, "SUCCEEDED") {
        TaskPoll::Succeeded
    } else if str_equal(status, "FAILED") {
        let message = match failure {
            Some(f) => f,
            None => owned("Task failed"),
        };
        let code = match failure_code {
            Some(c) => c,
            None => String::new(),
        };
        TaskPoll::Failed(Error::Api { message, code: Some(code) })
    } else if str_equal(status, "CANCELLED") {
        TaskPoll::Failed(Error::Api { message: owned("Task cancelled"), code: Some(owned("CANCELLED")) })
    } else {
        TaskPoll::Pending
    }
}

/// The error ending a wait that ran out of time.
pub fn task_timeout_error() -> (r: Error)
    ensures
        r matches Error::Api { message, code } && message@ == "Task timeout"@ && code is Some && code->0@ == "TIMEOUT"@,
{
    Error::Api { message: owned("Task timeout"), code: Some(owned("TIMEOUT")) }
}

/// The task request for a video: image-to-video when an image is given,
/// text-to-video otherwise.
#[derive(Debug)]
pub enum VideoTask {
    FromImage(Gen3Request),
    FromText(TextToVideoRequest),
}

pub fn video_task_for(request: VideoRequest) -> (r: VideoTask)
    ensures
        match request.image {
            Some(image) => r == VideoTask::FromImage(Gen3Request {
                model: request.model,
                prompt_image: image,
                prompt_text: Some(request.prompt),
                duration: request.duration,
                ratio: request.aspect_ratio,
                seed: request.seed,
            }),
            None => r == VideoTask::FromText(TextToVideoRequest {
                model: request.model,
                prompt: request.prompt,
                duration: request.duration,
                ratio: request.aspect_ratio,
            }),
        },
{
    match request.image {
        Some(image) => VideoTask::FromImage(Gen3Request {
            model: request.model,
            prompt_image: image,
            prompt_text: Some(request.prompt),
            duration: request.duration,
            ratio: request.aspect_ratio,
            seed: request.seed,
        }),
        None => VideoTask::FromText(TextToVideoRequest {
            model: request.model,
            prompt: request.prompt,
            duration: request.duration,
            ratio: request.aspect_ratio,
        }),
    }
}

/// A started task as a pending video.
pub fn pending_video(task: TaskResponse) -> (r: VideoResponse)
    ensures
        r.id == task.id,
        r.status@ == "pending"@,
        r.data@.len() == 1,
        r.data@[0].url is None,
        r.data@[0].task_id == Some(task.id),
{
    let id = task.id.clone();
    let mut data: Vec<VideoData> = Vec::new();
    data.push(VideoData { url: None, task_id: Some(task.id) });
    VideoResponse { id, status: owned("pending"), data }
}

/// A task's status as a video: the task's status, and its first output as the link.
pub fn video_status(task_id: &str, status: String, output: Option<Vec<String>>) -> (r: VideoResponse)
    ensures
        r.id@ == task_id@,
        r.status == status,
        r.data@.len() == 1,
        r.data@[0].task_id is Some && r.data@[0].task_id->0@ == task_id@,
        r.data@[0].url == match output {
            Some(o) => if o@.len() > 0 { Some(o@[0]) } else { None },
            None => None,
        },
{
    let url = match &output {
        Some(o) => if o.len() > 0 {
            Some(o[0].clone())
        } else {
            None
        },
        None => None,
    };
    let mut data: Vec<VideoData> = Vec::new();
    data.push(VideoData { url, task_id: Some(owned(task_id)) });
    VideoResponse { id: owned(task_id), status, data }
}

} // verus!
