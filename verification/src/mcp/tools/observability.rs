use vstd::prelude::*;

use crate::json::JsonValue;

verus! {

/// The arguments of the `datadog_send_event` tool (send an event to Datadog).
#[derive(Debug)]
pub struct DatadogSendEventRequest {
    pub title: String,
    pub text: String,
    pub alert_type: Option<String>,
    pub tags: Option<Vec<String>>,
}

/// The arguments of the `datadog_query_metrics` tool (query metrics from Datadog).
#[derive(Debug)]
pub struct DatadogQueryMetricsRequest {
    pub query: String,
    pub from_ts: i64,
    pub to_ts: i64,
}

/// The arguments of the `posthog_get_feature_flag` tool (get a feature flag value from PostHog).
#[derive(Debug)]
pub struct PostHogGetFeatureFlagRequest {
    pub distinct_id: String,
    pub key: String,
}

/// The arguments of the `sentry_list_issues` tool (list issues from Sentry).
#[derive(Debug)]
pub struct SentryListIssuesRequest {
    pub project_slug: String,
    pub query: Option<String>,
    pub limit: Option<u32>,
}

/// The arguments of the `posthog_capture` tool (capture an event in PostHog).
#[derive(Debug)]
pub struct PostHogCaptureRequest {
    pub distinct_id: String,
    pub event: String,
    pub properties: Option<JsonValue>,
}

/// The arguments of the `posthog_identify` tool (identify a user in PostHog).
#[derive(Debug)]
pub struct PostHogIdentifyRequest {
    pub distinct_id: String,
    pub properties: JsonValue,
}

/// The arguments of the `sentry_capture_message` tool (capture a message in Sentry).
#[derive(Debug)]
pub struct SentryCaptureMessageRequest {
    pub message: String,
    pub level: Option<String>,
    pub tags: Option<JsonValue>,
}

/// The arguments of the `mixpanel_track` tool (track an event in Mixpanel).
#[derive(Debug)]
pub struct MixpanelTrackRequest {
    pub event: String,
    pub distinct_id: String,
    pub properties: Option<JsonValue>,
}

/// The arguments of the `mixpanel_set_profile` tool (set user profile properties in Mixpanel).
#[derive(Debug)]
pub struct MixpanelSetProfileRequest {
    pub distinct_id: String,
    pub properties: JsonValue,
}

} // verus!
