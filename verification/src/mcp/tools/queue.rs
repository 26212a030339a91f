use vstd::prelude::*;

use crate::json::JsonValue;

verus! {

/// The arguments of the `sqs_send_message` tool (send a message to an Amazon SQS queue).
#[derive(Debug)]
pub struct SqsSendMessageRequest {
    pub queue_url: String,
    pub message_body: String,
    pub delay_seconds: Option<u32>,
    pub message_group_id: Option<String>,
    pub message_deduplication_id: Option<String>,
}

/// The arguments of the `sqs_receive_messages` tool (receive messages from an Amazon SQS queue).
#[derive(Debug)]
pub struct SqsReceiveMessagesRequest {
    pub queue_url: String,
    pub max_number_of_messages: Option<u32>,
    pub visibility_timeout: Option<u32>,
    pub wait_time_seconds: Option<u32>,
}

/// The arguments of the `sqs_delete_message` tool (delete a message from an Amazon SQS queue).
#[derive(Debug)]
pub struct SqsDeleteMessageRequest {
    pub queue_url: String,
    pub receipt_handle: String,
}

/// The arguments of the `sqs_get_queue_attributes` tool (get attributes of an Amazon SQS queue).
#[derive(Debug)]
pub struct SqsGetQueueAttributesRequest {
    pub queue_url: String,
}

/// The arguments of the `sqs_purge_queue` tool (purge all messages from an Amazon SQS queue).
#[derive(Debug)]
pub struct SqsPurgeQueueRequest {
    pub queue_url: String,
}

/// The arguments of the `sqs_change_message_visibility` tool (change the visibility timeout of an SQS message).
#[derive(Debug)]
pub struct SqsChangeVisibilityRequest {
    pub queue_url: String,
    pub receipt_handle: String,
    pub visibility_timeout: u32,
}

/// The arguments of the `kafka_list_topics` tool (list all Kafka topics).
#[derive(Debug)]
pub struct KafkaListTopicsRequest {}

/// The arguments of the `kafka_get_topic` tool (get details of a Kafka topic).
#[derive(Debug)]
pub struct KafkaGetTopicRequest {
    pub cluster_id: String,
    pub topic_name: String,
}

/// The arguments of the `kafka_create_topic` tool (create a new Kafka topic).
#[derive(Debug)]
pub struct KafkaCreateTopicRequest {
    pub cluster_id: String,
    pub topic_name: String,
    pub partitions: Option<i32>,
    pub replication_factor: Option<i32>,
    pub retention_ms: Option<i64>,
}

/// The arguments of the `kafka_delete_topic` tool (delete a Kafka topic).
#[derive(Debug)]
pub struct KafkaDeleteTopicRequest {
    pub cluster_id: String,
    pub topic_name: String,
}

/// The arguments of the `kafka_list_consumer_groups` tool (list all Kafka consumer groups).
#[derive(Debug)]
pub struct KafkaListConsumerGroupsRequest {
    pub cluster_id: String,
}

/// The arguments of the `kafka_get_consumer_group` tool (get details of a Kafka consumer group).
#[derive(Debug)]
pub struct KafkaGetConsumerGroupRequest {
    pub cluster_id: String,
    pub group_id: String,
}

/// The arguments of the `kafka_get_consumer_lag` tool (get consumer lag summary for a Kafka consumer group).
#[derive(Debug)]
pub struct KafkaGetConsumerLagRequest {
    pub cluster_id: String,
    pub group_id: String,
}

/// The arguments of the `kafka_produce` tool (produce a message to a Kafka topic).
#[derive(Debug)]
pub struct KafkaProduceRequest {
    pub topic: String,
    pub value: JsonValue,
    pub key: Option<JsonValue>,
    pub partition: Option<i32>,
}

/// The arguments of the `kafka_produce_batch` tool (produce multiple messages to a Kafka topic in a batch).
#[derive(Debug)]
pub struct KafkaProduceBatchRequest {
    pub topic: String,
    pub messages: Vec<KafkaMessageInput>,
}

/// One entry of a tool's arguments.
#[derive(Debug)]
pub struct KafkaMessageInput {
    pub value: JsonValue,
    pub key: Option<JsonValue>,
    pub partition: Option<i32>,
}

} // verus!
