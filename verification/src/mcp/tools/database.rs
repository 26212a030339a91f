use vstd::prelude::*;

use crate::json::JsonValue;

verus! {

/// The arguments of the `upstash_redis_get` tool (get a value from Upstash Redis).
#[derive(Debug)]
pub struct UpstashRedisGetRequest {
    pub key: String,
}

/// The arguments of the `upstash_redis_set` tool (set a value in Upstash Redis).
#[derive(Debug)]
pub struct UpstashRedisSetRequest {
    pub key: String,
    pub value: String,
    pub ex: Option<i64>,
}

/// The arguments of the `supabase_query` tool (execute a query on Supabase).
#[derive(Debug)]
pub struct SupabaseQueryRequest {
    pub table: String,
    pub select: Option<String>,
    pub filter: Option<JsonValue>,
    pub limit: Option<i64>,
}

/// The arguments of the `supabase_insert` tool (insert data into Supabase).
#[derive(Debug)]
pub struct SupabaseInsertRequest {
    pub table: String,
    pub data: JsonValue,
}

/// The arguments of the `planetscale_execute` tool (execute a SQL query on PlanetScale).
#[derive(Debug)]
pub struct PlanetScaleExecuteRequest {
    pub query: String,
    pub params: Option<Vec<JsonValue>>,
}

/// The arguments of the `turso_execute` tool (execute a SQL query on Turso).
#[derive(Debug)]
pub struct TursoExecuteRequest {
    pub sql: String,
    pub args: Option<Vec<JsonValue>>,
}

/// The arguments of the `neon_query` tool (execute a SQL query on Neon Postgres).
#[derive(Debug)]
pub struct NeonQueryRequest {
    pub query: String,
    pub params: Option<Vec<JsonValue>>,
}

/// The arguments of the `pinecone_upsert` tool (upsert vectors into Pinecone).
#[derive(Debug)]
pub struct PineconeUpsertRequest {
    pub namespace: Option<String>,
    pub vectors: Vec<JsonValue>,
}

/// The arguments of the `qdrant_upsert` tool (upsert points into Qdrant).
#[derive(Debug)]
pub struct QdrantUpsertRequest {
    pub collection: String,
    pub points: Vec<JsonValue>,
}

} // verus!
