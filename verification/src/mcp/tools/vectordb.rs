use vstd::prelude::*;

verus! {

/// The arguments of the `pinecone_delete` tool (delete vectors from Pinecone).
#[derive(Debug)]
pub struct PineconeDeleteRequest {
    pub namespace: String,
    pub ids: Vec<String>,
}

/// The arguments of the `qdrant_delete` tool (delete points from Qdrant).
#[derive(Debug)]
pub struct QdrantDeleteRequest {
    pub collection: String,
    pub ids: Vec<String>,
}

/// The arguments of the `weaviate_search` tool (search objects in Weaviate using text).
#[derive(Debug)]
pub struct WeaviateSearchRequest {
    pub class_name: String,
    pub query: String,
    pub limit: u32,
}

} // verus!
