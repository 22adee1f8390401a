//! Request-handling logic of the EdgeQuake knowledge-graph API: namespace
//! schema lifecycle, pipeline configuration, document ingestion decisions,
//! task and workspace bookkeeping, each stated and proved with Verus.

pub mod batch;
pub mod batch_track_state;
pub mod clock;
pub mod document_index;
pub mod document_listing;
pub mod deletion_impact;
pub mod document_store;
pub mod documents;
pub mod error;
pub mod graph_view;
pub mod ids;
pub mod ingest;
pub mod namespace_config;
pub mod namespaces;
pub mod query_sources;
pub mod raw_docs;
pub mod rebuild;
pub mod registry;
pub mod requeue;
pub mod resolve;
pub mod schema;
pub mod schema_merge;
pub mod schema_requests;
pub mod slug;
pub mod stats_cache;
pub mod tasks;
pub mod tenants;
pub mod text;
pub mod text_order;
pub mod track_ids;
pub mod vector_storage;
pub mod workspace_purge;
pub mod workspaces;
