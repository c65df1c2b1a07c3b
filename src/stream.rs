//! Stream API records.
use vstd::prelude::*;

use crate::dataset::{Dataset, DatasetSchema};

verus! {

/// How a stream's executions change its dataset.
#[derive(Clone, Copy, Debug, PartialEq, Eq, Structural)]
pub enum UpdateMethod {
    Replace,
    Append,
}

/// A stream search: by dataset id or by the id of the dataset's owner.
#[derive(Clone, Debug)]
pub enum StreamSearchQuery {
    DatasetId(String),
    DatasetOwnerId(u64),
}

/// A stream and the dataset it feeds.
#[derive(Clone, Debug)]
pub struct StreamDataset {
    pub id: u64,
    pub dataset: Dataset,
    pub update_method: String,
    pub created_at: String,
    pub modified_at: String,
    pub last_execution: Option<StreamExecution>,
}

/// A stream, as the stream listing returns it.
#[derive(Clone, Debug)]
pub struct DomoStream {
    pub id: usize,
    pub dataset: Dataset,
    pub update_method: String,
    pub created_at: String,
    pub modified_at: String,
    pub last_execution: Option<StreamExecution>,
}

/// A stream execution: one server-side upload transaction that accumulates
/// data parts until it is committed or aborted. The server answers every
/// execution call (create, upload part, commit, abort) with one.
#[derive(Clone, Debug)]
pub struct StreamExecution {
    pub id: usize,
    pub started_at: Option<String>,
    pub ended_at: Option<String>,
    pub current_state: Option<String>,
    pub created_at: Option<String>,
    pub modified_at: Option<String>,
}

/// The dataset definition and update method of a stream to create.
#[derive(Clone, Debug)]
pub struct StreamDatasetSchema {
    pub dataset_schema: DatasetSchema,
    pub update_method: String,
}

/// The request body that creates a stream.
#[derive(Clone, Debug)]
pub struct NewStreamDataset {
    pub dataset: StreamDatasetSchema,
}

/// The outcome of one data part upload of a streaming upload.
#[derive(Clone, Copy, Debug, PartialEq, Eq, Structural)]
pub struct StreamPartUpload {
    pub data_part_id: usize,
    pub rows: usize,
    pub upload_successful: bool,
}

} // verus!
