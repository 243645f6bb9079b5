use std::collections::HashMap;
use vstd::prelude::*;

verus! {

/// An embedding model and its pooling method.
#[derive(Clone, Debug)]
pub struct EmbeddingModel {
    pub pooling: String,
}

/// A classification model and its label maps.
#[derive(Clone, Debug)]
pub struct ClassifierModel {
    pub id2label: HashMap<String, String>,
    pub label2id: HashMap<String, usize>,
}

/// What the served model computes.
#[derive(Clone, Debug)]
pub enum ModelType {
    Classifier(ClassifierModel),
    Embedding(EmbeddingModel),
}

/// What the server reports about itself and its limits.
#[derive(Clone, Debug)]
pub struct Info {
    pub model_id: String,
    pub model_sha: Option<String>,
    pub model_dtype: String,
    pub model_type: ModelType,
    pub max_concurrent_requests: usize,
    pub max_input_length: usize,
    pub max_batch_tokens: usize,
    pub max_batch_requests: Option<usize>,
    pub max_client_batch_size: usize,
    pub tokenization_workers: usize,
    pub version: &'static str,
    pub sha: Option<&'static str>,
    pub docker_label: Option<&'static str>,
}

} // verus!
