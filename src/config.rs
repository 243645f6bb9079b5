use std::collections::HashMap;
use vstd::prelude::*;

verus! {

/// The model descriptor, as read from the model's `config.json`.
#[derive(Debug)]
pub struct ModelConfig {
    pub architectures: Vec<String>,
    pub model_type: String,
    pub max_position_embeddings: usize,
    pub pad_token_id: usize,
    pub id2label: Option<HashMap<String, String>>,
    pub label2id: Option<HashMap<String, usize>>,
}

/// The limits derived from a descriptor's positional capacity.
#[derive(Clone, Copy, Debug, PartialEq, Eq, Structural)]
pub struct PositionLimits {
    /// Leading position ids reserved before the first real token.
    pub position_offset: usize,
    /// The longest input, in tokens, that the model accepts.
    pub max_input_length: usize,
}

/// Why a descriptor yields no usable limits.
#[derive(Clone, Copy, Debug, PartialEq, Eq, Structural)]
pub enum ConfigError {
    /// The positional capacity leaves no room once the offset is reserved.
    NoInputLength,
}

/// The architecture families that reserve leading position ids.
pub open spec fn reserves_position_offset(model_type: Seq<char>) -> bool {
    model_type == "xlm-roberta"@ || model_type == "camembert"@ || model_type == "roberta"@
}

/// The positional offset of a descriptor: the pad token id plus one for the
/// families that reserve leading position ids, zero for the others.
pub open spec fn position_offset_of(c: ModelConfig) -> int {
    if reserves_position_offset(c.model_type@) {
        c.pad_token_id + 1
    } else {
        0
    }
}

/// The maximum input length of a descriptor: its positional capacity less
/// its positional offset.
pub open spec fn max_input_length_of(c: ModelConfig) -> int {
    c.max_position_embeddings - position_offset_of(c)
}

/// Whether the descriptor's architecture family reserves leading position ids.
pub fn uses_position_offset(model_type: &String) -> (r: bool)
    ensures
        r == reserves_position_offset(model_type@),
{
    *model_type == String::from_str("xlm-roberta") || *model_type == String::from_str("camembert")
        || *model_type == String::from_str("roberta")
}

/// Derives the positional offset and the maximum input length of a model.
/// Fails where the maximum input length would be zero or negative.
pub fn resolve_limits(config: &ModelConfig) -> (r: Result<PositionLimits, ConfigError>)
    ensures
        r is Ok <==> max_input_length_of(*config) > 0,
        r matches Ok(l) ==> l.position_offset == position_offset_of(*config)
            && l.max_input_length == max_input_length_of(*config),
        r matches Err(e) ==> e == ConfigError::NoInputLength,
{
    let capacity = config.max_position_embeddings;
    if uses_position_offset(&config.model_type) {
        if config.pad_token_id >= capacity {
            return Err(ConfigError::NoInputLength);
        }
        let offset = config.pad_token_id + 1;
        if offset >= capacity {
            return Err(ConfigError::NoInputLength);
        }
        Ok(PositionLimits { position_offset: offset, max_input_length: capacity - offset })
    } else {
        if capacity == 0 {
            return Err(ConfigError::NoInputLength);
        }
        Ok(PositionLimits { position_offset: 0, max_input_length: capacity })
    }
}

} // verus!
