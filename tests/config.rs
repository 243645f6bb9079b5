use embedding_router::config::{resolve_limits, uses_position_offset, ConfigError, ModelConfig, PositionLimits};

fn config(model_type: &str, capacity: usize, pad: usize) -> ModelConfig {
    ModelConfig {
        architectures: vec![],
        model_type: model_type.to_string(),
        max_position_embeddings: capacity,
        pad_token_id: pad,
        id2label: None,
        label2id: None,
    }
}

#[test]
fn offset_family_reserves_pad_plus_one() {
    assert_eq!(
        resolve_limits(&config("xlm-roberta", 514, 1)),
        Ok(PositionLimits { position_offset: 2, max_input_length: 512 })
    );
    assert_eq!(
        resolve_limits(&config("roberta", 514, 1)),
        Ok(PositionLimits { position_offset: 2, max_input_length: 512 })
    );
    assert_eq!(
        resolve_limits(&config("camembert", 514, 1)),
        Ok(PositionLimits { position_offset: 2, max_input_length: 512 })
    );
}

#[test]
fn other_family_has_no_offset() {
    assert_eq!(
        resolve_limits(&config("bert", 514, 1)),
        Ok(PositionLimits { position_offset: 0, max_input_length: 514 })
    );
    assert_eq!(
        resolve_limits(&config("bert", 512, 0)),
        Ok(PositionLimits { position_offset: 0, max_input_length: 512 })
    );
}

#[test]
fn no_room_is_an_error() {
    assert_eq!(resolve_limits(&config("roberta", 2, 1)), Err(ConfigError::NoInputLength));
    assert_eq!(resolve_limits(&config("roberta", 10, usize::MAX)), Err(ConfigError::NoInputLength));
    assert_eq!(resolve_limits(&config("bert", 0, 0)), Err(ConfigError::NoInputLength));
    assert_eq!(
        resolve_limits(&config("roberta", 3, 1)),
        Ok(PositionLimits { position_offset: 2, max_input_length: 1 })
    );
}

#[test]
fn family_match_is_exact() {
    assert!(uses_position_offset(&"roberta".to_string()));
    assert!(!uses_position_offset(&"Roberta".to_string()));
    assert!(!uses_position_offset(&"roberta-large".to_string()));
    assert!(!uses_position_offset(&String::new()));
}
