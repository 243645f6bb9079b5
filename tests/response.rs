use embedding_router::response::{openai_response, plain_response, InferResult};

fn results() -> Vec<InferResult<Vec<f32>>> {
    vec![
        InferResult { results: vec![1.0, 0.0], prompt_tokens: 3 },
        InferResult { results: vec![0.0, 1.0], prompt_tokens: 4 },
        InferResult { results: vec![0.6, 0.8], prompt_tokens: 5 },
    ]
}

#[test]
fn plain_response_keeps_count_and_order() {
    let r = plain_response(results());
    assert_eq!(r.0, vec![vec![1.0, 0.0], vec![0.0, 1.0], vec![0.6, 0.8]]);
}

#[test]
fn plain_response_of_one_input_has_one_entry() {
    let r = plain_response(vec![InferResult { results: vec![0.5f32], prompt_tokens: 1 }]);
    assert_eq!(r.0.len(), 1);
}

#[test]
fn openai_response_indexes_in_order() {
    let r = openai_response(results(), "some/model".to_string());
    assert_eq!(r.object, "list");
    assert_eq!(r.model, "some/model");
    assert_eq!(r.data.len(), 3);
    for (i, e) in r.data.iter().enumerate() {
        assert_eq!(e.index, i);
        assert_eq!(e.object, "embedding");
    }
    assert_eq!(r.data[2].embedding, vec![0.6, 0.8]);
    assert_eq!(r.usage.prompt_tokens, 12);
    assert_eq!(r.usage.total_tokens, 12);
}

#[test]
fn openai_response_of_nothing_is_empty() {
    let r = openai_response(Vec::<InferResult<Vec<f32>>>::new(), String::new());
    assert!(r.data.is_empty());
    assert_eq!(r.usage.total_tokens, 0);
}
