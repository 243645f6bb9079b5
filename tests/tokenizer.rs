use embedding_router::tokenizer::{patch_pre_tokenizer, patch_tokenizer, PreTokenizerShape, Prepend};
use tokenizers::models::bpe::BPE;
use tokenizers::pre_tokenizers::metaspace::{Metaspace, PrependScheme};
use tokenizers::pre_tokenizers::sequence::Sequence;
use tokenizers::pre_tokenizers::whitespace::Whitespace;
use tokenizers::{PaddingParams, PreTokenizerWrapper, Tokenizer};

#[test]
fn patch_is_idempotent() {
    let s = PreTokenizerShape::Sequence(vec![Some(Prepend::Always), None, Some(Prepend::Never)]);
    let once = patch_pre_tokenizer(&s);
    let twice = patch_pre_tokenizer(&once);
    assert_eq!(once, PreTokenizerShape::Sequence(vec![Some(Prepend::First), None, Some(Prepend::First)]));
    assert_eq!(twice, once);
    let m = patch_pre_tokenizer(&PreTokenizerShape::Metaspace(Prepend::Never));
    assert_eq!(m, PreTokenizerShape::Metaspace(Prepend::First));
    assert_eq!(patch_pre_tokenizer(&m), m);
    assert_eq!(patch_pre_tokenizer(&PreTokenizerShape::Other), PreTokenizerShape::Other);
}

#[test]
fn metaspace_tokenizer_is_patched() {
    let mut t = Tokenizer::new(BPE::default());
    t.with_pre_tokenizer(Metaspace::new('\u{2581}', true));
    t.with_padding(Some(PaddingParams::default()));
    let (before, after) = patch_tokenizer(&mut t);
    assert_eq!(before, PreTokenizerShape::Metaspace(Prepend::Always));
    assert_eq!(after, PreTokenizerShape::Metaspace(Prepend::First));
    match t.get_pre_tokenizer() {
        Some(PreTokenizerWrapper::Metaspace(m)) => assert_eq!(m.get_prepend_scheme(), PrependScheme::First),
        _ => panic!("the pre-tokenizer should still be a metaspace"),
    }
    assert!(t.get_padding().is_none());
    let (again, _) = patch_tokenizer(&mut t);
    assert_eq!(again, PreTokenizerShape::Metaspace(Prepend::First));
}

#[test]
fn nested_metaspace_is_patched_and_others_kept() {
    let mut t = Tokenizer::new(BPE::default());
    let seq = Sequence::new(vec![
        PreTokenizerWrapper::Whitespace(Whitespace),
        PreTokenizerWrapper::Metaspace(Metaspace::new_with_prepend_scheme('\u{2581}', true, PrependScheme::Never)),
    ]);
    t.with_pre_tokenizer(seq);
    let (before, after) = patch_tokenizer(&mut t);
    assert_eq!(before, PreTokenizerShape::Sequence(vec![None, Some(Prepend::Never)]));
    assert_eq!(after, PreTokenizerShape::Sequence(vec![None, Some(Prepend::First)]));
    match t.get_pre_tokenizer() {
        Some(PreTokenizerWrapper::Sequence(s)) => {
            let members = s.get_pre_tokenizers();
            assert!(matches!(members[0], PreTokenizerWrapper::Whitespace(_)));
            match &members[1] {
                PreTokenizerWrapper::Metaspace(m) => assert_eq!(m.get_prepend_scheme(), PrependScheme::First),
                _ => panic!("the second member should still be a metaspace"),
            }
        }
        _ => panic!("the pre-tokenizer should still be a sequence"),
    }
}

#[test]
fn tokenizer_without_pre_tokenizer_is_left_alone() {
    let mut t = Tokenizer::new(BPE::default());
    let (before, after) = patch_tokenizer(&mut t);
    assert_eq!(before, PreTokenizerShape::Other);
    assert_eq!(after, PreTokenizerShape::Other);
    assert!(t.get_pre_tokenizer().is_none());
}
