use tokenizers::pre_tokenizers::metaspace::PrependScheme;
use tokenizers::{PreTokenizerWrapper, Tokenizer};
use vstd::prelude::*;

verus! {

/// When a metaspace pre-tokenizer prepends its replacement character.
#[derive(Clone, Copy, Debug, PartialEq, Eq, Structural)]
pub enum Prepend {
    /// Only on the first split of the input.
    First,
    /// Never.
    Never,
    /// On every split.
    Always,
}

/// What the patch reads of a tokenizer's pre-tokenizer: a metaspace member
/// with its prepend scheme, a sequence of members (`Some` scheme for each
/// metaspace member, `None` for any other), or anything else.
#[derive(Debug, PartialEq, Eq)]
pub enum PreTokenizerShape {
    Metaspace(Prepend),
    Sequence(Vec<Option<Prepend>>),
    Other,
}

/// What a `PreTokenizerShape` denotes.
pub enum ShapeView {
    Metaspace(Prepend),
    Sequence(Seq<Option<Prepend>>),
    Other,
}

impl View for PreTokenizerShape {
    type V = ShapeView;

    open spec fn view(&self) -> ShapeView {
        match self {
            PreTokenizerShape::Metaspace(p) => ShapeView::Metaspace(*p),
            PreTokenizerShape::Sequence(v) => ShapeView::Sequence(v@),
            PreTokenizerShape::Other => ShapeView::Other,
        }
    }
}

/// A sequence member after the patch: a metaspace member prepends on the
/// first split only, any other member is left as it is.
pub open spec fn patched_member(m: Option<Prepend>) -> Option<Prepend> {
    match m {
        Some(_) => Some(Prepend::First),
        None => None,
    }
}

/// A pre-tokenizer after the patch.
pub open spec fn patched(s: ShapeView) -> ShapeView {
    match s {
        ShapeView::Metaspace(_) => ShapeView::Metaspace(Prepend::First),
        ShapeView::Sequence(ms) => ShapeView::Sequence(ms.map_values(|m| patched_member(m))),
        ShapeView::Other => ShapeView::Other,
    }
}

/// Forces every metaspace pre-tokenizer, alone or nested in a sequence, to
/// prepend on the first split only, and leaves every other member untouched.
pub fn patch_pre_tokenizer(s: &PreTokenizerShape) -> (r: PreTokenizerShape)
    ensures
        r@ == patched(s@),
{
    match s {
        PreTokenizerShape::Metaspace(_) => PreTokenizerShape::Metaspace(Prepend::First),
        PreTokenizerShape::Other => PreTokenizerShape::Other,
        PreTokenizerShape::Sequence(ms) => {
            let mut out: Vec<Option<Prepend>> = Vec::new();
            let mut i: usize = 0;
            while i < ms.len()
                invariant
                    i <= ms@.len(),
                    out@.len() == i,
                    forall|j: int| 0 <= j < i ==> out@[j] == patched_member(#[trigger] ms@[j]),
                decreases ms@.len() - i,
            {
                match ms[i] {
                    Some(_) => out.push(Some(Prepend::First)),
                    None => out.push(None),
                }
                i = i + 1;
            }
            proof {
                assert(out@ =~= ms@.map_values(|m| patched_member(m)));
            }
            PreTokenizerShape::Sequence(out)
        },
    }
}

/// Patching twice leaves the same prepend schemes as patching once.
pub proof fn lemma_patch_idempotent(s: ShapeView)
    ensures
        patched(patched(s)) == patched(s),
{
    match s {
        ShapeView::Sequence(ms) => {
            let once = ms.map_values(|m| patched_member(m));
            assert(once.map_values(|m| patched_member(m)) =~= once);
        },
        _ => {},
    }
}

/// After the patch no metaspace pre-tokenizer, alone or nested, prepends on
/// anything but the first split.
pub proof fn lemma_patch_prepends_first(s: ShapeView)
    ensures
        patched(s) matches ShapeView::Metaspace(p) ==> p == Prepend::First,
        patched(s) matches ShapeView::Sequence(ms) ==> forall|i: int|
            0 <= i < ms.len() && #[trigger] ms[i] is Some ==> ms[i] == Some(Prepend::First),
{
}

#[verifier::external_type_specification]
#[verifier::external_body]
pub struct ExTokenizer(Tokenizer);

#[verifier::external_type_specification]
#[verifier::external_body]
pub struct ExPrependScheme(PrependScheme);

/// Relies on tokenizers' `PrependScheme` having the three variants that
/// `Prepend` names: converts one to the other.
#[verifier::external_body]
fn prepend_of(p: PrependScheme) -> Prepend {
    match p {
        PrependScheme::First => Prepend::First,
        PrependScheme::Never => Prepend::Never,
        PrependScheme::Always => Prepend::Always,
    }
}

/// Relies on tokenizers' `PrependScheme` having the three variants that
/// `Prepend` names: converts one to the other.
#[verifier::external_body]
fn scheme_of(p: Prepend) -> PrependScheme {
    match p {
        Prepend::First => PrependScheme::First,
        Prepend::Never => PrependScheme::Never,
        Prepend::Always => PrependScheme::Always,
    }
}

/// The tokenizer's pre-tokenizer as a shape: a metaspace with its prepend
/// scheme, a sequence with the scheme of each metaspace member, or anything
/// else (including none).
pub uninterp spec fn pre_tokenizer_of(t: Tokenizer) -> ShapeView;

/// Whether the tokenizer pads its encodings.
pub uninterp spec fn has_padding(t: Tokenizer) -> bool;

/// Relies on `TokenizerImpl::get_pre_tokenizer`, `Sequence::get_pre_tokenizers`
/// and `Metaspace::get_prepend_scheme`: reads the tokenizer's pre-tokenizer as
/// a shape, each metaspace member with its prepend scheme.
#[verifier::external_body]
fn read_pre_tokenizer(t: &Tokenizer) -> (r: PreTokenizerShape)
    ensures
        r@ == pre_tokenizer_of(*t),
{
    let member = |w: &PreTokenizerWrapper| match w {
        PreTokenizerWrapper::Metaspace(m) => Some(prepend_of(m.get_prepend_scheme())),
        _ => None,
    };
    match t.get_pre_tokenizer() {
        Some(PreTokenizerWrapper::Metaspace(m)) => PreTokenizerShape::Metaspace(prepend_of(m.get_prepend_scheme())),
        Some(PreTokenizerWrapper::Sequence(s)) => PreTokenizerShape::Sequence(s.get_pre_tokenizers().iter().map(member).collect()),
        _ => PreTokenizerShape::Other,
    }
}

/// Relies on `Metaspace::set_prepend_scheme` and
/// `TokenizerImpl::with_pre_tokenizer`, which only write their field: where the
/// pre-tokenizer is a metaspace, sets its prepend scheme to `p`; any other
/// pre-tokenizer, and the padding, are left as they were.
#[verifier::external_body]
fn set_prepend(t: &mut Tokenizer, p: Prepend)
    ensures
        pre_tokenizer_of(*old(t)) is Metaspace ==> pre_tokenizer_of(*final(t))
            == ShapeView::Metaspace(p),
        !(pre_tokenizer_of(*old(t)) is Metaspace) ==> pre_tokenizer_of(*final(t))
            == pre_tokenizer_of(*old(t)),
        has_padding(*final(t)) == has_padding(*old(t)),
{
    if let Some(PreTokenizerWrapper::Metaspace(m)) = t.get_pre_tokenizer() {
        let mut m = m.clone();
        m.set_prepend_scheme(scheme_of(p));
        t.with_pre_tokenizer(PreTokenizerWrapper::Metaspace(m));
    }
}

/// Relies on `Sequence::get_pre_tokenizers_mut`, `Metaspace::set_prepend_scheme`
/// and `TokenizerImpl::with_pre_tokenizer`, which only write their field: where
/// the pre-tokenizer is a sequence whose member `i` is a metaspace, sets that
/// member's scheme to `p`; nothing else changes, the padding included.
#[verifier::external_body]
fn set_member_prepend(t: &mut Tokenizer, i: usize, p: Prepend)
    ensures
        (pre_tokenizer_of(*old(t)) matches ShapeView::Sequence(ms) && i < ms.len() && ms[i as int] is Some)
            ==> pre_tokenizer_of(*final(t)) == ShapeView::Sequence(
            pre_tokenizer_of(*old(t))->Sequence_0.update(i as int, Some(p)),
        ),
        !(pre_tokenizer_of(*old(t)) matches ShapeView::Sequence(ms) && i < ms.len() && ms[i as int] is Some)
            ==> pre_tokenizer_of(*final(t)) == pre_tokenizer_of(*old(t)),
        has_padding(*final(t)) == has_padding(*old(t)),
{
    if let Some(PreTokenizerWrapper::Sequence(s)) = t.get_pre_tokenizer() {
        let mut s = s.clone();
        if let Some(PreTokenizerWrapper::Metaspace(m)) = s.get_pre_tokenizers_mut().get_mut(i) {
            m.set_prepend_scheme(scheme_of(p));
        }
        t.with_pre_tokenizer(PreTokenizerWrapper::Sequence(s));
    }
}

/// Relies on `TokenizerImpl::with_padding`, which only writes its field:
/// removes the tokenizer's padding and leaves its pre-tokenizer as it was.
#[verifier::external_body]
fn disable_padding(t: &mut Tokenizer)
    ensures
        pre_tokenizer_of(*final(t)) == pre_tokenizer_of(*old(t)),
        !has_padding(*final(t)),
{
    t.with_padding(None);
}

/// Prepares a loaded tokenizer for the engine: forces every metaspace
/// pre-tokenizer, alone or nested in a sequence, to prepend on the first
/// split only, leaves every other pre-tokenizer as it was, and removes the
/// padding. Returns the pre-tokenizer as read and as written.
pub fn patch_tokenizer(t: &mut Tokenizer) -> (r: (PreTokenizerShape, PreTokenizerShape))
    ensures
        r.0@ == pre_tokenizer_of(*old(t)),
        r.1@ == patched(r.0@),
        pre_tokenizer_of(*final(t)) == patched(pre_tokenizer_of(*old(t))),
        !has_padding(*final(t)),
{
    let before = read_pre_tokenizer(t);
    let after = patch_pre_tokenizer(&before);
    match &after {
        PreTokenizerShape::Metaspace(p) => set_prepend(t, *p),
        PreTokenizerShape::Sequence(ms) => {
            let ghost ms0 = before@->Sequence_0;
            let mut i: usize = 0;
            while i < ms.len()
                invariant
                    i <= ms@.len(),
                    ms0.len() == ms@.len(),
                    ms@ == ms0.map_values(|m| patched_member(m)),
                    pre_tokenizer_of(*t) is Sequence,
                    pre_tokenizer_of(*t)->Sequence_0.len() == ms@.len(),
                    forall|j: int|
                        0 <= j < i ==> #[trigger] pre_tokenizer_of(*t)->Sequence_0[j] == ms@[j],
                    forall|j: int|
                        i <= j < ms@.len() ==> #[trigger] pre_tokenizer_of(*t)->Sequence_0[j]
                            == ms0[j],
                decreases ms@.len() - i,
            {
                if let Some(p) = ms[i] {
                    assert(ms0[i as int] is Some);
                    set_member_prepend(t, i, p);
                }
                i = i + 1;
            }
            assert(pre_tokenizer_of(*t)->Sequence_0 =~= ms@);
        },
        PreTokenizerShape::Other => {},
    }
    disable_padding(t);
    (before, after)
}

/// Patching a tokenizer twice leaves the same pre-tokenizer and padding as
/// patching it once: `once` is `t` after one patch, `twice` is `once` after
/// another.
pub proof fn lemma_patch_tokenizer_idempotent(t: Tokenizer, once: Tokenizer, twice: Tokenizer)
    requires
        pre_tokenizer_of(once) == patched(pre_tokenizer_of(t)),
        !has_padding(once),
        pre_tokenizer_of(twice) == patched(pre_tokenizer_of(once)),
        !has_padding(twice),
    ensures
        pre_tokenizer_of(twice) == pre_tokenizer_of(once),
        has_padding(twice) == has_padding(once),
{
    lemma_patch_idempotent(pre_tokenizer_of(t));
}

} // verus!
