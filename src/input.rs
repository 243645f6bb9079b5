use vstd::prelude::*;

verus! {

/// A loosely shaped request value, as read off the wire: a text, a list of
/// values, or anything else (a number, a boolean, null, an object).
pub enum RawValue {
    Text(String),
    List(Vec<RawValue>),
    Other,
}

/// One logical model input: a single text, or an ordered pair of texts.
#[derive(Debug)]
pub enum Sequence {
    Single(String),
    Pair(String, String),
}

/// A normalized request: one sequence, or a non-empty batch of sequences.
#[derive(Debug)]
pub enum PredictInput {
    Single(Sequence),
    Batch(Vec<Sequence>),
}

/// Why a raw value is not an accepted input shape.
#[derive(Clone, Copy, Debug, PartialEq, Eq, Structural)]
pub enum ShapeError {
    /// The top-level list has a length that no shape accepts.
    InvalidLength { len: usize },
    /// The batch element at `index` is a list of `len` texts, where one or
    /// two are accepted.
    InvalidElementLength { index: usize, len: usize },
    /// A value has a kind that the grammar does not accept at its place.
    InvalidType,
}

/// What a `Sequence` denotes.
pub enum SequenceView {
    Single(Seq<char>),
    Pair(Seq<char>, Seq<char>),
}

/// What a `PredictInput` denotes.
pub enum InputView {
    Single(SequenceView),
    Batch(Seq<SequenceView>),
}

impl View for Sequence {
    type V = SequenceView;

    open spec fn view(&self) -> SequenceView {
        match self {
            Sequence::Single(s) => SequenceView::Single(s@),
            Sequence::Pair(a, b) => SequenceView::Pair(a@, b@),
        }
    }
}

pub open spec fn sequences_view(v: Seq<Sequence>) -> Seq<SequenceView> {
    v.map_values(|s: Sequence| s@)
}

impl View for PredictInput {
    type V = InputView;

    open spec fn view(&self) -> InputView {
        match self {
            PredictInput::Single(s) => InputView::Single(s@),
            PredictInput::Batch(v) => InputView::Batch(sequences_view(v@)),
        }
    }
}

pub open spec fn result_view(r: Result<PredictInput, ShapeError>) -> Result<InputView, ShapeError> {
    match r {
        Ok(p) => Ok(p@),
        Err(e) => Err(e),
    }
}

pub open spec fn is_text(v: RawValue) -> bool {
    v is Text
}

pub open spec fn text_of(v: RawValue) -> Seq<char> {
    match v {
        RawValue::Text(s) => s@,
        _ => Seq::empty(),
    }
}

/// Every member of `xs` is a text.
pub open spec fn all_texts(xs: Seq<RawValue>) -> bool {
    forall|i: int| 0 <= i < xs.len() ==> is_text(#[trigger] xs[i])
}

/// The sequence that a list of one or two texts stands for.
pub open spec fn sequence_of_texts(xs: Seq<RawValue>) -> SequenceView {
    if xs.len() == 1 {
        SequenceView::Single(text_of(xs[0]))
    } else {
        SequenceView::Pair(text_of(xs[0]), text_of(xs[1]))
    }
}

/// A batch element at position `index`: a list of one or two texts.
pub open spec fn batch_element(v: RawValue, index: nat) -> Result<SequenceView, ShapeError> {
    match v {
        RawValue::List(xs) => {
            if !all_texts(xs@) {
                Err(ShapeError::InvalidType)
            } else if xs@.len() == 1 || xs@.len() == 2 {
                Ok(sequence_of_texts(xs@))
            } else {
                Err(ShapeError::InvalidElementLength { index: index as usize, len: xs@.len() as usize })
            }
        },
        _ => Err(ShapeError::InvalidType),
    }
}

/// The first `n` elements of a batch, read in order; the first element that
/// is not accepted decides the error.
pub open spec fn batch_prefix(xs: Seq<RawValue>, n: nat) -> Result<Seq<SequenceView>, ShapeError>
    decreases n,
{
    if n == 0 {
        Ok(Seq::empty())
    } else {
        match batch_prefix(xs, (n - 1) as nat) {
            Err(e) => Err(e),
            Ok(p) => match batch_element(xs[n - 1], (n - 1) as nat) {
                Err(e) => Err(e),
                Ok(q) => Ok(p.push(q)),
            },
        }
    }
}

/// A non-empty top-level list whose first member is a text: one text or a
/// pair of texts.
pub open spec fn plain_list(xs: Seq<RawValue>) -> Result<InputView, ShapeError> {
    if xs.len() == 1 {
        Ok(InputView::Single(SequenceView::Single(text_of(xs[0]))))
    } else if !is_text(xs[1]) {
        Err(ShapeError::InvalidType)
    } else if xs.len() == 2 {
        Ok(InputView::Single(SequenceView::Pair(text_of(xs[0]), text_of(xs[1]))))
    } else if !is_text(xs[2]) {
        Err(ShapeError::InvalidType)
    } else {
        Err(ShapeError::InvalidLength { len: xs.len() as usize })
    }
}

/// What normalizing a raw value gives.
pub open spec fn normalized(v: RawValue) -> Result<InputView, ShapeError> {
    match v {
        RawValue::Text(s) => Ok(InputView::Single(SequenceView::Single(s@))),
        RawValue::Other => Err(ShapeError::InvalidType),
        RawValue::List(items) => {
            let xs = items@;
            if xs.len() == 0 {
                Err(ShapeError::InvalidLength { len: 0 })
            } else {
                match xs[0] {
                    RawValue::Text(_) => plain_list(xs),
                    RawValue::List(_) => match batch_prefix(xs, xs.len()) {
                        Ok(b) => Ok(InputView::Batch(b)),
                        Err(e) => Err(e),
                    },
                    RawValue::Other => Err(ShapeError::InvalidType),
                }
            }
        },
    }
}

proof fn lemma_batch_prefix_err_sticks(xs: Seq<RawValue>, i: nat, n: nat, e: ShapeError)
    requires
        i <= n,
        batch_prefix(xs, i) == Err::<Seq<SequenceView>, ShapeError>(e),
    ensures
        batch_prefix(xs, n) == Err::<Seq<SequenceView>, ShapeError>(e),
    decreases n - i,
{
    if i < n {
        lemma_batch_prefix_err_sticks(xs, i, (n - 1) as nat, e);
    }
}

impl Sequence {
    /// The number of characters in the sequence's texts.
    pub fn count_chars(&self) -> (r: usize)
        requires
            match self@ {
                SequenceView::Single(_) => true,
                SequenceView::Pair(a, b) => a.len() + b.len() <= usize::MAX,
            },
        ensures
            r == match self@ {
                SequenceView::Single(s) => s.len(),
                SequenceView::Pair(a, b) => a.len() + b.len(),
            },
    {
        match self {
            Sequence::Single(s) => s.as_str().unicode_len(),
            Sequence::Pair(s1, s2) => s1.as_str().unicode_len() + s2.as_str().unicode_len(),
        }
    }
}

fn text_clone(v: &RawValue) -> (r: String)
    requires
        is_text(*v),
    ensures
        r@ == text_of(*v),
{
    match v {
        RawValue::Text(s) => s.clone(),
        _ => String::new(),
    }
}

/// Reads one batch element: a list of one or two texts.
fn read_element(v: &RawValue, index: usize) -> (r: Result<Sequence, ShapeError>)
    ensures
        match r {
            Ok(s) => batch_element(*v, index as nat) == Ok::<SequenceView, ShapeError>(s@),
            Err(e) => batch_element(*v, index as nat) == Err::<SequenceView, ShapeError>(e),
        },
{
    match v {
        RawValue::List(xs) => {
            let n = xs.len();
            let mut i: usize = 0;
            while i < n
                invariant
                    *v == RawValue::List(*xs),
                    n == xs@.len(),
                    i <= n,
                    forall|j: int| 0 <= j < i ==> is_text(#[trigger] xs@[j]),
                decreases n - i,
            {
                if !matches!(xs[i], RawValue::Text(_)) {
                    assert(!is_text(xs@[i as int]));
                    return Err(ShapeError::InvalidType);
                }
                i = i + 1;
            }
            if n == 1 {
                Ok(Sequence::Single(text_clone(&xs[0])))
            } else if n == 2 {
                Ok(Sequence::Pair(text_clone(&xs[0]), text_clone(&xs[1])))
            } else {
                Err(ShapeError::InvalidElementLength { index, len: n })
            }
        },
        _ => Err(ShapeError::InvalidType),
    }
}

/// Normalizes a raw request value into a single sequence or a batch.
///
/// A text is a single sequence; a list of one or two texts is a single or a
/// pair; a list whose first member is a list is a batch, each member of which
/// must be a list of one or two texts. Elements are neither dropped nor
/// reordered, and the first element out of the grammar decides the error.
pub fn normalize(v: &RawValue) -> (r: Result<PredictInput, ShapeError>)
    ensures
        result_view(r) == normalized(*v),
{
    match v {
        RawValue::Text(s) => Ok(PredictInput::Single(Sequence::Single(s.clone()))),
        RawValue::Other => Err(ShapeError::InvalidType),
        RawValue::List(xs) => {
            let n = xs.len();
            if n == 0 {
                return Err(ShapeError::InvalidLength { len: 0 });
            }
            match &xs[0] {
                RawValue::Text(a) => {
                    if n == 1 {
                        return Ok(PredictInput::Single(Sequence::Single(a.clone())));
                    }
                    if !matches!(xs[1], RawValue::Text(_)) {
                        return Err(ShapeError::InvalidType);
                    }
                    if n == 2 {
                        return Ok(PredictInput::Single(Sequence::Pair(a.clone(), text_clone(&xs[1]))));
                    }
                    if !matches!(xs[2], RawValue::Text(_)) {
                        return Err(ShapeError::InvalidType);
                    }
                    Err(ShapeError::InvalidLength { len: n })
                },
                RawValue::Other => Err(ShapeError::InvalidType),
                RawValue::List(_) => {
                    let mut batch: Vec<Sequence> = Vec::new();
                    let mut i: usize = 0;
                    assert(sequences_view(batch@) =~= Seq::<SequenceView>::empty());
                    while i < n
                        invariant
                            *v == RawValue::List(*xs),
                            xs@[0] is List,
                            n == xs@.len(),
                            i <= n,
                            batch_prefix(xs@, i as nat) == Ok::<Seq<SequenceView>, ShapeError>(
                                sequences_view(batch@),
                            ),
                        decreases n - i,
                    {
                        match read_element(&xs[i], i) {
                            Ok(s) => {
                                proof {
                                    assert(sequences_view(batch@.push(s)) =~= sequences_view(
                                        batch@,
                                    ).push(s@));
                                }
                                batch.push(s);
                            },
                            Err(e) => {
                                proof {
                                    assert(batch_prefix(xs@, (i + 1) as nat) == Err::<
                                        Seq<SequenceView>,
                                        ShapeError,
                                    >(e));
                                    lemma_batch_prefix_err_sticks(xs@, (i + 1) as nat, n as nat, e);
                                }
                                return Err(e);
                            },
                        }
                        i = i + 1;
                    }
                    Ok(PredictInput::Batch(batch))
                },
            }
        },
    }
}

/// For all texts `a` and `b`: the text `a` normalizes to the single `a`, the
/// list `[a]` to the single `a`, and the list `[a, b]` to the pair `(a, b)`,
/// in that order.
pub proof fn lemma_single_and_pair(a: String, b: String, one: Vec<RawValue>, two: Vec<RawValue>)
    requires
        one@ == seq![RawValue::Text(a)],
        two@ == seq![RawValue::Text(a), RawValue::Text(b)],
    ensures
        normalized(RawValue::Text(a)) == Ok::<InputView, ShapeError>(
            InputView::Single(SequenceView::Single(a@)),
        ),
        normalized(RawValue::List(one)) == Ok::<InputView, ShapeError>(
            InputView::Single(SequenceView::Single(a@)),
        ),
        normalized(RawValue::List(two)) == Ok::<InputView, ShapeError>(
            InputView::Single(SequenceView::Pair(a@, b@)),
        ),
{
}

/// The empty list, and every top-level list of three or more texts, fail
/// with a length error.
pub proof fn lemma_bad_arity(empty: Vec<RawValue>, many: Vec<RawValue>)
    requires
        empty@.len() == 0,
        many@.len() >= 3,
        all_texts(many@),
    ensures
        normalized(RawValue::List(empty)) == Err::<InputView, ShapeError>(
            ShapeError::InvalidLength { len: 0 },
        ),
        normalized(RawValue::List(many)) == Err::<InputView, ShapeError>(
            ShapeError::InvalidLength { len: many@.len() as usize },
        ),
{
    assert(is_text(many@[0]) && is_text(many@[1]) && is_text(many@[2]));
}

/// A batch may mix singles and pairs: `[[a], [b, c], [d]]` normalizes to the
/// batch `[single a, pair (b, c), single d]`, in that order.
pub proof fn lemma_mixed_batch(
    a: String,
    b: String,
    c: String,
    d: String,
    x0: Vec<RawValue>,
    x1: Vec<RawValue>,
    x2: Vec<RawValue>,
    outer: Vec<RawValue>,
)
    requires
        x0@ == seq![RawValue::Text(a)],
        x1@ == seq![RawValue::Text(b), RawValue::Text(c)],
        x2@ == seq![RawValue::Text(d)],
        outer@ == seq![RawValue::List(x0), RawValue::List(x1), RawValue::List(x2)],
    ensures
        normalized(RawValue::List(outer)) == Ok::<InputView, ShapeError>(
            InputView::Batch(
                seq![
                    SequenceView::Single(a@),
                    SequenceView::Pair(b@, c@),
                    SequenceView::Single(d@),
                ],
            ),
        ),
{
    let xs = outer@;
    assert(all_texts(x0@));
    assert(all_texts(x1@));
    assert(all_texts(x2@));
    assert(batch_prefix(xs, 0) == Ok::<Seq<SequenceView>, ShapeError>(Seq::empty()));
    assert(batch_prefix(xs, 1) == Ok::<Seq<SequenceView>, ShapeError>(
        seq![SequenceView::Single(a@)],
    )) by {
        assert(seq![SequenceView::Single(a@)] =~= Seq::<SequenceView>::empty().push(
            SequenceView::Single(a@),
        ));
    }
    assert(batch_prefix(xs, 2) == Ok::<Seq<SequenceView>, ShapeError>(
        seq![SequenceView::Single(a@), SequenceView::Pair(b@, c@)],
    )) by {
        assert(seq![SequenceView::Single(a@), SequenceView::Pair(b@, c@)] =~= seq![
            SequenceView::Single(a@),
        ].push(SequenceView::Pair(b@, c@)));
    }
    assert(batch_prefix(xs, 3) == Ok::<Seq<SequenceView>, ShapeError>(
        seq![SequenceView::Single(a@), SequenceView::Pair(b@, c@), SequenceView::Single(d@)],
    )) by {
        assert(seq![
            SequenceView::Single(a@),
            SequenceView::Pair(b@, c@),
            SequenceView::Single(d@),
        ] =~= seq![SequenceView::Single(a@), SequenceView::Pair(b@, c@)].push(
            SequenceView::Single(d@),
        ));
    }
}

/// `[[a], [b, c, d]]` fails with a length error on the second batch element,
/// a list of three texts.
pub proof fn lemma_batch_element_too_long(
    a: String,
    b: String,
    c: String,
    d: String,
    x0: Vec<RawValue>,
    x1: Vec<RawValue>,
    outer: Vec<RawValue>,
)
    requires
        x0@ == seq![RawValue::Text(a)],
        x1@ == seq![RawValue::Text(b), RawValue::Text(c), RawValue::Text(d)],
        outer@ == seq![RawValue::List(x0), RawValue::List(x1)],
    ensures
        normalized(RawValue::List(outer)) == Err::<InputView, ShapeError>(
            ShapeError::InvalidElementLength { index: 1, len: 3 },
        ),
{
    let xs = outer@;
    assert(all_texts(x0@));
    assert(all_texts(x1@));
    assert(batch_prefix(xs, 0) == Ok::<Seq<SequenceView>, ShapeError>(Seq::empty()));
    assert(batch_prefix(xs, 1) is Ok);
    assert(batch_prefix(xs, 2) == Err::<Seq<SequenceView>, ShapeError>(
        ShapeError::InvalidElementLength { index: 1, len: 3 },
    ));
}

} // verus!
