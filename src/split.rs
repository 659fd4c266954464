use vstd::prelude::*;
use crate::error::FitError;

verus! {

/// The number of training samples when `test_size` of `len` samples are held out.
pub open spec fn train_len(len: nat, test_size: nat) -> nat {
    (len - test_size) as nat
}

/// The training prefix of `s` when its last `test_size` elements are held out.
pub open spec fn train_part<T>(s: Seq<T>, test_size: nat) -> Seq<T> {
    s.subrange(0, train_len(s.len(), test_size) as int)
}

/// The testing suffix of `s`: its last `test_size` elements.
pub open spec fn test_part<T>(s: Seq<T>, test_size: nat) -> Seq<T> {
    s.subrange(train_len(s.len(), test_size) as int, s.len() as int)
}

/// The error that splitting `x` and `y` with `test_size` held out gives, if any.
pub open spec fn split_error<T>(x: Seq<T>, y: Seq<T>, test_size: nat) -> Option<FitError> {
    if x.len() != y.len() {
        Some(FitError::LengthMismatch)
    } else if x.len() == 0 {
        Some(FitError::EmptyDataset)
    } else if test_size > x.len() {
        Some(FitError::InvalidRatio)
    } else {
        None
    }
}

/// Copies `s[start..end]` into a new vector.
fn copy_range<T: Copy>(s: &[T], start: usize, end: usize) -> (r: Vec<T>)
    requires
        start <= end <= s@.len(),
    ensures
        r@ == s@.subrange(start as int, end as int),
{
    let mut r: Vec<T> = Vec::new();
    let mut i: usize = start;
    while i < end
        invariant
            start <= i <= end <= s@.len(),
            r@ == s@.subrange(start as int, i as int),
        decreases end - i,
    {
        r.push(s[i]);
        i = i + 1;
        assert(r@ =~= s@.subrange(start as int, i as int));
    }
    r
}

/// Splits paired samples into a training prefix and a testing suffix of
/// `test_size` samples, keeping their order.
///
/// The test size is `len * ratio` rounded by the caller; a size beyond the
/// number of samples means a ratio above one and is refused as `InvalidRatio`.
pub fn split_data<T: Copy>(x: &[T], y: &[T], test_size: usize) -> (r: Result<
    ((Vec<T>, Vec<T>), (Vec<T>, Vec<T>)),
    FitError,
>)
    ensures
        match r {
            Ok(((x_train, y_train), (x_test, y_test))) => {
                &&& split_error(x@, y@, test_size as nat) is None
                &&& x_train@ == train_part(x@, test_size as nat)
                &&& y_train@ == train_part(y@, test_size as nat)
                &&& x_test@ == test_part(x@, test_size as nat)
                &&& y_test@ == test_part(y@, test_size as nat)
            },
            Err(e) => split_error(x@, y@, test_size as nat) == Some(e),
        },
{
    if x.len() != y.len() {
        return Err(FitError::LengthMismatch);
    }
    if x.len() == 0 {
        return Err(FitError::EmptyDataset);
    }
    if test_size > x.len() {
        return Err(FitError::InvalidRatio);
    }
    let train_size = x.len() - test_size;
    let x_train = copy_range(x, 0, train_size);
    let y_train = copy_range(y, 0, train_size);
    let x_test = copy_range(x, train_size, x.len());
    let y_test = copy_range(y, train_size, y.len());
    Ok(((x_train, y_train), (x_test, y_test)))
}

/// A split loses and reorders nothing: the training part and the testing part
/// together hold as many samples as the source, and the training samples, in
/// their order, followed by the testing samples, in theirs, are the source.
pub proof fn lemma_split_partitions<T>(s: Seq<T>, test_size: nat)
    requires
        test_size <= s.len(),
    ensures
        train_part(s, test_size).len() + test_part(s, test_size).len() == s.len(),
        test_part(s, test_size).len() == test_size,
        train_part(s, test_size) + test_part(s, test_size) == s,
{
    assert(train_part(s, test_size) + test_part(s, test_size) =~= s);
}

} // verus!
