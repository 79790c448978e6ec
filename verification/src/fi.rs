use vstd::prelude::*;

verus! {

/// Evaluates one batch for the fire-intensity entry point.
///
/// The inputs are two parallel columns, fuel consumption and rate of spread;
/// position `i` across both belongs to the same record. A batch whose
/// columns disagree in length is rejected with the caller's sentinel as the
/// failure marker and no record is touched. Otherwise the result is a
/// freshly allocated column of the common length holding, in record order,
/// one application of the caller's record transform `fi_of` per record, so
/// each output value is pinned to its own record's fields alone.
pub fn fi_calc<T: Copy, F: Fn(T, T) -> T>(fc: &[T], ros: &[T], sentinel: T, fi_of: F) -> (res:
    Result<Vec<T>, T>)
    requires
        fc@.len() == ros@.len() ==> forall|i: int|
            0 <= i < fc@.len() ==> call_requires(fi_of, (fc@[i], ros@[i])),
    ensures
        res is Err <==> fc@.len() != ros@.len(),
        res matches Err(e) ==> e == sentinel,
        res matches Ok(out) ==> out@.len() == fc@.len(),
        res matches Ok(out) ==> forall|i: int|
            0 <= i < out@.len() ==> call_ensures(fi_of, (fc@[i], ros@[i]), #[trigger] out@[i]),
{
    let n = fc.len();
    if ros.len() != n {
        return Err(sentinel);
    }
    let mut out: Vec<T> = Vec::new();
    let mut i: usize = 0;
    while i < n
        invariant
            n == fc@.len() && n == ros@.len(),
            i <= n,
            out@.len() == i,
            forall|k: int| 0 <= k < n ==> call_requires(fi_of, (fc@[k], ros@[k])),
            forall|k: int|
                0 <= k < i ==> call_ensures(fi_of, (fc@[k], ros@[k]), #[trigger] out@[k]),
        decreases n - i,
    {
        out.push(fi_of(fc[i], ros[i]));
        i += 1;
    }
    Ok(out)
}

/// Per-record independence of the fire-intensity transform, stated as for
/// the CFB/RSO evaluator: for any deterministic record transform, two
/// evaluations whose batches agree on one record position produce the same
/// value at those positions.
pub proof fn lemma_fi_record_independence<T, F: Fn(T, T) -> T>(
    fi_of: F,
    fc1: Seq<T>,
    ros1: Seq<T>,
    out1: Seq<T>,
    fc2: Seq<T>,
    ros2: Seq<T>,
    out2: Seq<T>,
    i: int,
    j: int,
)
    requires
        forall|x: (T, T), r1: T, r2: T|
            call_ensures(fi_of, x, r1) && call_ensures(fi_of, x, r2) ==> r1 == r2,
        forall|k: int|
            0 <= k < out1.len() ==> call_ensures(fi_of, (fc1[k], ros1[k]), #[trigger] out1[k]),
        forall|k: int|
            0 <= k < out2.len() ==> call_ensures(fi_of, (fc2[k], ros2[k]), #[trigger] out2[k]),
        0 <= i < out1.len(),
        0 <= j < out2.len(),
        fc1[i] == fc2[j],
        ros1[i] == ros2[j],
    ensures
        out1[i] == out2[j],
{
    assert(call_ensures(fi_of, (fc1[i], ros1[i]), out1[i]));
    assert(call_ensures(fi_of, (fc2[j], ros2[j]), out2[j]));
}

} // verus!
