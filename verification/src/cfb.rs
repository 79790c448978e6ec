use vstd::prelude::*;

use crate::mode::Mode;

verus! {

/// The CFB/RSO evaluator's validity condition: the four parallel input
/// columns describe one batch only when they all hold the same number of
/// records.
pub open spec fn cfb_lengths_ok(n_fmc: int, n_sfc: int, n_ros: int, n_cbh: int) -> bool {
    &&& n_sfc == n_fmc
    &&& n_ros == n_fmc
    &&& n_cbh == n_fmc
}

/// Evaluates one batch for the CFB/RSO entry point.
///
/// The inputs are parallel columns: foliar moisture content, surface fuel
/// consumption, rate of spread and crown base height; position `i` across
/// all four belongs to the same record. A batch whose columns disagree in
/// length is rejected with the caller's sentinel as the failure marker and
/// no record is touched. Otherwise the result is a freshly allocated column
/// of the common length holding, in record order, one application of
/// `rso_of` per record (mode `Rso`), or one application of `cfb_of` per
/// record (mode `Cfb`). The record transforms are the caller's: `rso_of`
/// reads a record's moisture, fuel consumption and crown base height, and
/// `cfb_of` the whole record, so each output value is pinned to its own
/// record's fields alone.
pub fn cfb_calc<T: Copy, FR: Fn(T, T, T) -> T, FC: Fn(T, T, T, T) -> T>(
    fmc: &[T],
    sfc: &[T],
    ros: &[T],
    cbh: &[T],
    mode: Mode,
    sentinel: T,
    rso_of: FR,
    cfb_of: FC,
) -> (res: Result<Vec<T>, T>)
    requires
        (cfb_lengths_ok(fmc@.len() as int, sfc@.len() as int, ros@.len() as int, cbh@.len() as int)
            && mode is Rso) ==> forall|i: int|
            0 <= i < fmc@.len() ==> call_requires(rso_of, (fmc@[i], sfc@[i], cbh@[i])),
        (cfb_lengths_ok(fmc@.len() as int, sfc@.len() as int, ros@.len() as int, cbh@.len() as int)
            && mode is Cfb) ==> forall|i: int|
            0 <= i < fmc@.len() ==> call_requires(cfb_of, (fmc@[i], sfc@[i], ros@[i], cbh@[i])),
    ensures
        res is Err <==> !cfb_lengths_ok(
            fmc@.len() as int,
            sfc@.len() as int,
            ros@.len() as int,
            cbh@.len() as int,
        ),
        res matches Err(e) ==> e == sentinel,
        res matches Ok(out) ==> out@.len() == fmc@.len(),
        mode is Rso ==> (res matches Ok(out) ==> forall|i: int|
            0 <= i < out@.len() ==> call_ensures(
                rso_of,
                (fmc@[i], sfc@[i], cbh@[i]),
                #[trigger] out@[i],
            )),
        mode is Cfb ==> (res matches Ok(out) ==> forall|i: int|
            0 <= i < out@.len() ==> call_ensures(
                cfb_of,
                (fmc@[i], sfc@[i], ros@[i], cbh@[i]),
                #[trigger] out@[i],
            )),
{
    let n = fmc.len();
    if sfc.len() != n || ros.len() != n || cbh.len() != n {
        return Err(sentinel);
    }
    let mut out: Vec<T> = Vec::new();
    let mut i: usize = 0;
    match mode {
        Mode::Rso => {
            while i < n
                invariant
                    n == fmc@.len() && n == sfc@.len() && n == cbh@.len(),
                    i <= n,
                    out@.len() == i,
                    forall|k: int|
                        0 <= k < n ==> call_requires(rso_of, (fmc@[k], sfc@[k], cbh@[k])),
                    forall|k: int|
                        0 <= k < i ==> call_ensures(
                            rso_of,
                            (fmc@[k], sfc@[k], cbh@[k]),
                            #[trigger] out@[k],
                        ),
                decreases n - i,
            {
                out.push(rso_of(fmc[i], sfc[i], cbh[i]));
                i += 1;
            }
        },
        Mode::Cfb => {
            while i < n
                invariant
                    n == fmc@.len() && n == sfc@.len() && n == ros@.len() && n == cbh@.len(),
                    i <= n,
                    out@.len() == i,
                    forall|k: int|
                        0 <= k < n ==> call_requires(cfb_of, (fmc@[k], sfc@[k], ros@[k], cbh@[k])),
                    forall|k: int|
                        0 <= k < i ==> call_ensures(
                            cfb_of,
                            (fmc@[k], sfc@[k], ros@[k], cbh@[k]),
                            #[trigger] out@[k],
                        ),
                decreases n - i,
            {
                out.push(cfb_of(fmc[i], sfc[i], ros[i], cbh[i]));
                i += 1;
            }
        },
    }
    Ok(out)
}

/// Per-record independence of the crown-fraction-burned branch: a record's
/// output is fixed by that record's own field values alone. For any
/// deterministic record transform, two evaluations whose batches agree on
/// one record position produce the same value at those positions; in
/// particular a batch of identical records yields identical output values,
/// each equal to the single-record result.
pub proof fn lemma_cfb_record_independence<T, FC: Fn(T, T, T, T) -> T>(
    cfb_of: FC,
    fmc1: Seq<T>,
    sfc1: Seq<T>,
    ros1: Seq<T>,
    cbh1: Seq<T>,
    out1: Seq<T>,
    fmc2: Seq<T>,
    sfc2: Seq<T>,
    ros2: Seq<T>,
    cbh2: Seq<T>,
    out2: Seq<T>,
    i: int,
    j: int,
)
    requires
        forall|x: (T, T, T, T), r1: T, r2: T|
            call_ensures(cfb_of, x, r1) && call_ensures(cfb_of, x, r2) ==> r1 == r2,
        forall|k: int|
            0 <= k < out1.len() ==> call_ensures(
                cfb_of,
                (fmc1[k], sfc1[k], ros1[k], cbh1[k]),
                #[trigger] out1[k],
            ),
        forall|k: int|
            0 <= k < out2.len() ==> call_ensures(
                cfb_of,
                (fmc2[k], sfc2[k], ros2[k], cbh2[k]),
                #[trigger] out2[k],
            ),
        0 <= i < out1.len(),
        0 <= j < out2.len(),
        fmc1[i] == fmc2[j],
        sfc1[i] == sfc2[j],
        ros1[i] == ros2[j],
        cbh1[i] == cbh2[j],
    ensures
        out1[i] == out2[j],
{
    assert(call_ensures(cfb_of, (fmc1[i], sfc1[i], ros1[i], cbh1[i]), out1[i]));
    assert(call_ensures(cfb_of, (fmc2[j], sfc2[j], ros2[j], cbh2[j]), out2[j]));
}

/// Per-record independence of the critical-rate-of-spread branch, stated as
/// for the crown-fraction-burned branch.
pub proof fn lemma_rso_record_independence<T, FR: Fn(T, T, T) -> T>(
    rso_of: FR,
    fmc1: Seq<T>,
    sfc1: Seq<T>,
    cbh1: Seq<T>,
    out1: Seq<T>,
    fmc2: Seq<T>,
    sfc2: Seq<T>,
    cbh2: Seq<T>,
    out2: Seq<T>,
    i: int,
    j: int,
)
    requires
        forall|x: (T, T, T), r1: T, r2: T|
            call_ensures(rso_of, x, r1) && call_ensures(rso_of, x, r2) ==> r1 == r2,
        forall|k: int|
            0 <= k < out1.len() ==> call_ensures(
                rso_of,
                (fmc1[k], sfc1[k], cbh1[k]),
                #[trigger] out1[k],
            ),
        forall|k: int|
            0 <= k < out2.len() ==> call_ensures(
                rso_of,
                (fmc2[k], sfc2[k], cbh2[k]),
                #[trigger] out2[k],
            ),
        0 <= i < out1.len(),
        0 <= j < out2.len(),
        fmc1[i] == fmc2[j],
        sfc1[i] == sfc2[j],
        cbh1[i] == cbh2[j],
    ensures
        out1[i] == out2[j],
{
    assert(call_ensures(rso_of, (fmc1[i], sfc1[i], cbh1[i]), out1[i]));
    assert(call_ensures(rso_of, (fmc2[j], sfc2[j], cbh2[j]), out2[j]));
}

} // verus!
