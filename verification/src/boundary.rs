use vstd::prelude::*;

verus! {

/// The foreign-call boundary's failure policy: a successful evaluation
/// passes through unchanged, while a validation failure is absorbed and
/// replaced by a freshly allocated zero-filled output whose length is that
/// of the entry point's nominated primary input column. No error indicator
/// ever crosses the boundary, so an outside caller cannot tell a rejected
/// batch from one whose records all evaluated to the zero value.
pub fn absorb_failure<T: Copy>(res: Result<Vec<T>, T>, primary_len: usize, zero: T) -> (out: Vec<
    T,
>)
    ensures
        res matches Ok(v) ==> out == v,
        res is Err ==> out@.len() == primary_len && forall|i: int|
            0 <= i < primary_len ==> out@[i] == zero,
{
    match res {
        Ok(v) => v,
        Err(_) => {
            let mut out: Vec<T> = Vec::new();
            let mut i: usize = 0;
            while i < primary_len
                invariant
                    i <= primary_len,
                    out@.len() == i,
                    forall|k: int| 0 <= k < i ==> out@[k] == zero,
                decreases primary_len - i,
            {
                out.push(zero);
                i += 1;
            }
            out
        },
    }
}

} // verus!
