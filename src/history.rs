use vstd::prelude::*;
use crate::model::Measurement;

verus! {

/// The first `limit` readings of device `device_id` in `rows`, in the order of
/// `rows` (newest first when `rows` is).
pub open spec fn recent_of(rows: Seq<Measurement>, device_id: i32, limit: nat) -> Seq<Measurement> {
    let own = rows.filter(|m: Measurement| m.device_id == device_id);
    if own.len() <= limit {
        own
    } else {
        own.take(limit as int)
    }
}

/// Picks out of `rows` the readings of one device, at most `limit` of them.
pub fn recent_of_device(rows: &Vec<Measurement>, device_id: i32, limit: usize) -> (r: Vec<
    Measurement,
>)
    ensures
        r@ == recent_of(rows@, device_id, limit as nat),
{
    let mut out: Vec<Measurement> = Vec::new();
    let mut i: usize = 0;
    while i < rows.len()
        invariant
            i <= rows@.len(),
            out@ == recent_of(rows@.take(i as int), device_id, limit as nat),
        decreases rows@.len() - i,
    {
        proof {
            let pred = |m: Measurement| m.device_id == device_id;
            assert(rows@.take(i + 1).drop_last() =~= rows@.take(i as int));
            reveal(Seq::filter);
            let before = rows@.take(i as int).filter(pred);
            let after = rows@.take(i + 1).filter(pred);
            if pred(rows@[i as int]) {
                assert(after == before.push(rows@[i as int]));
                if before.len() >= limit {
                    assert(after.take(limit as int) =~= recent_of(rows@.take(i as int), device_id, limit as nat));
                }
            } else {
                assert(after == before);
            }
        }
        let m = rows[i];
        if m.device_id == device_id && out.len() < limit {
            out.push(m);
        }
        i = i + 1;
    }
    assert(rows@.take(rows@.len() as int) =~= rows@);
    out
}

/// Groups the readings `rows` (newest first) by device: entry `k` of the
/// result holds the newest `limit` readings of `device_ids[k]`, empty where it
/// has none.
pub fn recent_by_device(device_ids: &Vec<i32>, rows: &Vec<Measurement>, limit: usize) -> (r: Vec<
    Vec<Measurement>,
>)
    ensures
        r@.len() == device_ids@.len(),
        forall|k: int|
            0 <= k < device_ids@.len() ==> r@[k]@ == recent_of(rows@, device_ids@[k], limit as nat),
{
    let mut groups: Vec<Vec<Measurement>> = Vec::new();
    let mut k: usize = 0;
    while k < device_ids.len()
        invariant
            k <= device_ids@.len(),
            groups@.len() == k,
            forall|j: int|
                0 <= j < k ==> groups@[j]@ == recent_of(rows@, device_ids@[j], limit as nat),
        decreases device_ids@.len() - k,
    {
        let group = recent_of_device(rows, device_ids[k], limit);
        groups.push(group);
        k = k + 1;
    }
    groups
}

} // verus!
