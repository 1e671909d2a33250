//! The expiry reaper's decision rules: which expiry an artifact carries,
//! which items of a sweep must be deleted, and how a delete outcome is
//! absorbed when the item is already gone.

use crate::meta::expire_by_key;
use crate::numfmt::{parse_i64, spec_parse_i64};
use vstd::prelude::*;

verus! {

/// One item of a sweep: its name and the expiry it carries, if any. For
/// requests the expiry comes from the status record; for issued artifacts
/// from the `expire-by` annotation.
pub struct ExpiryItem {
    pub name: String,
    pub expires_at: Option<i64>,
}

pub struct ExpiryItemView {
    pub name: Seq<char>,
    pub expires_at: Option<int>,
}

impl View for ExpiryItem {
    type V = ExpiryItemView;

    open spec fn view(&self) -> ExpiryItemView {
        ExpiryItemView {
            name: self.name@,
            expires_at: match self.expires_at {
                Some(e) => Some(e as int),
                None => None,
            },
        }
    }
}

/// An item is expired at `now` exactly when it carries an expiry lying
/// strictly before `now`.
pub open spec fn spec_item_expired(expires_at: Option<int>, now: int) -> bool {
    match expires_at {
        Some(e) => e < now,
        None => false,
    }
}

/// The value of the first `expire-by` annotation, when the list holds one.
pub open spec fn spec_find_kv(m: Seq<(Seq<char>, Seq<char>)>, k: Seq<char>) -> Option<Seq<char>>
    decreases m.len(),
{
    if m.len() == 0 {
        None
    } else if m[0].0 == k {
        Some(m[0].1)
    } else {
        spec_find_kv(m.drop_first(), k)
    }
}

/// The expiry an artifact's annotations carry: the parsed value of the
/// first `expire-by` annotation, `None` when there is none or it does not
/// parse.
pub open spec fn spec_annotation_expiry(m: Seq<(Seq<char>, Seq<char>)>) -> Option<i64> {
    match spec_find_kv(m, expire_by_key()) {
        Some(v) => spec_parse_i64(v),
        None => None,
    }
}

/// Reads the expiry stamp out of an artifact's annotation list.
pub fn annotation_expiry(annotations: &Vec<(String, String)>) -> (r: Option<i64>)
    ensures
        r == spec_annotation_expiry(crate::meta::kvs_view(annotations@)),
{
    let ghost mv = crate::meta::kvs_view(annotations@);
    let key: String = "kufefe.io/expire-by".to_owned();
    proof {
        assert(mv.subrange(0, mv.len() as int) =~= mv);
    }
    let mut i: usize = 0;
    while i < annotations.len()
        invariant
            i <= annotations@.len(),
            key@ == expire_by_key(),
            mv == crate::meta::kvs_view(annotations@),
            spec_find_kv(mv, expire_by_key()) == spec_find_kv(
                mv.subrange(i as int, mv.len() as int),
                expire_by_key(),
            ),
        decreases annotations@.len() - i,
    {
        proof {
            assert(mv.subrange(i as int, mv.len() as int).drop_first() =~= mv.subrange(
                i + 1,
                mv.len() as int,
            ));
        }
        if annotations[i].0 == key {
            return parse_i64(annotations[i].1.as_str());
        }
        i += 1;
    }
    proof {
        assert(mv.subrange(mv.len() as int, mv.len() as int) =~= Seq::<
            (Seq<char>, Seq<char>),
        >::empty());
    }
    None
}

/// The names a sweep at `now` must delete: those of exactly the expired
/// items, in sweep order.
pub open spec fn spec_select_expired(items: Seq<ExpiryItemView>, now: int) -> Seq<Seq<char>>
    decreases items.len(),
{
    if items.len() == 0 {
        Seq::empty()
    } else {
        let rest = spec_select_expired(items.drop_last(), now);
        if spec_item_expired(items.last().expires_at, now) {
            rest.push(items.last().name)
        } else {
            rest
        }
    }
}

/// Selects the items a sweep at `now` must delete.
pub fn select_expired(items: &Vec<ExpiryItem>, now: i64) -> (r: Vec<String>)
    ensures
        r@.map_values(|s: String| s@) == spec_select_expired(
            items@.map_values(|it: ExpiryItem| it@),
            now as int,
        ),
{
    let ghost iv = items@.map_values(|it: ExpiryItem| it@);
    let mut r: Vec<String> = Vec::new();
    let mut i: usize = 0;
    while i < items.len()
        invariant
            i <= items@.len(),
            iv == items@.map_values(|it: ExpiryItem| it@),
            r@.map_values(|s: String| s@) == spec_select_expired(iv.take(i as int), now as int),
        decreases items@.len() - i,
    {
        proof {
            assert(iv.take(i + 1).drop_last() =~= iv.take(i as int));
        }
        let expired: bool = match items[i].expires_at {
            Some(e) => e < now,
            None => false,
        };
        if expired {
            r.push(items[i].name.clone());
            proof {
                assert(r@.map_values(|s: String| s@) =~= spec_select_expired(
                    iv.take(i + 1),
                    now as int,
                ));
            }
        } else {
            proof {
                assert(r@.map_values(|s: String| s@) =~= spec_select_expired(
                    iv.take(i + 1),
                    now as int,
                ));
            }
        }
        i += 1;
    }
    proof {
        assert(iv.take(items@.len() as int) =~= iv);
    }
    r
}

/// A sweep at `now` selects the name of every expired item, and selects
/// nothing else: each selected name is the name of some expired item.
pub proof fn lemma_sweep_deletes_exactly_expired(items: Seq<ExpiryItemView>, now: int)
    ensures
        forall|i: int|
            0 <= i < items.len() && spec_item_expired(#[trigger] items[i].expires_at, now)
                ==> spec_select_expired(items, now).contains(items[i].name),
        forall|n: Seq<char>|
            #[trigger] spec_select_expired(items, now).contains(n) ==> exists|i: int|
                0 <= i < items.len() && spec_item_expired(#[trigger] items[i].expires_at, now)
                    && items[i].name == n,
    decreases items.len(),
{
    if items.len() > 0 {
        lemma_sweep_deletes_exactly_expired(items.drop_last(), now);
        let rest = spec_select_expired(items.drop_last(), now);
        let full = spec_select_expired(items, now);
        assert forall|i: int|
            0 <= i < items.len() && spec_item_expired(#[trigger] items[i].expires_at, now)
                implies full.contains(items[i].name) by {
            if i < items.len() - 1 {
                assert(items.drop_last()[i] == items[i]);
                let k = choose|k: int| 0 <= k < rest.len() && rest[k] == items[i].name;
                if spec_item_expired(items.last().expires_at, now) {
                    assert(full[k] == items[i].name);
                } else {
                    assert(full[k] == items[i].name);
                }
            } else {
                assert(full.last() == items[i].name);
            }
        }
        assert forall|n: Seq<char>| #[trigger] spec_select_expired(items, now).contains(n) implies
            exists|i: int|
                0 <= i < items.len() && spec_item_expired(#[trigger] items[i].expires_at, now)
                    && items[i].name == n by {
            let j = choose|j: int| 0 <= j < full.len() && full[j] == n;
            if spec_item_expired(items.last().expires_at, now) && j == full.len() - 1 {
                assert(0 <= items.len() - 1 < items.len() && spec_item_expired(
                    items[items.len() - 1].expires_at,
                    now,
                ) && items[items.len() - 1].name == n);
            } else {
                assert(rest[j] == n);
                assert(rest.contains(n));
                let i = choose|i: int|
                    0 <= i < items.drop_last().len() && spec_item_expired(
                        #[trigger] items.drop_last()[i].expires_at,
                        now,
                    ) && items.drop_last()[i].name == n;
                assert(items.drop_last()[i] == items[i]);
                assert(0 <= i < items.len() && spec_item_expired(items[i].expires_at, now)
                    && items[i].name == n);
            }
        }
    } else {
        assert(spec_select_expired(items, now).len() == 0);
    }
}

/// The outcome the platform reported for one delete call.
pub enum DeleteOutcome {
    /// The item was deleted.
    Deleted,
    /// The item was already gone; a concurrent deletion race, which is
    /// benign.
    Missing,
    /// The call failed; the underlying message.
    Failed(String),
}

/// Absorbs a delete outcome: deletion and already-gone both succeed —
/// `true` when this call deleted the item — and only a real failure is an
/// error.
pub fn delete_opt(outcome: DeleteOutcome) -> (r: Result<bool, String>)
    ensures
        outcome is Deleted ==> r == Ok::<bool, String>(true),
        outcome is Missing ==> r == Ok::<bool, String>(false),
        outcome matches DeleteOutcome::Failed(m) ==> (r matches Err(e) && e == m),
{
    match outcome {
        DeleteOutcome::Deleted => Ok(true),
        DeleteOutcome::Missing => Ok(false),
        DeleteOutcome::Failed(m) => Err(m),
    }
}

} // verus!
