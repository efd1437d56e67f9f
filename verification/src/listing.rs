//! Joining the outcomes of a fan-out: one fetch per identifier, all of them
//! awaited, the first failure reported with its identifier.

use vstd::prelude::*;

use crate::error::OvhError;

verus! {

/// Why a listing failed: the identifier whose fetch failed, and how. Of
/// several failed fetches it is the first in the order of the identifiers.
#[derive(Debug, PartialEq, Eq)]
pub struct ListError<Id> {
    pub id: Id,
    pub error: OvhError,
}

/// Whether the fetches before position `k` all succeeded.
pub open spec fn all_ok_before<Id, T>(fetched: Seq<(Id, Result<T, OvhError>)>, k: int) -> bool {
    forall|i: int| 0 <= i < k && i < fetched.len() ==> (#[trigger] fetched[i]).1 is Ok
}

/// Whether position `k` holds the first fetch that failed.
pub open spec fn first_failure<Id, T>(fetched: Seq<(Id, Result<T, OvhError>)>, k: int) -> bool {
    &&& 0 <= k < fetched.len()
    &&& fetched[k].1 is Err
    &&& all_ok_before(fetched, k)
}

/// The entities of fetches that all succeeded, in their order.
pub open spec fn entities<Id, T>(fetched: Seq<(Id, Result<T, OvhError>)>) -> Seq<T> {
    Seq::new(fetched.len(), |i: int| fetched[i].1->Ok_0)
}

/// Joins the outcomes of one fetch per identifier, each paired with its
/// identifier, in the order in which the identifiers were listed.
///
/// Where every fetch succeeded the result holds every entity, as many as
/// there were identifiers and in their order. Where one failed nothing is
/// dropped in silence: the result is the error of the first fetch that
/// failed, with its identifier.
pub fn collect<Id, T>(fetched: Vec<(Id, Result<T, OvhError>)>) -> (r: Result<Vec<T>, ListError<Id>>)
    ensures
        match r {
            Ok(list) => {
                &&& all_ok_before(fetched@, fetched@.len() as int)
                &&& list@.len() == fetched@.len()
                &&& list@ == entities(fetched@)
            },
            Err(e) => exists|k: int|
                first_failure(fetched@, k) && e.id == (#[trigger] fetched@[k]).0 && e.error
                    == fetched@[k].1->Err_0,
        },
{
    let ghost all = fetched@;
    let mut rest = fetched;
    let mut failure: Option<ListError<Id>> = None;
    let mut backwards: Vec<T> = Vec::new();
    let ghost mut at: int = all.len() as int;
    while rest.len() > 0
        invariant
            rest@ == all.subrange(0, rest@.len() as int),
            rest@.len() <= all.len(),
            match failure {
                None => {
                    &&& backwards@.len() == all.len() - rest@.len()
                    &&& forall|i: int|
                        rest@.len() <= i < all.len() ==> (#[trigger] all[i]).1 is Ok
                    &&& forall|j: int|
                        0 <= j < backwards@.len() ==> #[trigger] backwards@[j] == all[all.len()
                            - 1 - j].1->Ok_0
                },
                Some(e) => {
                    &&& rest@.len() <= at < all.len()
                    &&& all[at].1 is Err
                    &&& e.id == all[at].0
                    &&& e.error == all[at].1->Err_0
                    &&& forall|i: int| rest@.len() <= i < at ==> (#[trigger] all[i]).1 is Ok
                },
            },
        decreases rest@.len(),
    {
        let ghost n = rest@.len() - 1;
        let last = rest.pop();
        assert(last == Some(all[n]));
        match last {
            None => {},
            Some((_, Ok(entity))) => {
                if failure.is_none() {
                    backwards.push(entity);
                }
            },
            Some((id, Err(error))) => {
                failure = Some(ListError { id, error });
                proof {
                    at = n;
                }
            },
        }
    }
    match failure {
        Some(e) => {
            assert(first_failure(all, at));
            Err(e)
        },
        None => {
            let list = reversed(backwards);
            assert(list@ =~= entities(all));
            Ok(list)
        },
    }
}

/// A list in the opposite order.
pub(crate) fn reversed<T>(list: Vec<T>) -> (r: Vec<T>)
    ensures
        r@.len() == list@.len(),
        forall|i: int| 0 <= i < r@.len() ==> #[trigger] r@[i] == list@[list@.len() - 1 - i],
{
    let ghost all = list@;
    let mut rest = list;
    let mut r: Vec<T> = Vec::new();
    while rest.len() > 0
        invariant
            rest@ == all.subrange(0, rest@.len() as int),
            rest@.len() <= all.len(),
            r@.len() == all.len() - rest@.len(),
            forall|i: int| 0 <= i < r@.len() ==> #[trigger] r@[i] == all[all.len() - 1 - i],
        decreases rest@.len(),
    {
        let ghost n = rest@.len() - 1;
        let last = rest.pop();
        assert(last == Some(all[n]));
        match last {
            None => {},
            Some(item) => {
                r.push(item);
            },
        }
    }
    r
}

} // verus!
