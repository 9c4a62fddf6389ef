//! The permission model: membership tests on permission sets and the checked
//! decoding of sets that arrive as raw numbers.

use vstd::prelude::*;
use crate::protos::Permission;
use crate::rpcs::validations::validate_strings::{invalid, invalid_argument};
use crate::status::{Reason, Status};

verus! {

/// True iff `perm` is in the set. Order and repetition do not matter.
pub fn has_permission(set: &Vec<Permission>, perm: Permission) -> (r: bool)
    ensures
        r == set@.contains(perm),
{
    let mut i: usize = 0;
    while i < set.len()
        invariant
            0 <= i <= set.len(),
            forall|j: int| 0 <= j < i ==> set@[j] != perm,
        decreases set.len() - i,
    {
        if set[i] == perm {
            return true;
        }
        i = i + 1;
    }
    false
}

/// A set is valid where every element is a recognized permission.
pub open spec fn valid_permission_set(set: Seq<Permission>) -> bool {
    forall|i: int| 0 <= i < set.len() ==> (#[trigger] set[i]).recognized()
}

pub fn is_valid_permission_set(set: &Vec<Permission>) -> (r: bool)
    ensures
        r == valid_permission_set(set@),
{
    let mut i: usize = 0;
    while i < set.len()
        invariant
            0 <= i <= set.len(),
            forall|j: int| 0 <= j < i ==> (#[trigger] set@[j]).recognized(),
        decreases set.len() - i,
    {
        if !set[i].is_recognized() {
            return false;
        }
        i = i + 1;
    }
    true
}

/// Every raw number names a permission.
pub open spec fn all_in_range(raw: Seq<i32>) -> bool {
    forall|i: int| 0 <= i < raw.len() ==> Permission::of_number(#[trigger] raw[i] as int) is Some
}

/// The permissions that a list of in-range raw numbers names.
pub open spec fn decoded(raw: Seq<i32>) -> Seq<Permission> {
    Seq::new(raw.len(), |i: int| Permission::of_number(raw[i] as int)->0)
}

/// Decodes a raw permission list. Fails exactly where some number names no
/// permission.
pub fn to_proto_permissions(raw: &Vec<i32>) -> (r: Result<Vec<Permission>, Status>)
    ensures
        match r {
            Ok(v) => all_in_range(raw@) && v@ == decoded(raw@),
            Err(e) => !all_in_range(raw@) && e == invalid(Reason::UnrecognizedPermission),
        },
{
    let mut out: Vec<Permission> = Vec::new();
    let mut i: usize = 0;
    while i < raw.len()
        invariant
            0 <= i <= raw.len(),
            out@.len() == i,
            forall|j: int| 0 <= j < i ==> Permission::of_number(#[trigger] raw@[j] as int) is Some,
            forall|j: int|
                0 <= j < i ==> #[trigger] out@[j] == Permission::of_number(raw@[j] as int)->0,
        decreases raw.len() - i,
    {
        match Permission::from_i32(raw[i]) {
            None => {
                assert(Permission::of_number(raw@[i as int] as int) is None);
                return Err(invalid_argument(Reason::UnrecognizedPermission));
            },
            Some(p) => {
                out.push(p);
            },
        }
        i = i + 1;
    }
    assert(out@ =~= decoded(raw@));
    Ok(out)
}

/// What is wrong with one raw number of a permission list, if anything: a
/// number that names no permission is unrecognized, and the sentinel is an
/// invalid permission, reported by name.
pub open spec fn permission_fault(raw: i32) -> Option<Reason> {
    match Permission::of_number(raw as int) {
        None => Some(Reason::UnrecognizedPermission),
        Some(p) => if p.recognized() {
            None
        } else {
            Some(Reason::InvalidPermission(p))
        },
    }
}

/// No number of the list is at fault.
pub open spec fn no_permission_fault(raw: Seq<i32>) -> bool {
    forall|i: int| 0 <= i < raw.len() ==> permission_fault(#[trigger] raw[i]) is None
}

/// The number at `i` is at fault and none before it is.
pub open spec fn first_permission_fault_at(raw: Seq<i32>, i: int) -> bool {
    &&& 0 <= i < raw.len()
    &&& permission_fault(raw[i]) is Some
    &&& forall|j: int| 0 <= j < i ==> permission_fault(#[trigger] raw[j]) is None
}

/// The verdict on a declared permission list, judged in list order: the
/// first number at fault decides what is reported.
pub open spec fn permission_set_verdict(raw: Seq<i32>) -> Result<(), Status> {
    if no_permission_fault(raw) {
        Ok(())
    } else {
        let first = choose|i: int| first_permission_fault_at(raw, i);
        Err(invalid(permission_fault(raw[first])->0))
    }
}

/// A list without fault names recognized permissions only.
pub proof fn lemma_faultless_list_is_valid(raw: Seq<i32>)
    requires
        no_permission_fault(raw),
    ensures
        all_in_range(raw),
        valid_permission_set(decoded(raw)),
{
    assert forall|i: int| 0 <= i < raw.len() implies Permission::of_number(
        #[trigger] raw[i] as int,
    ) is Some by {
        assert(permission_fault(raw[i]) is None);
    }
    assert forall|i: int| 0 <= i < decoded(raw).len() implies (#[trigger] decoded(
        raw,
    )[i]).recognized() by {
        assert(permission_fault(raw[i]) is None);
    }
}

/// Where some number is at fault, one of them is the first.
pub proof fn lemma_some_fault_is_first(raw: Seq<i32>, i: int)
    requires
        0 <= i < raw.len(),
        permission_fault(raw[i]) is Some,
    ensures
        exists|k: int| 0 <= k <= i && first_permission_fault_at(raw, k),
    decreases i,
{
    if exists|j: int| 0 <= j < i && permission_fault(raw[j]) is Some {
        let j = choose|j: int| 0 <= j < i && permission_fault(raw[j]) is Some;
        lemma_some_fault_is_first(raw, j);
    } else {
        assert(first_permission_fault_at(raw, i));
    }
}

/// Where the number at `i` is the first at fault, it decides the verdict.
pub proof fn lemma_first_fault_decides(raw: Seq<i32>, i: int)
    requires
        first_permission_fault_at(raw, i),
    ensures
        permission_set_verdict(raw) == Err::<(), Status>(invalid(permission_fault(raw[i])->0)),
{
    let first = choose|k: int| first_permission_fault_at(raw, k);
    assert(first_permission_fault_at(raw, first));
    if first < i {
        assert(permission_fault(raw[first]) is None);
    }
    if i < first {
        assert(permission_fault(raw[i]) is None);
    }
}

/// Checks a declared permission list number by number and reports the first
/// that is at fault.
pub fn validate_permissions(raw: &Vec<i32>) -> (r: Result<(), Status>)
    ensures
        r == permission_set_verdict(raw@),
        r is Err ==> r->Err_0.reason is UnrecognizedPermission
            || r->Err_0.reason is InvalidPermission,
{
    let mut i: usize = 0;
    while i < raw.len()
        invariant
            0 <= i <= raw.len(),
            forall|j: int| 0 <= j < i ==> permission_fault(#[trigger] raw@[j]) is None,
        decreases raw.len() - i,
    {
        match Permission::from_i32(raw[i]) {
            None => {
                proof {
                    lemma_first_fault_decides(raw@, i as int);
                }
                return Err(invalid_argument(Reason::UnrecognizedPermission));
            },
            Some(permission) => {
                if !permission.is_recognized() {
                    proof {
                        lemma_first_fault_decides(raw@, i as int);
                    }
                    return Err(invalid_argument(Reason::InvalidPermission(permission)));
                }
            },
        }
        i = i + 1;
    }
    Ok(())
}

} // verus!
