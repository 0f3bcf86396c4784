//! The queue-family registry: given the capabilities of the hardware's queue
//! families, it resolves one concrete family index per logical role (one
//! compute-capable, one transfer-capable; host access needs no index). A pure
//! lookup with no hidden state: resolution fails exactly when some required
//! role has no matching family, and nothing may proceed then.
use vstd::prelude::*;

verus! {

use crate::FamilyIndex;

/// What one hardware queue family can execute, as reported by the device.
#[derive(Clone, Copy, Debug, PartialEq, Eq, Structural)]
pub struct FamilyCapabilities {
    pub compute: bool,
    pub transfer: bool,
}

/// Why the registry could not be built: a required role with no matching
/// family. The compute role is checked first.
#[derive(Clone, Copy, Debug, PartialEq, Eq, Structural)]
pub enum QueueFamilyError {
    NoComputeFamily,
    NoTransferFamily,
}

/// True when some family supports compute work.
pub open spec fn has_compute(fams: Seq<FamilyCapabilities>) -> bool {
    exists|i: int| 0 <= i < fams.len() && (#[trigger] fams[i]).compute
}

/// True when some family supports transfer work.
pub open spec fn has_transfer(fams: Seq<FamilyCapabilities>) -> bool {
    exists|i: int| 0 <= i < fams.len() && (#[trigger] fams[i]).transfer
}

/// True when `i` is the lowest index of a compute-capable family.
pub open spec fn is_first_compute(fams: Seq<FamilyCapabilities>, i: int) -> bool {
    &&& 0 <= i < fams.len()
    &&& fams[i].compute
    &&& forall|j: int| 0 <= j < i ==> !(#[trigger] fams[j]).compute
}

/// True when `i` is the lowest index of a transfer-capable family.
pub open spec fn is_first_transfer(fams: Seq<FamilyCapabilities>, i: int) -> bool {
    &&& 0 <= i < fams.len()
    &&& fams[i].transfer
    &&& forall|j: int| 0 <= j < i ==> !(#[trigger] fams[j]).transfer
}

/// The mathematical value of the registry: the two resolved indices.
pub struct QueueFamiliesV {
    pub compute: FamilyIndex,
    pub transfer: FamilyIndex,
}

/// The resolved queue-family index for each logical role. The two roles may
/// alias to the same index or differ; their equality decides whether an
/// ownership transfer is actually required.
#[derive(Clone, Copy, Debug)]
pub struct QueueFamilies {
    compute_index: FamilyIndex,
    transfer_index: FamilyIndex,
}

impl View for QueueFamilies {
    type V = QueueFamiliesV;

    closed spec fn view(&self) -> QueueFamiliesV {
        QueueFamiliesV { compute: self.compute_index, transfer: self.transfer_index }
    }
}

impl QueueFamilies {
    /// Builds a registry from already-resolved indices.
    pub fn new(compute_index: FamilyIndex, transfer_index: FamilyIndex) -> (r: Self)
        ensures
            r@.compute == compute_index,
            r@.transfer == transfer_index,
    {
        QueueFamilies { compute_index, transfer_index }
    }

    /// Resolves one index per role from the listed capabilities, taking the
    /// lowest-indexed matching family for each. Fails, naming the first
    /// unmatched role (compute before transfer), exactly when a required role
    /// has no matching family.
    pub fn select(families: &Vec<FamilyCapabilities>) -> (r: Result<QueueFamilies, QueueFamilyError>)
        requires
            families@.len() <= u32::MAX,
        ensures
            r is Ok <==> has_compute(families@) && has_transfer(families@),
            r matches Ok(qf) ==> is_first_compute(families@, qf@.compute as int)
                && is_first_transfer(families@, qf@.transfer as int),
            r == Err::<QueueFamilies, QueueFamilyError>(QueueFamilyError::NoComputeFamily) <==> !has_compute(families@),
            r == Err::<QueueFamilies, QueueFamilyError>(QueueFamilyError::NoTransferFamily) <==> has_compute(families@)
                && !has_transfer(families@),
    {
        let n = families.len();
        let mut compute_found: Option<u32> = None;
        let mut transfer_found: Option<u32> = None;
        let mut i: usize = 0;
        while i < n
            invariant
                n == families@.len(),
                n <= u32::MAX,
                0 <= i <= n,
                compute_found matches Some(c) ==> is_first_compute(families@, c as int),
                compute_found is None ==> forall|j: int|
                    0 <= j < i ==> !(#[trigger] families@[j]).compute,
                transfer_found matches Some(t) ==> is_first_transfer(families@, t as int),
                transfer_found is None ==> forall|j: int|
                    0 <= j < i ==> !(#[trigger] families@[j]).transfer,
            decreases n - i,
        {
            let f = families[i];
            if compute_found.is_none() && f.compute {
                compute_found = Some(i as u32);
            }
            if transfer_found.is_none() && f.transfer {
                transfer_found = Some(i as u32);
            }
            i = i + 1;
        }
        match (compute_found, transfer_found) {
            (Some(c), Some(t)) => Ok(QueueFamilies { compute_index: c, transfer_index: t }),
            (None, _) => Err(QueueFamilyError::NoComputeFamily),
            (Some(c), None) => Err(QueueFamilyError::NoTransferFamily),
        }
    }

    /// The family index resolved for the compute role.
    pub fn get_compute_index(&self) -> (r: FamilyIndex)
        ensures
            r == self@.compute,
    {
        self.compute_index
    }

    /// The family index resolved for the transfer role.
    pub fn get_transfer_index(&self) -> (r: FamilyIndex)
        ensures
            r == self@.transfer,
    {
        self.transfer_index
    }
}

} // verus!
