//! Bringing the network up before the installation: ask for a lease, see
//! whether the outside answers, and hand over to the operator where it
//! does not.

use vstd::prelude::*;
use crate::plan::Operation;

verus! {

/// Where the attempt to get online stands.
#[derive(Clone, Copy, Debug, PartialEq, Eq, Structural)]
pub enum NetworkStage {
    /// A lease is being asked for.
    Leasing,
    /// The connection is being tried for the first time.
    Probing,
    /// The operator is configuring the network by hand.
    Manual,
    /// The connection is being tried after the operator's work.
    Reprobing,
    /// The attempt is over; the flag says whether the machine is online.
    Finished(bool),
}

impl NetworkStage {
    /// The operation to carry out at this stage.
    pub open spec fn operation(self) -> Option<Operation> {
        match self {
            NetworkStage::Leasing => Some(Operation::RequestLease),
            NetworkStage::Probing | NetworkStage::Reprobing => Some(Operation::ProbeNetwork),
            NetworkStage::Manual => Some(Operation::ConfigureNetwork),
            NetworkStage::Finished(_) => None,
        }
    }

    /// The stage after the operation of this stage ended with `success`.
    /// Only a first probe that fails brings the operator in, and only
    /// the last probe made decides whether the machine counts as online.
    pub open spec fn after(self, success: bool) -> NetworkStage {
        match self {
            NetworkStage::Leasing => NetworkStage::Probing,
            NetworkStage::Probing => if success {
                NetworkStage::Finished(true)
            } else {
                NetworkStage::Manual
            },
            NetworkStage::Manual => NetworkStage::Reprobing,
            NetworkStage::Reprobing => NetworkStage::Finished(success),
            NetworkStage::Finished(online) => NetworkStage::Finished(online),
        }
    }

    /// Number of operations still to come at most.
    pub open spec fn remaining(self) -> nat {
        match self {
            NetworkStage::Leasing => 4,
            NetworkStage::Probing => 3,
            NetworkStage::Manual => 2,
            NetworkStage::Reprobing => 1,
            NetworkStage::Finished(_) => 0,
        }
    }

    /// The first stage.
    pub fn start() -> (s: NetworkStage)
        ensures
            s == NetworkStage::Leasing,
    {
        NetworkStage::Leasing
    }

    /// The operation to carry out now, if the attempt is not over.
    pub fn next_operation(self) -> (op: Option<Operation>)
        ensures
            op == self.operation(),
            op is None <==> self is Finished,
    {
        match self {
            NetworkStage::Leasing => Some(Operation::RequestLease),
            NetworkStage::Probing | NetworkStage::Reprobing => Some(Operation::ProbeNetwork),
            NetworkStage::Manual => Some(Operation::ConfigureNetwork),
            NetworkStage::Finished(_) => None,
        }
    }

    /// Takes the outcome of the operation and moves to the next stage.
    pub fn record(self, success: bool) -> (s: NetworkStage)
        ensures
            s == self.after(success),
            !(self is Finished) ==> s.remaining() < self.remaining(),
    {
        match self {
            NetworkStage::Leasing => NetworkStage::Probing,
            NetworkStage::Probing => if success {
                NetworkStage::Finished(true)
            } else {
                NetworkStage::Manual
            },
            NetworkStage::Manual => NetworkStage::Reprobing,
            NetworkStage::Reprobing => NetworkStage::Finished(success),
            NetworkStage::Finished(online) => NetworkStage::Finished(online),
        }
    }
}

/// The attempt is over after at most four operations, and the operator
/// is brought in exactly when the first probe fails.
pub proof fn lemma_network_attempt_ends(lease: bool, first: bool, manual: bool, second: bool)
    ensures
        NetworkStage::Leasing.after(lease).after(first) == (if first {
            NetworkStage::Finished(true)
        } else {
            NetworkStage::Manual
        }),
        !first ==> NetworkStage::Leasing.after(lease).after(first).after(manual).after(second)
            == NetworkStage::Finished(second),
{
}

} // verus!
