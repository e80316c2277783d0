//! Queue families: the fixed table of four families an adapter exposes.

use vstd::prelude::*;

verus! {

/// What kind of work a queue accepts.
#[derive(Clone, Copy, Debug, PartialEq, Eq, Structural)]
pub enum QueueType {
    /// Graphics, compute and transfer work.
    General,
    /// Graphics and transfer work.
    Graphics,
    /// Compute and transfer work.
    Compute,
    /// Transfer work only.
    Transfer,
}

/// Class of native command list that a native queue executes.
#[derive(Clone, Copy, Debug, PartialEq, Eq, Structural)]
pub enum CmdListType {
    Direct,
    Compute,
    Copy,
}

/// Stable identifier of a queue family.
#[derive(Clone, Copy, Debug, PartialEq, Eq, Hash, Structural)]
pub struct QueueFamilyId(pub usize);

/// Upper bound on the queues of one ordinary family.
pub const MAX_QUEUES: usize = 16;

/// Number of families every adapter exposes.
pub const NUM_QUEUE_FAMILIES: usize = 4;

/// A queue family. The present family is an ordinary general queue that is
/// singled out because a swapchain needs a queue at creation time.
#[derive(Clone, Copy, Debug, PartialEq, Eq, Structural)]
pub enum QueueFamily {
    Present,
    Normal(QueueType),
}

impl QueueFamily {
    /// The kind of work the family's queues accept.
    pub open spec fn spec_queue_type(&self) -> QueueType {
        match *self {
            QueueFamily::Present => QueueType::General,
            QueueFamily::Normal(ty) => ty,
        }
    }

    /// How many queues the family can provide.
    pub open spec fn spec_max_queues(&self) -> usize {
        match *self {
            QueueFamily::Present => 1,
            QueueFamily::Normal(_) => MAX_QUEUES,
        }
    }

    /// Whether the family is one of the four that adapters expose. The
    /// graphics-only kind is never exposed: general queues cover it.
    pub open spec fn is_exposed(&self) -> bool {
        *self != QueueFamily::Normal(QueueType::Graphics)
    }

    /// Position of the family in the exposed table.
    pub open spec fn spec_id(&self) -> QueueFamilyId {
        QueueFamilyId(
            match *self {
                QueueFamily::Present => 0,
                QueueFamily::Normal(QueueType::General) => 1,
                QueueFamily::Normal(QueueType::Compute) => 2,
                _ => 3,
            },
        )
    }

    /// Class of native command list the family's queues execute.
    pub open spec fn spec_native_type(&self) -> CmdListType {
        match self.spec_queue_type() {
            QueueType::General => CmdListType::Direct,
            QueueType::Graphics => CmdListType::Direct,
            QueueType::Compute => CmdListType::Compute,
            QueueType::Transfer => CmdListType::Copy,
        }
    }

    /// Whether the family is one of the four that adapters expose; only
    /// such a family has an identifier.
    #[verifier::when_used_as_spec(is_exposed)]
    pub fn exposed(&self) -> (yes: bool)
        ensures
            yes == self.is_exposed(),
    {
        match *self {
            QueueFamily::Normal(QueueType::Graphics) => false,
            _ => true,
        }
    }

    /// The kind of work the family's queues accept.
    #[verifier::when_used_as_spec(spec_queue_type)]
    pub fn queue_type(&self) -> (ty: QueueType)
        ensures
            ty == self.spec_queue_type(),
    {
        match *self {
            QueueFamily::Present => QueueType::General,
            QueueFamily::Normal(ty) => ty,
        }
    }

    /// How many queues the family can provide.
    #[verifier::when_used_as_spec(spec_max_queues)]
    pub fn max_queues(&self) -> (n: usize)
        ensures
            n == self.spec_max_queues(),
            1 <= n <= MAX_QUEUES,
    {
        match *self {
            QueueFamily::Present => 1,
            QueueFamily::Normal(_) => MAX_QUEUES,
        }
    }

    /// Identifier of an exposed family: its position in `queue_families`.
    #[verifier::when_used_as_spec(spec_id)]
    pub fn id(&self) -> (id: QueueFamilyId)
        requires
            self.is_exposed(),
        ensures
            id == self.spec_id(),
            id.0 < NUM_QUEUE_FAMILIES,
            queue_families_spec()[id.0 as int] == *self,
    {
        QueueFamilyId(
            match *self {
                QueueFamily::Present => 0,
                QueueFamily::Normal(QueueType::General) => 1,
                QueueFamily::Normal(QueueType::Compute) => 2,
                _ => 3,
            },
        )
    }

    /// Class of native command list the family's queues execute.
    #[verifier::when_used_as_spec(spec_native_type)]
    pub fn native_type(&self) -> (ty: CmdListType)
        ensures
            ty == self.spec_native_type(),
    {
        match self.queue_type() {
            QueueType::General | QueueType::Graphics => CmdListType::Direct,
            QueueType::Compute => CmdListType::Compute,
            QueueType::Transfer => CmdListType::Copy,
        }
    }
}

/// The table of exposed families, in identifier order.
pub open spec fn queue_families_spec() -> Seq<QueueFamily> {
    seq![
        QueueFamily::Present,
        QueueFamily::Normal(QueueType::General),
        QueueFamily::Normal(QueueType::Compute),
        QueueFamily::Normal(QueueType::Transfer),
    ]
}

/// The families every adapter exposes, in identifier order.
pub fn queue_families() -> (families: Vec<QueueFamily>)
    ensures
        families@ == queue_families_spec(),
        families@.len() == NUM_QUEUE_FAMILIES,
{
    let mut families: Vec<QueueFamily> = Vec::new();
    families.push(QueueFamily::Present);
    families.push(QueueFamily::Normal(QueueType::General));
    families.push(QueueFamily::Normal(QueueType::Compute));
    families.push(QueueFamily::Normal(QueueType::Transfer));
    assert(families@ =~= queue_families_spec());
    families
}

/// The identifier of a family is its position in the exposed table, and the
/// table holds every exposed family exactly once.
pub proof fn lemma_family_ids_are_positions()
    ensures
        queue_families_spec().len() == NUM_QUEUE_FAMILIES,
        forall|i: int|
            0 <= i < NUM_QUEUE_FAMILIES ==> {
                &&& (#[trigger] queue_families_spec()[i]).is_exposed()
                &&& queue_families_spec()[i].spec_id() == QueueFamilyId(i as usize)
            },
        forall|f: QueueFamily|
            f.is_exposed() ==> {
                &&& 0 <= (#[trigger] f.spec_id()).0 < NUM_QUEUE_FAMILIES
                &&& queue_families_spec()[f.spec_id().0 as int] == f
            },
        forall|f: QueueFamily, g: QueueFamily|
            f.is_exposed() && g.is_exposed() && #[trigger] f.spec_id() == #[trigger] g.spec_id()
                ==> f == g,
{
}

} // verus!
