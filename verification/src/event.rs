//! The facts that the indexer reports.

use vstd::prelude::*;
use crate::ids::{
    BlockHash, InscriptionId, InscriptionIdView, OutPoint, OutPointView, RuneId, SatPoint,
    SatPointView, Txid,
};

verus! {

/// One state change of the index. `block_height` and `block_hash` name the
/// block that caused it.
#[derive(Debug, Clone, PartialEq, Eq)]
pub enum Event {
    /// A new inscription was committed. `location` is absent only where the
    /// inscription was spent at once.
    InscriptionCreated {
        block_hash: BlockHash,
        block_height: u32,
        charms: u16,
        inscription_id: InscriptionId,
        location: Option<SatPoint>,
        parent_inscription_ids: Vec<InscriptionId>,
        sequence_number: u32,
    },
    /// An inscription moved to a new location.
    InscriptionTransferred {
        block_hash: BlockHash,
        block_height: u32,
        inscription_id: InscriptionId,
        new_location: SatPoint,
        old_location: SatPoint,
        sequence_number: u32,
    },
    /// Units of a rune were taken out of circulation for good.
    RuneBurned { block_hash: BlockHash, amount: u128, block_height: u32, rune_id: RuneId, txid: Txid },
    /// A new rune was defined.
    RuneEtched { block_hash: BlockHash, block_height: u32, rune_id: RuneId, txid: Txid },
    /// New units of a rune came into circulation.
    RuneMinted { block_hash: BlockHash, amount: u128, block_height: u32, rune_id: RuneId, txid: Txid },
    /// Units of a rune moved to a new output.
    RuneTransferred {
        block_hash: BlockHash,
        amount: u128,
        block_height: u32,
        outpoint: OutPoint,
        rune_id: RuneId,
        txid: Txid,
    },
}

/// An `Event` as plain values.
pub ghost enum EventView {
    InscriptionCreated {
        block_hash: Seq<u8>,
        block_height: u32,
        charms: u16,
        inscription_id: InscriptionIdView,
        location: Option<SatPointView>,
        parent_inscription_ids: Seq<InscriptionIdView>,
        sequence_number: u32,
    },
    InscriptionTransferred {
        block_hash: Seq<u8>,
        block_height: u32,
        inscription_id: InscriptionIdView,
        new_location: SatPointView,
        old_location: SatPointView,
        sequence_number: u32,
    },
    RuneBurned { block_hash: Seq<u8>, amount: u128, block_height: u32, rune_id: RuneId, txid: Seq<u8> },
    RuneEtched { block_hash: Seq<u8>, block_height: u32, rune_id: RuneId, txid: Seq<u8> },
    RuneMinted { block_hash: Seq<u8>, amount: u128, block_height: u32, rune_id: RuneId, txid: Seq<u8> },
    RuneTransferred {
        block_hash: Seq<u8>,
        amount: u128,
        block_height: u32,
        outpoint: OutPointView,
        rune_id: RuneId,
        txid: Seq<u8>,
    },
}

/// Which of the six facts an event reports.
#[derive(Debug, Clone, Copy, PartialEq, Eq, Structural)]
pub enum EventKind {
    InscriptionCreated,
    InscriptionTransferred,
    RuneBurned,
    RuneEtched,
    RuneMinted,
    RuneTransferred,
}

/// What an event is about: an inscription, or one operation on a rune.
pub ghost enum Entity {
    Inscription(InscriptionIdView),
    Rune(RuneId, Seq<u8>),
}

/// The views of a list of inscription identifiers, in order.
pub open spec fn ids_view(ids: Seq<InscriptionId>) -> Seq<InscriptionIdView> {
    Seq::new(ids.len(), |i: int| ids[i]@)
}

impl View for Event {
    type V = EventView;

    open spec fn view(&self) -> EventView {
        match *self {
            Event::InscriptionCreated {
                block_hash,
                block_height,
                charms,
                inscription_id,
                location,
                parent_inscription_ids,
                sequence_number,
            } => EventView::InscriptionCreated {
                block_hash: block_hash@,
                block_height,
                charms,
                inscription_id: inscription_id@,
                location: match location {
                    Some(l) => Some(l@),
                    None => None,
                },
                parent_inscription_ids: ids_view(parent_inscription_ids@),
                sequence_number,
            },
            Event::InscriptionTransferred {
                block_hash,
                block_height,
                inscription_id,
                new_location,
                old_location,
                sequence_number,
            } => EventView::InscriptionTransferred {
                block_hash: block_hash@,
                block_height,
                inscription_id: inscription_id@,
                new_location: new_location@,
                old_location: old_location@,
                sequence_number,
            },
            Event::RuneBurned { block_hash, amount, block_height, rune_id, txid } => {
                EventView::RuneBurned {
                    block_hash: block_hash@,
                    amount,
                    block_height,
                    rune_id,
                    txid: txid@,
                }
            },
            Event::RuneEtched { block_hash, block_height, rune_id, txid } => {
                EventView::RuneEtched { block_hash: block_hash@, block_height, rune_id, txid: txid@ }
            },
            Event::RuneMinted { block_hash, amount, block_height, rune_id, txid } => {
                EventView::RuneMinted {
                    block_hash: block_hash@,
                    amount,
                    block_height,
                    rune_id,
                    txid: txid@,
                }
            },
            Event::RuneTransferred { block_hash, amount, block_height, outpoint, rune_id, txid } => {
                EventView::RuneTransferred {
                    block_hash: block_hash@,
                    amount,
                    block_height,
                    outpoint: outpoint@,
                    rune_id,
                    txid: txid@,
                }
            },
        }
    }
}

impl EventView {
    /// Whether every hash in the event has its 32 bytes. The view of an
    /// `Event` always has.
    pub open spec fn wf(self) -> bool {
        match self {
            EventView::InscriptionCreated {
                block_hash,
                inscription_id,
                location,
                parent_inscription_ids,
                ..
            } => {
                &&& block_hash.len() == 32
                &&& inscription_id.txid.len() == 32
                &&& (location matches Some(l) ==> l.outpoint.txid.len() == 32)
                &&& forall|i: int|
                    0 <= i < parent_inscription_ids.len() ==> (
                    #[trigger] parent_inscription_ids[i]).txid.len() == 32
            },
            EventView::InscriptionTransferred {
                block_hash,
                inscription_id,
                new_location,
                old_location,
                ..
            } => {
                &&& block_hash.len() == 32
                &&& inscription_id.txid.len() == 32
                &&& new_location.outpoint.txid.len() == 32
                &&& old_location.outpoint.txid.len() == 32
            },
            EventView::RuneBurned { block_hash, txid, .. } => block_hash.len() == 32 && txid.len()
                == 32,
            EventView::RuneEtched { block_hash, txid, .. } => block_hash.len() == 32 && txid.len()
                == 32,
            EventView::RuneMinted { block_hash, txid, .. } => block_hash.len() == 32 && txid.len()
                == 32,
            EventView::RuneTransferred { block_hash, outpoint, txid, .. } => {
                &&& block_hash.len() == 32
                &&& outpoint.txid.len() == 32
                &&& txid.len() == 32
            },
        }
    }

    /// Which of the six facts the event reports.
    pub open spec fn kind(self) -> EventKind {
        match self {
            EventView::InscriptionCreated { .. } => EventKind::InscriptionCreated,
            EventView::InscriptionTransferred { .. } => EventKind::InscriptionTransferred,
            EventView::RuneBurned { .. } => EventKind::RuneBurned,
            EventView::RuneEtched { .. } => EventKind::RuneEtched,
            EventView::RuneMinted { .. } => EventKind::RuneMinted,
            EventView::RuneTransferred { .. } => EventKind::RuneTransferred,
        }
    }

    /// The height of the block that caused the event.
    pub open spec fn block_height(self) -> u32 {
        match self {
            EventView::InscriptionCreated { block_height, .. } => block_height,
            EventView::InscriptionTransferred { block_height, .. } => block_height,
            EventView::RuneBurned { block_height, .. } => block_height,
            EventView::RuneEtched { block_height, .. } => block_height,
            EventView::RuneMinted { block_height, .. } => block_height,
            EventView::RuneTransferred { block_height, .. } => block_height,
        }
    }

    /// What the event is about.
    pub open spec fn entity(self) -> Entity {
        match self {
            EventView::InscriptionCreated { inscription_id, .. } => Entity::Inscription(
                inscription_id,
            ),
            EventView::InscriptionTransferred { inscription_id, .. } => Entity::Inscription(
                inscription_id,
            ),
            EventView::RuneBurned { rune_id, txid, .. } => Entity::Rune(rune_id, txid),
            EventView::RuneEtched { rune_id, txid, .. } => Entity::Rune(rune_id, txid),
            EventView::RuneMinted { rune_id, txid, .. } => Entity::Rune(rune_id, txid),
            EventView::RuneTransferred { rune_id, txid, .. } => Entity::Rune(rune_id, txid),
        }
    }
}

impl Event {
    /// Which of the six facts the event reports.
    pub fn kind(&self) -> (k: EventKind)
        ensures
            k == self@.kind(),
    {
        match self {
            Event::InscriptionCreated { .. } => EventKind::InscriptionCreated,
            Event::InscriptionTransferred { .. } => EventKind::InscriptionTransferred,
            Event::RuneBurned { .. } => EventKind::RuneBurned,
            Event::RuneEtched { .. } => EventKind::RuneEtched,
            Event::RuneMinted { .. } => EventKind::RuneMinted,
            Event::RuneTransferred { .. } => EventKind::RuneTransferred,
        }
    }

    /// The height of the block that caused the event.
    pub fn block_height(&self) -> (h: u32)
        ensures
            h == self@.block_height(),
    {
        match self {
            Event::InscriptionCreated { block_height, .. } => *block_height,
            Event::InscriptionTransferred { block_height, .. } => *block_height,
            Event::RuneBurned { block_height, .. } => *block_height,
            Event::RuneEtched { block_height, .. } => *block_height,
            Event::RuneMinted { block_height, .. } => *block_height,
            Event::RuneTransferred { block_height, .. } => *block_height,
        }
    }
}

/// The view of an event has every hash at its full length.
pub proof fn lemma_view_wf(e: Event)
    ensures
        e@.wf(),
{
}

} // verus!
