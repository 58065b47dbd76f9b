//! Reading a payload back into the event that it was written from.

use vstd::prelude::*;
use crate::event::{ids_view, Event, EventKind, EventView};
use crate::fields::{
    hash_field_at, inscription_id_field_at, number_field_at, outpoint_field_at, rune_id_field_at,
    satpoint_field_at, text_head,
};
use crate::ids::{
    lemma_has_at_parts, read_inscription_id, read_outpoint, read_rune_id, read_satpoint, BlockHash,
    InscriptionId, InscriptionIdView, OutPoint, RuneId, SatPoint, Txid,
};
use crate::lists::{
    location_field_at, more_ids_at, parents_field_at, quoted_id_at, quoted_satpoint_at,
};
use crate::payload::{field_head, is_plain, lemma_marks_plain, opening, payload_text};
use crate::roundtrip::{lemma_event_read_is_written, lemma_payload_round_trip};
use crate::text::{as_text, has_at, hex_at, literal_at, read_decimal, read_hex, read_literal};

verus! {

/// Reading the fields of a new inscription behind its block hash.
pub open spec fn inscription_created_at(block_hash: Seq<u8>, text: Seq<char>, pos: int) -> Option<
    (EventView, int),
> {
    let h = number_field_at(text, pos, "block_height"@, u32::MAX as nat);
    let c = number_field_at(text, h.unwrap().1, "charms"@, u16::MAX as nat);
    let i = inscription_id_field_at(text, c.unwrap().1, "inscription_id"@);
    let l = location_field_at(text, i.unwrap().1);
    let p = parents_field_at(text, l.unwrap().1);
    let s = number_field_at(text, p.unwrap().1, "sequence_number"@, u32::MAX as nat);
    if h is Some && c is Some && i is Some && l is Some && p is Some && s is Some {
        Some(
            (
                EventView::InscriptionCreated {
                    block_hash,
                    block_height: h.unwrap().0 as u32,
                    charms: c.unwrap().0 as u16,
                    inscription_id: i.unwrap().0,
                    location: l.unwrap().0,
                    parent_inscription_ids: p.unwrap().0,
                    sequence_number: s.unwrap().0 as u32,
                },
                s.unwrap().1,
            ),
        )
    } else {
        None
    }
}

/// Reading the fields of a moved inscription behind its block hash.
pub open spec fn inscription_transferred_at(
    block_hash: Seq<u8>,
    text: Seq<char>,
    pos: int,
) -> Option<(EventView, int)> {
    let h = number_field_at(text, pos, "block_height"@, u32::MAX as nat);
    let i = inscription_id_field_at(text, h.unwrap().1, "inscription_id"@);
    let n = satpoint_field_at(text, i.unwrap().1, "new_location"@);
    let o = satpoint_field_at(text, n.unwrap().1, "old_location"@);
    let s = number_field_at(text, o.unwrap().1, "sequence_number"@, u32::MAX as nat);
    if h is Some && i is Some && n is Some && o is Some && s is Some {
        Some(
            (
                EventView::InscriptionTransferred {
                    block_hash,
                    block_height: h.unwrap().0 as u32,
                    inscription_id: i.unwrap().0,
                    new_location: n.unwrap().0,
                    old_location: o.unwrap().0,
                    sequence_number: s.unwrap().0 as u32,
                },
                s.unwrap().1,
            ),
        )
    } else {
        None
    }
}

/// Reading an amount, a block height, a rune and a transaction: the fields
/// of a burn and of a mint.
pub open spec fn rune_amount_at(text: Seq<char>, pos: int) -> Option<
    ((u128, u32, RuneId, Seq<u8>), int),
> {
    let a = number_field_at(text, pos, "amount"@, u128::MAX as nat);
    let h = number_field_at(text, a.unwrap().1, "block_height"@, u32::MAX as nat);
    let r = rune_id_field_at(text, h.unwrap().1, "rune_id"@);
    let t = hash_field_at(text, r.unwrap().1, "txid"@);
    if a is Some && h is Some && r is Some && t is Some {
        Some(
            ((a.unwrap().0 as u128, h.unwrap().0 as u32, r.unwrap().0, t.unwrap().0), t.unwrap().1),
        )
    } else {
        None
    }
}

/// Reading the fields of an etching behind its block hash.
pub open spec fn rune_etched_at(block_hash: Seq<u8>, text: Seq<char>, pos: int) -> Option<
    (EventView, int),
> {
    let h = number_field_at(text, pos, "block_height"@, u32::MAX as nat);
    let r = rune_id_field_at(text, h.unwrap().1, "rune_id"@);
    let t = hash_field_at(text, r.unwrap().1, "txid"@);
    if h is Some && r is Some && t is Some {
        Some(
            (
                EventView::RuneEtched {
                    block_hash,
                    block_height: h.unwrap().0 as u32,
                    rune_id: r.unwrap().0,
                    txid: t.unwrap().0,
                },
                t.unwrap().1,
            ),
        )
    } else {
        None
    }
}

/// Reading the fields of a transfer of runes behind its block hash.
pub open spec fn rune_transferred_at(block_hash: Seq<u8>, text: Seq<char>, pos: int) -> Option<
    (EventView, int),
> {
    let a = number_field_at(text, pos, "amount"@, u128::MAX as nat);
    let h = number_field_at(text, a.unwrap().1, "block_height"@, u32::MAX as nat);
    let o = outpoint_field_at(text, h.unwrap().1, "outpoint"@);
    let r = rune_id_field_at(text, o.unwrap().1, "rune_id"@);
    let t = hash_field_at(text, r.unwrap().1, "txid"@);
    if a is Some && h is Some && o is Some && r is Some && t is Some {
        Some(
            (
                EventView::RuneTransferred {
                    block_hash,
                    amount: a.unwrap().0 as u128,
                    block_height: h.unwrap().0 as u32,
                    outpoint: o.unwrap().0,
                    rune_id: r.unwrap().0,
                    txid: t.unwrap().0,
                },
                t.unwrap().1,
            ),
        )
    } else {
        None
    }
}

/// Reading the fields of an event of kind `kind` behind its block hash.
#[verifier::opaque]
pub open spec fn body_at(kind: EventKind, block_hash: Seq<u8>, text: Seq<char>, pos: int) -> Option<
    (EventView, int),
> {
    match kind {
        EventKind::InscriptionCreated => inscription_created_at(block_hash, text, pos),
        EventKind::InscriptionTransferred => inscription_transferred_at(block_hash, text, pos),
        EventKind::RuneBurned => match rune_amount_at(text, pos) {
            Some(((amount, block_height, rune_id, txid), end)) => Some(
                (EventView::RuneBurned { block_hash, amount, block_height, rune_id, txid }, end),
            ),
            None => None,
        },
        EventKind::RuneEtched => rune_etched_at(block_hash, text, pos),
        EventKind::RuneMinted => match rune_amount_at(text, pos) {
            Some(((amount, block_height, rune_id, txid), end)) => Some(
                (EventView::RuneMinted { block_hash, amount, block_height, rune_id, txid }, end),
            ),
            None => None,
        },
        EventKind::RuneTransferred => rune_transferred_at(block_hash, text, pos),
    }
}

/// The kind whose opening stands at the start of `text`.
pub open spec fn kind_at(text: Seq<char>) -> Option<EventKind> {
    if has_at(text, 0, opening(EventKind::InscriptionCreated)) {
        Some(EventKind::InscriptionCreated)
    } else if has_at(text, 0, opening(EventKind::InscriptionTransferred)) {
        Some(EventKind::InscriptionTransferred)
    } else if has_at(text, 0, opening(EventKind::RuneBurned)) {
        Some(EventKind::RuneBurned)
    } else if has_at(text, 0, opening(EventKind::RuneEtched)) {
        Some(EventKind::RuneEtched)
    } else if has_at(text, 0, opening(EventKind::RuneMinted)) {
        Some(EventKind::RuneMinted)
    } else if has_at(text, 0, opening(EventKind::RuneTransferred)) {
        Some(EventKind::RuneTransferred)
    } else {
        None
    }
}

/// Reading a whole payload: the event that `text` holds, where `text` is a
/// payload from its first character to its last.
pub open spec fn event_at(text: Seq<char>) -> Option<EventView> {
    match kind_at(text) {
        Some(kind) => match hex_at(text, opening(kind).len() as int, 32) {
            Some((block_hash, p)) => match literal_at(text, p, "\""@) {
                Some(q) => match body_at(kind, block_hash, text, q) {
                    Some((e, end)) => if literal_at(text, end, "}}"@) == Some(text.len() as int) {
                        Some(e)
                    } else {
                        None
                    },
                    None => None,
                },
                None => None,
            },
            None => None,
        },
        None => None,
    }
}

} // verus!

verus! {

/// Reads three fixed parts, one behind the other.
fn read_three(bytes: &[u8], pos: usize, a: &str, b: &str, c: &str) -> (r: Option<usize>)
    requires
        pos <= bytes.len(),
        is_plain(a@),
        is_plain(b@),
        is_plain(c@),
    ensures
        r matches Some(end) ==> end <= bytes.len(),
        match r {
            Some(end) => literal_at(as_text(bytes@), pos as int, a@ + b@ + c@) == Some(end as int),
            None => literal_at(as_text(bytes@), pos as int, a@ + b@ + c@) is None,
        },
{
    proof {
        lemma_has_at_parts(as_text(bytes@), pos as int, a@ + b@, c@);
        lemma_has_at_parts(as_text(bytes@), pos as int, a@, b@);
    }
    let at1 = match read_literal(bytes, pos, a) {
        Some(p) => p,
        None => { return None; },
    };
    let at2 = match read_literal(bytes, at1, b) {
        Some(p) => p,
        None => { return None; },
    };
    read_literal(bytes, at2, c)
}

/// Reads what opens a field behind another.
fn read_field_head(bytes: &[u8], pos: usize, name: &str) -> (r: Option<usize>)
    requires
        pos <= bytes.len(),
        is_plain(name@),
    ensures
        r matches Some(end) ==> end <= bytes.len(),
        match r {
            Some(end) => literal_at(as_text(bytes@), pos as int, field_head(name@)) == Some(
                end as int,
            ),
            None => literal_at(as_text(bytes@), pos as int, field_head(name@)) is None,
        },
{
    proof {
        lemma_marks_plain();
    }
    read_three(bytes, pos, ",\"", name, "\":")
}

/// Reads what stands in front of the text of a field.
fn read_text_head(bytes: &[u8], pos: usize, name: &str) -> (r: Option<usize>)
    requires
        pos <= bytes.len(),
        is_plain(name@),
    ensures
        r matches Some(end) ==> end <= bytes.len(),
        match r {
            Some(end) => literal_at(as_text(bytes@), pos as int, text_head(name@)) == Some(
                end as int,
            ),
            None => literal_at(as_text(bytes@), pos as int, text_head(name@)) is None,
        },
{
    proof {
        lemma_marks_plain();
        lemma_has_at_parts(as_text(bytes@), pos as int, field_head(name@), "\""@);
    }
    let p = match read_field_head(bytes, pos, name) {
        Some(p) => p,
        None => { return None; },
    };
    read_literal(bytes, p, "\"")
}

/// Reads one double quote.
fn read_quote(bytes: &[u8], pos: usize) -> (r: Option<usize>)
    requires
        pos <= bytes.len(),
    ensures
        r matches Some(end) ==> end <= bytes.len(),
        match r {
            Some(end) => literal_at(as_text(bytes@), pos as int, "\""@) == Some(end as int),
            None => literal_at(as_text(bytes@), pos as int, "\""@) is None,
        },
{
    proof {
        lemma_marks_plain();
    }
    read_literal(bytes, pos, "\"")
}

/// Reads a field that holds a number of at most `max`.
fn read_number_field(bytes: &[u8], pos: usize, name: &str, max: u128) -> (r: Option<
    (u128, usize),
>)
    requires
        pos <= bytes.len(),
        is_plain(name@),
    ensures
        r matches Some((_, end)) ==> end <= bytes.len(),
        match r {
            Some((v, end)) => number_field_at(as_text(bytes@), pos as int, name@, max as nat)
                == Some((v as nat, end as int)),
            None => number_field_at(as_text(bytes@), pos as int, name@, max as nat) is None,
        },
{
    let p = match read_field_head(bytes, pos, name) {
        Some(p) => p,
        None => { return None; },
    };
    read_decimal(bytes, p, max)
}

/// Reads a field that holds a hash.
fn read_hash_field(bytes: &[u8], pos: usize, name: &str) -> (r: Option<([u8; 32], usize)>)
    requires
        pos <= bytes.len(),
        is_plain(name@),
    ensures
        r matches Some((_, end)) ==> end <= bytes.len(),
        match r {
            Some((hash, end)) => hash_field_at(as_text(bytes@), pos as int, name@) == Some(
                (hash@, end as int),
            ),
            None => hash_field_at(as_text(bytes@), pos as int, name@) is None,
        },
{
    let p = match read_text_head(bytes, pos, name) {
        Some(p) => p,
        None => { return None; },
    };
    let (hash, q) = match read_hex(bytes, p) {
        Some(found) => found,
        None => { return None; },
    };
    match read_quote(bytes, q) {
        Some(end) => Some((hash, end)),
        None => None,
    }
}

/// Reads a field that holds the identifier of a rune.
fn read_rune_id_field(bytes: &[u8], pos: usize, name: &str) -> (r: Option<(RuneId, usize)>)
    requires
        pos <= bytes.len(),
        is_plain(name@),
    ensures
        r matches Some((_, end)) ==> end <= bytes.len(),
        match r {
            Some((id, end)) => rune_id_field_at(as_text(bytes@), pos as int, name@) == Some(
                (id, end as int),
            ),
            None => rune_id_field_at(as_text(bytes@), pos as int, name@) is None,
        },
{
    let p = match read_text_head(bytes, pos, name) {
        Some(p) => p,
        None => { return None; },
    };
    let (id, q) = match read_rune_id(bytes, p) {
        Some(found) => found,
        None => { return None; },
    };
    match read_quote(bytes, q) {
        Some(end) => Some((id, end)),
        None => None,
    }
}

/// Reads a field that holds the identifier of an inscription.
fn read_inscription_id_field(bytes: &[u8], pos: usize, name: &str) -> (r: Option<
    (InscriptionId, usize),
>)
    requires
        pos <= bytes.len(),
        is_plain(name@),
    ensures
        r matches Some((_, end)) ==> end <= bytes.len(),
        match r {
            Some((id, end)) => inscription_id_field_at(as_text(bytes@), pos as int, name@) == Some(
                (id@, end as int),
            ),
            None => inscription_id_field_at(as_text(bytes@), pos as int, name@) is None,
        },
{
    let p = match read_text_head(bytes, pos, name) {
        Some(p) => p,
        None => { return None; },
    };
    let (id, q) = match read_inscription_id(bytes, p) {
        Some(found) => found,
        None => { return None; },
    };
    match read_quote(bytes, q) {
        Some(end) => Some((id, end)),
        None => None,
    }
}

/// Reads a field that holds a position inside an output.
fn read_satpoint_field(bytes: &[u8], pos: usize, name: &str) -> (r: Option<(SatPoint, usize)>)
    requires
        pos <= bytes.len(),
        is_plain(name@),
    ensures
        r matches Some((_, end)) ==> end <= bytes.len(),
        match r {
            Some((s, end)) => satpoint_field_at(as_text(bytes@), pos as int, name@) == Some(
                (s@, end as int),
            ),
            None => satpoint_field_at(as_text(bytes@), pos as int, name@) is None,
        },
{
    let p = match read_text_head(bytes, pos, name) {
        Some(p) => p,
        None => { return None; },
    };
    let (s, q) = match read_satpoint(bytes, p) {
        Some(found) => found,
        None => { return None; },
    };
    match read_quote(bytes, q) {
        Some(end) => Some((s, end)),
        None => None,
    }
}

/// Reads a field that holds an output.
fn read_outpoint_field(bytes: &[u8], pos: usize, name: &str) -> (r: Option<(OutPoint, usize)>)
    requires
        pos <= bytes.len(),
        is_plain(name@),
    ensures
        r matches Some((_, end)) ==> end <= bytes.len(),
        match r {
            Some((o, end)) => outpoint_field_at(as_text(bytes@), pos as int, name@) == Some(
                (o@, end as int),
            ),
            None => outpoint_field_at(as_text(bytes@), pos as int, name@) is None,
        },
{
    let p = match read_text_head(bytes, pos, name) {
        Some(p) => p,
        None => { return None; },
    };
    let (o, q) = match read_outpoint(bytes, p) {
        Some(found) => found,
        None => { return None; },
    };
    match read_quote(bytes, q) {
        Some(end) => Some((o, end)),
        None => None,
    }
}

/// Reads a position between double quotes.
fn read_quoted_satpoint(bytes: &[u8], pos: usize) -> (r: Option<(SatPoint, usize)>)
    requires
        pos <= bytes.len(),
    ensures
        r matches Some((_, end)) ==> end <= bytes.len(),
        match r {
            Some((s, end)) => quoted_satpoint_at(as_text(bytes@), pos as int) == Some(
                (s@, end as int),
            ),
            None => quoted_satpoint_at(as_text(bytes@), pos as int) is None,
        },
{
    let p = match read_quote(bytes, pos) {
        Some(p) => p,
        None => { return None; },
    };
    let (s, q) = match read_satpoint(bytes, p) {
        Some(found) => found,
        None => { return None; },
    };
    match read_quote(bytes, q) {
        Some(end) => Some((s, end)),
        None => None,
    }
}

/// Reads the identifier of an inscription between double quotes.
fn read_quoted_id(bytes: &[u8], pos: usize) -> (r: Option<(InscriptionId, usize)>)
    requires
        pos <= bytes.len(),
    ensures
        r matches Some((_, end)) ==> pos < end <= bytes.len(),
        match r {
            Some((id, end)) => quoted_id_at(as_text(bytes@), pos as int) == Some(
                (id@, end as int),
            ),
            None => quoted_id_at(as_text(bytes@), pos as int) is None,
        },
{
    proof {
        reveal_strlit("\"");
    }
    let p = match read_quote(bytes, pos) {
        Some(p) => p,
        None => { return None; },
    };
    let (id, q) = match read_inscription_id(bytes, p) {
        Some(found) => found,
        None => { return None; },
    };
    match read_quote(bytes, q) {
        Some(end) => Some((id, end)),
        None => None,
    }
}

/// Reads the field of a location that may be absent.
fn read_location_field(bytes: &[u8], pos: usize) -> (r: Option<(Option<SatPoint>, usize)>)
    requires
        pos <= bytes.len(),
    ensures
        r matches Some((_, end)) ==> end <= bytes.len(),
        match r {
            Some((location, end)) => location_field_at(as_text(bytes@), pos as int) == Some(
                (
                    match location {
                        Some(l) => Some(l@),
                        None => None,
                    },
                    end as int,
                ),
            ),
            None => location_field_at(as_text(bytes@), pos as int) is None,
        },
{
    proof {
        lemma_marks_plain();
        reveal_strlit("null");
    }
    let p = match read_field_head(bytes, pos, "location") {
        Some(p) => p,
        None => { return None; },
    };
    match read_literal(bytes, p, "null") {
        Some(end) => Some((None, end)),
        None => match read_quoted_satpoint(bytes, p) {
            Some((s, end)) => Some((Some(s), end)),
            None => None,
        },
    }
}

/// Reads the field of the parents: the list, item by item.
fn read_parents_field(bytes: &[u8], pos: usize) -> (r: Option<(Vec<InscriptionId>, usize)>)
    requires
        pos <= bytes.len(),
    ensures
        r matches Some((_, end)) ==> end <= bytes.len(),
        match r {
            Some((ids, end)) => parents_field_at(as_text(bytes@), pos as int) == Some(
                (ids_view(ids@), end as int),
            ),
            None => parents_field_at(as_text(bytes@), pos as int) is None,
        },
{
    proof {
        lemma_marks_plain();
        reveal_strlit("]");
        reveal_strlit(",");
        lemma_has_at_parts(
            as_text(bytes@),
            pos as int,
            field_head("parent_inscription_ids"@),
            "["@,
        );
    }
    let ghost text = as_text(bytes@);
    let head = match read_field_head(bytes, pos, "parent_inscription_ids") {
        Some(p) => p,
        None => { return None; },
    };
    let start = match read_literal(bytes, head, "[") {
        Some(p) => p,
        None => { return None; },
    };
    let mut ids: Vec<InscriptionId> = Vec::new();
    match read_literal(bytes, start, "]") {
        Some(end) => {
            assert(ids_view(ids@) =~= Seq::<InscriptionIdView>::empty());
            return Some((ids, end));
        },
        None => {},
    }
    let (first, after) = match read_quoted_id(bytes, start) {
        Some(found) => found,
        None => { return None; },
    };
    ids.push(first);
    assert(ids_view(ids@) =~= seq![first@]);
    let mut at: usize = after;
    loop
        invariant
            at <= bytes.len(),
            text == as_text(bytes@),
            parents_field_at(text, pos as int) == more_ids_at(text, at as int, ids_view(ids@)),
        decreases bytes.len() - at,
    {
        proof {
            lemma_marks_plain();
            reveal_strlit("]");
            reveal_strlit(",");
        }
        match read_literal(bytes, at, "]") {
            Some(end) => {
                return Some((ids, end));
            },
            None => {},
        }
        let p = match read_literal(bytes, at, ",") {
            Some(p) => p,
            None => { return None; },
        };
        let (id, q) = match read_quoted_id(bytes, p) {
            Some(found) => found,
            None => { return None; },
        };
        let ghost before = ids_view(ids@);
        ids.push(id);
        assert(ids_view(ids@) =~= before.push(id@));
        at = q;
    }
}

} // verus!

verus! {

/// Reads the fields of a new inscription behind its block hash.
fn read_inscription_created(block_hash: BlockHash, bytes: &[u8], pos: usize) -> (r: Option<
    (Event, usize),
>)
    requires
        pos <= bytes.len(),
    ensures
        r matches Some((_, end)) ==> end <= bytes.len(),
        match r {
            Some((e, end)) => inscription_created_at(block_hash@, as_text(bytes@), pos as int)
                == Some((e@, end as int)),
            None => inscription_created_at(block_hash@, as_text(bytes@), pos as int) is None,
        },
{
    proof {
        lemma_marks_plain();
    }
    let (block_height, at1) = match read_number_field(bytes, pos, "block_height", 4294967295) {
        Some(found) => found,
        None => { return None; },
    };
    let (charms, at2) = match read_number_field(bytes, at1, "charms", 65535) {
        Some(found) => found,
        None => { return None; },
    };
    let (inscription_id, at3) = match read_inscription_id_field(bytes, at2, "inscription_id") {
        Some(found) => found,
        None => { return None; },
    };
    let (location, at4) = match read_location_field(bytes, at3) {
        Some(found) => found,
        None => { return None; },
    };
    let (parent_inscription_ids, at5) = match read_parents_field(bytes, at4) {
        Some(found) => found,
        None => { return None; },
    };
    let (sequence_number, at6) = match read_number_field(bytes, at5, "sequence_number", 4294967295) {
        Some(found) => found,
        None => { return None; },
    };
    Some(
        (
            Event::InscriptionCreated {
                block_hash,
                block_height: block_height as u32,
                charms: charms as u16,
                inscription_id,
                location,
                parent_inscription_ids,
                sequence_number: sequence_number as u32,
            },
            at6,
        ),
    )
}

/// Reads the fields of a moved inscription behind its block hash.
fn read_inscription_transferred(block_hash: BlockHash, bytes: &[u8], pos: usize) -> (r: Option<
    (Event, usize),
>)
    requires
        pos <= bytes.len(),
    ensures
        r matches Some((_, end)) ==> end <= bytes.len(),
        match r {
            Some((e, end)) => inscription_transferred_at(block_hash@, as_text(bytes@), pos as int)
                == Some((e@, end as int)),
            None => inscription_transferred_at(block_hash@, as_text(bytes@), pos as int) is None,
        },
{
    proof {
        lemma_marks_plain();
    }
    let (block_height, at1) = match read_number_field(bytes, pos, "block_height", 4294967295) {
        Some(found) => found,
        None => { return None; },
    };
    let (inscription_id, at2) = match read_inscription_id_field(bytes, at1, "inscription_id") {
        Some(found) => found,
        None => { return None; },
    };
    let (new_location, at3) = match read_satpoint_field(bytes, at2, "new_location") {
        Some(found) => found,
        None => { return None; },
    };
    let (old_location, at4) = match read_satpoint_field(bytes, at3, "old_location") {
        Some(found) => found,
        None => { return None; },
    };
    let (sequence_number, at5) = match read_number_field(bytes, at4, "sequence_number", 4294967295) {
        Some(found) => found,
        None => { return None; },
    };
    Some(
        (
            Event::InscriptionTransferred {
                block_hash,
                block_height: block_height as u32,
                inscription_id,
                new_location,
                old_location,
                sequence_number: sequence_number as u32,
            },
            at5,
        ),
    )
}

/// Reads an amount, a block height, a rune and a transaction.
fn read_rune_amount(bytes: &[u8], pos: usize) -> (r: Option<((u128, u32, RuneId, Txid), usize)>)
    requires
        pos <= bytes.len(),
    ensures
        r matches Some((_, end)) ==> end <= bytes.len(),
        match r {
            Some((got, end)) => rune_amount_at(as_text(bytes@), pos as int) == Some(
                ((got.0, got.1, got.2, got.3@), end as int),
            ),
            None => rune_amount_at(as_text(bytes@), pos as int) is None,
        },
{
    proof {
        lemma_marks_plain();
    }
    let (amount, at1) = match read_number_field(
        bytes,
        pos,
        "amount",
        340282366920938463463374607431768211455,
    ) {
        Some(found) => found,
        None => { return None; },
    };
    let (block_height, at2) = match read_number_field(bytes, at1, "block_height", 4294967295) {
        Some(found) => found,
        None => { return None; },
    };
    let (rune_id, at3) = match read_rune_id_field(bytes, at2, "rune_id") {
        Some(found) => found,
        None => { return None; },
    };
    let (txid, at4) = match read_hash_field(bytes, at3, "txid") {
        Some(found) => found,
        None => { return None; },
    };
    Some(((amount, block_height as u32, rune_id, Txid { bytes: txid }), at4))
}

/// Reads the fields of an etching behind its block hash.
fn read_rune_etched(block_hash: BlockHash, bytes: &[u8], pos: usize) -> (r: Option<(Event, usize)>)
    requires
        pos <= bytes.len(),
    ensures
        r matches Some((_, end)) ==> end <= bytes.len(),
        match r {
            Some((e, end)) => rune_etched_at(block_hash@, as_text(bytes@), pos as int) == Some(
                (e@, end as int),
            ),
            None => rune_etched_at(block_hash@, as_text(bytes@), pos as int) is None,
        },
{
    proof {
        lemma_marks_plain();
    }
    let (block_height, at1) = match read_number_field(bytes, pos, "block_height", 4294967295) {
        Some(found) => found,
        None => { return None; },
    };
    let (rune_id, at2) = match read_rune_id_field(bytes, at1, "rune_id") {
        Some(found) => found,
        None => { return None; },
    };
    let (txid, at3) = match read_hash_field(bytes, at2, "txid") {
        Some(found) => found,
        None => { return None; },
    };
    Some(
        (
            Event::RuneEtched {
                block_hash,
                block_height: block_height as u32,
                rune_id,
                txid: Txid { bytes: txid },
            },
            at3,
        ),
    )
}

/// Reads the fields of a transfer of runes behind its block hash.
fn read_rune_transferred(block_hash: BlockHash, bytes: &[u8], pos: usize) -> (r: Option<
    (Event, usize),
>)
    requires
        pos <= bytes.len(),
    ensures
        r matches Some((_, end)) ==> end <= bytes.len(),
        match r {
            Some((e, end)) => rune_transferred_at(block_hash@, as_text(bytes@), pos as int)
                == Some((e@, end as int)),
            None => rune_transferred_at(block_hash@, as_text(bytes@), pos as int) is None,
        },
{
    proof {
        lemma_marks_plain();
    }
    let (amount, at1) = match read_number_field(
        bytes,
        pos,
        "amount",
        340282366920938463463374607431768211455,
    ) {
        Some(found) => found,
        None => { return None; },
    };
    let (block_height, at2) = match read_number_field(bytes, at1, "block_height", 4294967295) {
        Some(found) => found,
        None => { return None; },
    };
    let (outpoint, at3) = match read_outpoint_field(bytes, at2, "outpoint") {
        Some(found) => found,
        None => { return None; },
    };
    let (rune_id, at4) = match read_rune_id_field(bytes, at3, "rune_id") {
        Some(found) => found,
        None => { return None; },
    };
    let (txid, at5) = match read_hash_field(bytes, at4, "txid") {
        Some(found) => found,
        None => { return None; },
    };
    Some(
        (
            Event::RuneTransferred {
                block_hash,
                amount,
                block_height: block_height as u32,
                outpoint,
                rune_id,
                txid: Txid { bytes: txid },
            },
            at5,
        ),
    )
}

/// Reads the fields of an event of kind `kind` behind its block hash.
fn read_body(kind: EventKind, block_hash: BlockHash, bytes: &[u8], pos: usize) -> (r: Option<
    (Event, usize),
>)
    requires
        pos <= bytes.len(),
    ensures
        r matches Some((_, end)) ==> end <= bytes.len(),
        match r {
            Some((e, end)) => body_at(kind, block_hash@, as_text(bytes@), pos as int) == Some(
                (e@, end as int),
            ),
            None => body_at(kind, block_hash@, as_text(bytes@), pos as int) is None,
        },
{
    reveal(body_at);
    match kind {
        EventKind::InscriptionCreated => read_inscription_created(block_hash, bytes, pos),
        EventKind::InscriptionTransferred => read_inscription_transferred(block_hash, bytes, pos),
        EventKind::RuneBurned => match read_rune_amount(bytes, pos) {
            Some(((amount, block_height, rune_id, txid), end)) => Some(
                (Event::RuneBurned { block_hash, amount, block_height, rune_id, txid }, end),
            ),
            None => None,
        },
        EventKind::RuneEtched => read_rune_etched(block_hash, bytes, pos),
        EventKind::RuneMinted => match read_rune_amount(bytes, pos) {
            Some(((amount, block_height, rune_id, txid), end)) => Some(
                (Event::RuneMinted { block_hash, amount, block_height, rune_id, txid }, end),
            ),
            None => None,
        },
        EventKind::RuneTransferred => read_rune_transferred(block_hash, bytes, pos),
    }
}

/// Reads the opening of a payload of kind `kind`.
fn read_opening(bytes: &[u8], kind: EventKind) -> (r: Option<usize>)
    ensures
        r matches Some(end) ==> end <= bytes.len(),
        match r {
            Some(end) => has_at(as_text(bytes@), 0, opening(kind)) && end == opening(kind).len(),
            None => !has_at(as_text(bytes@), 0, opening(kind)),
        },
{
    proof {
        lemma_marks_plain();
    }
    read_three(bytes, 0, "{\"", crate::key::kind_str(kind), "\":{\"block_hash\":\"")
}

/// Finds the kind whose opening stands at the start of `bytes`.
fn read_kind(bytes: &[u8]) -> (r: Option<(EventKind, usize)>)
    ensures
        r matches Some((_, end)) ==> end <= bytes.len(),
        match r {
            Some((kind, end)) => kind_at(as_text(bytes@)) == Some(kind) && end == opening(
                kind,
            ).len(),
            None => kind_at(as_text(bytes@)) is None,
        },
{
    if let Some(end) = read_opening(bytes, EventKind::InscriptionCreated) {
        return Some((EventKind::InscriptionCreated, end));
    }
    if let Some(end) = read_opening(bytes, EventKind::InscriptionTransferred) {
        return Some((EventKind::InscriptionTransferred, end));
    }
    if let Some(end) = read_opening(bytes, EventKind::RuneBurned) {
        return Some((EventKind::RuneBurned, end));
    }
    if let Some(end) = read_opening(bytes, EventKind::RuneEtched) {
        return Some((EventKind::RuneEtched, end));
    }
    if let Some(end) = read_opening(bytes, EventKind::RuneMinted) {
        return Some((EventKind::RuneMinted, end));
    }
    if let Some(end) = read_opening(bytes, EventKind::RuneTransferred) {
        return Some((EventKind::RuneTransferred, end));
    }
    None
}

/// Reads a whole payload, from its first byte to its last.
fn read_event(bytes: &[u8]) -> (r: Option<Event>)
    ensures
        match r {
            Some(e) => event_at(as_text(bytes@)) == Some(e@),
            None => event_at(as_text(bytes@)) is None,
        },
{
    proof {
        lemma_marks_plain();
    }
    let (kind, p) = match read_kind(bytes) {
        Some(found) => found,
        None => { return None; },
    };
    let (hash, q) = match read_hex(bytes, p) {
        Some(found) => found,
        None => { return None; },
    };
    let s = match read_quote(bytes, q) {
        Some(found) => found,
        None => { return None; },
    };
    let (event, end) = match read_body(kind, BlockHash { bytes: hash }, bytes, s) {
        Some(found) => found,
        None => { return None; },
    };
    match read_literal(bytes, end, "}}") {
        Some(last) => if last == bytes.len() {
            Some(event)
        } else {
            None
        },
        None => None,
    }
}

/// Reads a payload back: the event whose payload `bytes` is, or `None`
/// where `bytes` is the payload of no event.
pub fn decode(bytes: &[u8]) -> (r: Option<Event>)
    ensures
        match r {
            Some(event) => as_text(bytes@) == payload_text(event@),
            None => forall|e: EventView| e.wf() ==> as_text(bytes@) != payload_text(e),
        },
        forall|e: EventView|
            e.wf() && as_text(bytes@) == payload_text(e) ==> r is Some && r.unwrap()@ == e,
{
    let r = read_event(bytes);
    proof {
        let text = as_text(bytes@);
        if event_at(text) is Some {
            lemma_event_read_is_written(text);
        }
        assert forall|e: EventView| e.wf() && text == payload_text(e) implies event_at(text)
            == Some(e) by {
            lemma_payload_round_trip(e);
        }
    }
    r
}

} // verus!
