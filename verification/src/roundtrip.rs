//! Reading undoes writing: the payload that was written from an event reads
//! back as that event, and nothing else reads as an event.

use vstd::prelude::*;
use crate::decode::{
    body_at, event_at, inscription_created_at, inscription_transferred_at, kind_at,
    rune_amount_at, rune_etched_at, rune_transferred_at,
};
use crate::event::{EventKind, EventView};
use crate::fields::{
    lemma_field_opens, lemma_hash_field_read_is_written,
    lemma_inscription_id_field_read_is_written, lemma_no_digit_at,
    lemma_number_field_read_is_written, lemma_outpoint_field_read_is_written,
    lemma_read_written_hash_field, lemma_read_written_inscription_id_field,
    lemma_read_written_number_field, lemma_read_written_outpoint_field,
    lemma_read_written_rune_id_field, lemma_read_written_satpoint_field,
    lemma_rune_id_field_read_is_written, lemma_satpoint_field_read_is_written,
};
use crate::ids::{
    inscription_id_text, lemma_has_at_parts, outpoint_text, rune_id_text, satpoint_text, RuneId,
};
use crate::key::kind_name;
use crate::lists::{
    lemma_location_read_is_written, lemma_parents_read_is_written, lemma_read_written_location,
    lemma_read_written_parents,
};
use crate::payload::{
    body_text, location_field, number_field, opening, parents_field, payload_text, quoted,
    text_field,
};
use crate::text::{
    decimal, digit_at, has_at, hex, lemma_hex_read_is_written, lemma_read_written_hex,
};

verus! {

/// What follows a number field is no digit, where another field follows.
proof fn lemma_number_then_field(text: Seq<char>, pos: int, name: Seq<char>, rest: Seq<char>)
    requires
        has_at(text, pos, crate::payload::field_head(name) + rest),
    ensures
        !digit_at(text, pos),
{
    lemma_field_opens(name, rest);
    lemma_no_digit_at(text, pos, crate::payload::field_head(name) + rest);
}

/// Reading the written fields of a new inscription gives the event back.
#[verifier::rlimit(60)]
proof fn lemma_read_written_inscription_created(text: Seq<char>, pos: int, e: EventView)
    requires
        e is InscriptionCreated,
        e.wf(),
        has_at(text, pos, body_text(e)),
        !digit_at(text, pos + body_text(e).len()),
    ensures
        inscription_created_at(e.block_hash(), text, pos) == Some((e, pos + body_text(e).len())),
{
    reveal(body_text);
    let f1 = number_field("block_height"@, e->InscriptionCreated_block_height as nat);
    let f2 = number_field("charms"@, e->charms as nat);
    let it = inscription_id_text(e->InscriptionCreated_inscription_id);
    let f3 = text_field("inscription_id"@, it);
    let f4 = location_field(e->location);
    let f5 = parents_field(e->parent_inscription_ids);
    let f6 = number_field("sequence_number"@, e->InscriptionCreated_sequence_number as nat);
    lemma_has_at_parts(text, pos, f1 + f2 + f3 + f4 + f5, f6);
    lemma_has_at_parts(text, pos, f1 + f2 + f3 + f4, f5);
    lemma_has_at_parts(text, pos, f1 + f2 + f3, f4);
    lemma_has_at_parts(text, pos, f1 + f2, f3);
    lemma_has_at_parts(text, pos, f1, f2);
    let at1 = pos + f1.len();
    let at2 = at1 + f2.len();
    let at3 = at2 + f3.len();
    let at4 = at3 + f4.len();
    let at5 = at4 + f5.len();
    lemma_number_then_field(text, at1, "charms"@, decimal(e->charms as nat));
    lemma_number_then_field(text, at2, "inscription_id"@, quoted(it));
    lemma_read_written_number_field(
        text,
        pos,
        "block_height"@,
        e->InscriptionCreated_block_height as nat,
        u32::MAX as nat,
    );
    lemma_read_written_number_field(text, at1, "charms"@, e->charms as nat, u16::MAX as nat);
    lemma_read_written_inscription_id_field(
        text,
        at2,
        "inscription_id"@,
        e->InscriptionCreated_inscription_id,
    );
    lemma_read_written_location(text, at3, e->location);
    lemma_read_written_parents(text, at4, e->parent_inscription_ids);
    lemma_read_written_number_field(
        text,
        at5,
        "sequence_number"@,
        e->InscriptionCreated_sequence_number as nat,
        u32::MAX as nat,
    );
}

/// What reads as the fields of a new inscription are the written fields of the
/// event it gives.
#[verifier::rlimit(60)]
proof fn lemma_inscription_created_read_is_written(block_hash: Seq<u8>, text: Seq<char>, pos: int)
    requires
        block_hash.len() == 32,
        inscription_created_at(block_hash, text, pos) is Some,
    ensures
        inscription_created_at(block_hash, text, pos).unwrap().0.wf(),
        inscription_created_at(block_hash, text, pos).unwrap().0 is InscriptionCreated,
        inscription_created_at(block_hash, text, pos).unwrap().0.block_hash() == block_hash,
        has_at(text, pos, body_text(inscription_created_at(block_hash, text, pos).unwrap().0)),
        inscription_created_at(block_hash, text, pos).unwrap().1 == pos + body_text(
            inscription_created_at(block_hash, text, pos).unwrap().0,
        ).len(),
{
    reveal(body_text);
    let e = inscription_created_at(block_hash, text, pos).unwrap().0;
    let f1 = number_field("block_height"@, e->InscriptionCreated_block_height as nat);
    let f2 = number_field("charms"@, e->charms as nat);
    let it = inscription_id_text(e->InscriptionCreated_inscription_id);
    let f3 = text_field("inscription_id"@, it);
    let f4 = location_field(e->location);
    let f5 = parents_field(e->parent_inscription_ids);
    let f6 = number_field("sequence_number"@, e->InscriptionCreated_sequence_number as nat);
    lemma_number_field_read_is_written(text, pos, "block_height"@, u32::MAX as nat);
    let at1 = pos + f1.len();
    lemma_number_field_read_is_written(text, at1, "charms"@, u16::MAX as nat);
    let at2 = at1 + f2.len();
    lemma_inscription_id_field_read_is_written(text, at2, "inscription_id"@);
    let at3 = at2 + f3.len();
    lemma_location_read_is_written(text, at3);
    let at4 = at3 + f4.len();
    lemma_parents_read_is_written(text, at4);
    let at5 = at4 + f5.len();
    lemma_number_field_read_is_written(text, at5, "sequence_number"@, u32::MAX as nat);
    lemma_has_at_parts(text, pos, f1, f2);
    lemma_has_at_parts(text, pos, f1 + f2, f3);
    lemma_has_at_parts(text, pos, f1 + f2 + f3, f4);
    lemma_has_at_parts(text, pos, f1 + f2 + f3 + f4, f5);
    lemma_has_at_parts(text, pos, f1 + f2 + f3 + f4 + f5, f6);
}

/// Reading the written fields of a moved inscription gives the event back.
#[verifier::rlimit(60)]
proof fn lemma_read_written_inscription_transferred(text: Seq<char>, pos: int, e: EventView)
    requires
        e is InscriptionTransferred,
        e.wf(),
        has_at(text, pos, body_text(e)),
        !digit_at(text, pos + body_text(e).len()),
    ensures
        inscription_transferred_at(e.block_hash(), text, pos) == Some(
            (e, pos + body_text(e).len()),
        ),
{
    reveal(body_text);
    let f1 = number_field("block_height"@, e->InscriptionTransferred_block_height as nat);
    let it = inscription_id_text(e->InscriptionTransferred_inscription_id);
    let f2 = text_field("inscription_id"@, it);
    let f3 = text_field("new_location"@, satpoint_text(e->new_location));
    let f4 = text_field("old_location"@, satpoint_text(e->old_location));
    let f5 = number_field("sequence_number"@, e->InscriptionTransferred_sequence_number as nat);
    lemma_has_at_parts(text, pos, f1 + f2 + f3 + f4, f5);
    lemma_has_at_parts(text, pos, f1 + f2 + f3, f4);
    lemma_has_at_parts(text, pos, f1 + f2, f3);
    lemma_has_at_parts(text, pos, f1, f2);
    let at1 = pos + f1.len();
    let at2 = at1 + f2.len();
    let at3 = at2 + f3.len();
    let at4 = at3 + f4.len();
    lemma_number_then_field(text, at1, "inscription_id"@, quoted(it));
    lemma_read_written_number_field(
        text,
        pos,
        "block_height"@,
        e->InscriptionTransferred_block_height as nat,
        u32::MAX as nat,
    );
    lemma_read_written_inscription_id_field(
        text,
        at1,
        "inscription_id"@,
        e->InscriptionTransferred_inscription_id,
    );
    lemma_read_written_satpoint_field(text, at2, "new_location"@, e->new_location);
    lemma_read_written_satpoint_field(text, at3, "old_location"@, e->old_location);
    lemma_read_written_number_field(
        text,
        at4,
        "sequence_number"@,
        e->InscriptionTransferred_sequence_number as nat,
        u32::MAX as nat,
    );
}

/// What reads as the fields of a moved inscription are the written fields of
/// the event it gives.
#[verifier::rlimit(60)]
proof fn lemma_inscription_transferred_read_is_written(
    block_hash: Seq<u8>,
    text: Seq<char>,
    pos: int,
)
    requires
        block_hash.len() == 32,
        inscription_transferred_at(block_hash, text, pos) is Some,
    ensures
        inscription_transferred_at(block_hash, text, pos).unwrap().0.wf(),
        inscription_transferred_at(block_hash, text, pos).unwrap().0 is InscriptionTransferred,
        inscription_transferred_at(block_hash, text, pos).unwrap().0.block_hash() == block_hash,
        has_at(text, pos, body_text(inscription_transferred_at(block_hash, text, pos).unwrap().0)),
        inscription_transferred_at(block_hash, text, pos).unwrap().1 == pos + body_text(
            inscription_transferred_at(block_hash, text, pos).unwrap().0,
        ).len(),
{
    reveal(body_text);
    let e = inscription_transferred_at(block_hash, text, pos).unwrap().0;
    let f1 = number_field("block_height"@, e->InscriptionTransferred_block_height as nat);
    let it = inscription_id_text(e->InscriptionTransferred_inscription_id);
    let f2 = text_field("inscription_id"@, it);
    let f3 = text_field("new_location"@, satpoint_text(e->new_location));
    let f4 = text_field("old_location"@, satpoint_text(e->old_location));
    let f5 = number_field("sequence_number"@, e->InscriptionTransferred_sequence_number as nat);
    lemma_number_field_read_is_written(text, pos, "block_height"@, u32::MAX as nat);
    let at1 = pos + f1.len();
    lemma_inscription_id_field_read_is_written(text, at1, "inscription_id"@);
    let at2 = at1 + f2.len();
    lemma_satpoint_field_read_is_written(text, at2, "new_location"@);
    let at3 = at2 + f3.len();
    lemma_satpoint_field_read_is_written(text, at3, "old_location"@);
    let at4 = at3 + f4.len();
    lemma_number_field_read_is_written(text, at4, "sequence_number"@, u32::MAX as nat);
    lemma_has_at_parts(text, pos, f1, f2);
    lemma_has_at_parts(text, pos, f1 + f2, f3);
    lemma_has_at_parts(text, pos, f1 + f2 + f3, f4);
    lemma_has_at_parts(text, pos, f1 + f2 + f3 + f4, f5);
}

/// The fields of a burn and of a mint, as they are written.
spec fn rune_amount_text(amount: u128, block_height: u32, rune_id: RuneId, txid: Seq<u8>) -> Seq<
    char,
> {
    number_field("amount"@, amount as nat) + number_field("block_height"@, block_height as nat)
        + text_field("rune_id"@, rune_id_text(rune_id)) + text_field("txid"@, hex(txid))
}

/// Reading the written fields of a burn or a mint gives them back.
proof fn lemma_read_written_rune_amount(
    text: Seq<char>,
    pos: int,
    amount: u128,
    block_height: u32,
    rune_id: RuneId,
    txid: Seq<u8>,
)
    requires
        txid.len() == 32,
        has_at(text, pos, rune_amount_text(amount, block_height, rune_id, txid)),
    ensures
        rune_amount_at(text, pos) == Some(
            (
                (amount, block_height, rune_id, txid),
                pos + rune_amount_text(amount, block_height, rune_id, txid).len(),
            ),
        ),
{
    let f1 = number_field("amount"@, amount as nat);
    let f2 = number_field("block_height"@, block_height as nat);
    let f3 = text_field("rune_id"@, rune_id_text(rune_id));
    let f4 = text_field("txid"@, hex(txid));
    lemma_has_at_parts(text, pos, f1 + f2 + f3, f4);
    lemma_has_at_parts(text, pos, f1 + f2, f3);
    lemma_has_at_parts(text, pos, f1, f2);
    let at1 = pos + f1.len();
    let at2 = at1 + f2.len();
    let at3 = at2 + f3.len();
    lemma_number_then_field(text, at1, "block_height"@, decimal(block_height as nat));
    lemma_number_then_field(text, at2, "rune_id"@, quoted(rune_id_text(rune_id)));
    lemma_read_written_number_field(text, pos, "amount"@, amount as nat, u128::MAX as nat);
    lemma_read_written_number_field(
        text,
        at1,
        "block_height"@,
        block_height as nat,
        u32::MAX as nat,
    );
    lemma_read_written_rune_id_field(text, at2, "rune_id"@, rune_id);
    lemma_read_written_hash_field(text, at3, "txid"@, txid);
}

/// What reads as the fields of a burn or a mint are those fields as written.
proof fn lemma_rune_amount_read_is_written(text: Seq<char>, pos: int)
    requires
        rune_amount_at(text, pos) is Some,
    ensures
        rune_amount_at(text, pos).unwrap().0.3.len() == 32,
        has_at(
            text,
            pos,
            rune_amount_text(
                rune_amount_at(text, pos).unwrap().0.0,
                rune_amount_at(text, pos).unwrap().0.1,
                rune_amount_at(text, pos).unwrap().0.2,
                rune_amount_at(text, pos).unwrap().0.3,
            ),
        ),
        rune_amount_at(text, pos).unwrap().1 == pos + rune_amount_text(
            rune_amount_at(text, pos).unwrap().0.0,
            rune_amount_at(text, pos).unwrap().0.1,
            rune_amount_at(text, pos).unwrap().0.2,
            rune_amount_at(text, pos).unwrap().0.3,
        ).len(),
{
    let got = rune_amount_at(text, pos).unwrap().0;
    let f1 = number_field("amount"@, got.0 as nat);
    let f2 = number_field("block_height"@, got.1 as nat);
    let f3 = text_field("rune_id"@, rune_id_text(got.2));
    let f4 = text_field("txid"@, hex(got.3));
    lemma_number_field_read_is_written(text, pos, "amount"@, u128::MAX as nat);
    let at1 = pos + f1.len();
    lemma_number_field_read_is_written(text, at1, "block_height"@, u32::MAX as nat);
    let at2 = at1 + f2.len();
    lemma_rune_id_field_read_is_written(text, at2, "rune_id"@);
    let at3 = at2 + f3.len();
    lemma_hash_field_read_is_written(text, at3, "txid"@);
    lemma_has_at_parts(text, pos, f1, f2);
    lemma_has_at_parts(text, pos, f1 + f2, f3);
    lemma_has_at_parts(text, pos, f1 + f2 + f3, f4);
}

/// Reading the written fields of an etching gives the event back.
proof fn lemma_read_written_rune_etched(text: Seq<char>, pos: int, e: EventView)
    requires
        e is RuneEtched,
        e.wf(),
        has_at(text, pos, body_text(e)),
    ensures
        rune_etched_at(e.block_hash(), text, pos) == Some((e, pos + body_text(e).len())),
{
    reveal(body_text);
    let f1 = number_field("block_height"@, e->RuneEtched_block_height as nat);
    let f2 = text_field("rune_id"@, rune_id_text(e->RuneEtched_rune_id));
    let f3 = text_field("txid"@, hex(e->RuneEtched_txid));
    lemma_has_at_parts(text, pos, f1 + f2, f3);
    lemma_has_at_parts(text, pos, f1, f2);
    let at1 = pos + f1.len();
    let at2 = at1 + f2.len();
    lemma_number_then_field(text, at1, "rune_id"@, quoted(rune_id_text(e->RuneEtched_rune_id)));
    lemma_read_written_number_field(
        text,
        pos,
        "block_height"@,
        e->RuneEtched_block_height as nat,
        u32::MAX as nat,
    );
    lemma_read_written_rune_id_field(text, at1, "rune_id"@, e->RuneEtched_rune_id);
    lemma_read_written_hash_field(text, at2, "txid"@, e->RuneEtched_txid);
}

/// What reads as the fields of an etching are the written fields of the event
/// it gives.
proof fn lemma_rune_etched_read_is_written(block_hash: Seq<u8>, text: Seq<char>, pos: int)
    requires
        block_hash.len() == 32,
        rune_etched_at(block_hash, text, pos) is Some,
    ensures
        rune_etched_at(block_hash, text, pos).unwrap().0.wf(),
        rune_etched_at(block_hash, text, pos).unwrap().0 is RuneEtched,
        rune_etched_at(block_hash, text, pos).unwrap().0.block_hash() == block_hash,
        has_at(text, pos, body_text(rune_etched_at(block_hash, text, pos).unwrap().0)),
        rune_etched_at(block_hash, text, pos).unwrap().1 == pos + body_text(
            rune_etched_at(block_hash, text, pos).unwrap().0,
        ).len(),
{
    reveal(body_text);
    let e = rune_etched_at(block_hash, text, pos).unwrap().0;
    let f1 = number_field("block_height"@, e->RuneEtched_block_height as nat);
    let f2 = text_field("rune_id"@, rune_id_text(e->RuneEtched_rune_id));
    let f3 = text_field("txid"@, hex(e->RuneEtched_txid));
    lemma_number_field_read_is_written(text, pos, "block_height"@, u32::MAX as nat);
    let at1 = pos + f1.len();
    lemma_rune_id_field_read_is_written(text, at1, "rune_id"@);
    let at2 = at1 + f2.len();
    lemma_hash_field_read_is_written(text, at2, "txid"@);
    lemma_has_at_parts(text, pos, f1, f2);
    lemma_has_at_parts(text, pos, f1 + f2, f3);
}

/// Reading the written fields of a transfer of runes gives the event back.
proof fn lemma_read_written_rune_transferred(text: Seq<char>, pos: int, e: EventView)
    requires
        e is RuneTransferred,
        e.wf(),
        has_at(text, pos, body_text(e)),
    ensures
        rune_transferred_at(e.block_hash(), text, pos) == Some((e, pos + body_text(e).len())),
{
    reveal(body_text);
    let f1 = number_field("amount"@, e->RuneTransferred_amount as nat);
    let f2 = number_field("block_height"@, e->RuneTransferred_block_height as nat);
    let f3 = text_field("outpoint"@, outpoint_text(e->outpoint));
    let f4 = text_field("rune_id"@, rune_id_text(e->RuneTransferred_rune_id));
    let f5 = text_field("txid"@, hex(e->RuneTransferred_txid));
    lemma_has_at_parts(text, pos, f1 + f2 + f3 + f4, f5);
    lemma_has_at_parts(text, pos, f1 + f2 + f3, f4);
    lemma_has_at_parts(text, pos, f1 + f2, f3);
    lemma_has_at_parts(text, pos, f1, f2);
    let at1 = pos + f1.len();
    let at2 = at1 + f2.len();
    let at3 = at2 + f3.len();
    let at4 = at3 + f4.len();
    lemma_number_then_field(
        text,
        at1,
        "block_height"@,
        decimal(e->RuneTransferred_block_height as nat),
    );
    lemma_number_then_field(text, at2, "outpoint"@, quoted(outpoint_text(e->outpoint)));
    lemma_read_written_number_field(
        text,
        pos,
        "amount"@,
        e->RuneTransferred_amount as nat,
        u128::MAX as nat,
    );
    lemma_read_written_number_field(
        text,
        at1,
        "block_height"@,
        e->RuneTransferred_block_height as nat,
        u32::MAX as nat,
    );
    lemma_read_written_outpoint_field(text, at2, "outpoint"@, e->outpoint);
    lemma_read_written_rune_id_field(text, at3, "rune_id"@, e->RuneTransferred_rune_id);
    lemma_read_written_hash_field(text, at4, "txid"@, e->RuneTransferred_txid);
}

/// What reads as the fields of a transfer of runes are the written fields of
/// the event it gives.
proof fn lemma_rune_transferred_read_is_written(block_hash: Seq<u8>, text: Seq<char>, pos: int)
    requires
        block_hash.len() == 32,
        rune_transferred_at(block_hash, text, pos) is Some,
    ensures
        rune_transferred_at(block_hash, text, pos).unwrap().0.wf(),
        rune_transferred_at(block_hash, text, pos).unwrap().0 is RuneTransferred,
        rune_transferred_at(block_hash, text, pos).unwrap().0.block_hash() == block_hash,
        has_at(text, pos, body_text(rune_transferred_at(block_hash, text, pos).unwrap().0)),
        rune_transferred_at(block_hash, text, pos).unwrap().1 == pos + body_text(
            rune_transferred_at(block_hash, text, pos).unwrap().0,
        ).len(),
{
    reveal(body_text);
    let e = rune_transferred_at(block_hash, text, pos).unwrap().0;
    let f1 = number_field("amount"@, e->RuneTransferred_amount as nat);
    let f2 = number_field("block_height"@, e->RuneTransferred_block_height as nat);
    let f3 = text_field("outpoint"@, outpoint_text(e->outpoint));
    let f4 = text_field("rune_id"@, rune_id_text(e->RuneTransferred_rune_id));
    let f5 = text_field("txid"@, hex(e->RuneTransferred_txid));
    lemma_number_field_read_is_written(text, pos, "amount"@, u128::MAX as nat);
    let at1 = pos + f1.len();
    lemma_number_field_read_is_written(text, at1, "block_height"@, u32::MAX as nat);
    let at2 = at1 + f2.len();
    lemma_outpoint_field_read_is_written(text, at2, "outpoint"@);
    let at3 = at2 + f3.len();
    lemma_rune_id_field_read_is_written(text, at3, "rune_id"@);
    let at4 = at3 + f4.len();
    lemma_hash_field_read_is_written(text, at4, "txid"@);
    lemma_has_at_parts(text, pos, f1, f2);
    lemma_has_at_parts(text, pos, f1 + f2, f3);
    lemma_has_at_parts(text, pos, f1 + f2 + f3, f4);
    lemma_has_at_parts(text, pos, f1 + f2 + f3 + f4, f5);
}

/// Reading the fields of an event that were written gives the event back,
/// where what follows them is no digit.
pub proof fn lemma_read_written_body(text: Seq<char>, pos: int, e: EventView)
    requires
        e.wf(),
        has_at(text, pos, body_text(e)),
        !digit_at(text, pos + body_text(e).len()),
    ensures
        body_at(e.kind(), e.block_hash(), text, pos) == Some((e, pos + body_text(e).len())),
{
    reveal(body_text);
    reveal(body_at);
    match e {
        EventView::InscriptionCreated { .. } => {
            lemma_read_written_inscription_created(text, pos, e);
        },
        EventView::InscriptionTransferred { .. } => {
            lemma_read_written_inscription_transferred(text, pos, e);
        },
        EventView::RuneBurned { amount, block_height, rune_id, txid, .. } => {
            lemma_read_written_rune_amount(text, pos, amount, block_height, rune_id, txid);
        },
        EventView::RuneEtched { .. } => {
            lemma_read_written_rune_etched(text, pos, e);
        },
        EventView::RuneMinted { amount, block_height, rune_id, txid, .. } => {
            lemma_read_written_rune_amount(text, pos, amount, block_height, rune_id, txid);
        },
        EventView::RuneTransferred { .. } => {
            lemma_read_written_rune_transferred(text, pos, e);
        },
    }
}

/// What reading the fields of an event accepts are the written fields of
/// the event it gives, which is of the kind asked for.
pub proof fn lemma_body_read_is_written(
    kind: EventKind,
    block_hash: Seq<u8>,
    text: Seq<char>,
    pos: int,
)
    requires
        block_hash.len() == 32,
        body_at(kind, block_hash, text, pos) is Some,
    ensures
        body_at(kind, block_hash, text, pos).unwrap().0.wf(),
        body_at(kind, block_hash, text, pos).unwrap().0.kind() == kind,
        body_at(kind, block_hash, text, pos).unwrap().0.block_hash() == block_hash,
        has_at(text, pos, body_text(body_at(kind, block_hash, text, pos).unwrap().0)),
        body_at(kind, block_hash, text, pos).unwrap().1 == pos + body_text(
            body_at(kind, block_hash, text, pos).unwrap().0,
        ).len(),
{
    reveal(body_text);
    reveal(body_at);
    match kind {
        EventKind::InscriptionCreated => {
            lemma_inscription_created_read_is_written(block_hash, text, pos);
        },
        EventKind::InscriptionTransferred => {
            lemma_inscription_transferred_read_is_written(block_hash, text, pos);
        },
        EventKind::RuneBurned => {
            lemma_rune_amount_read_is_written(text, pos);
        },
        EventKind::RuneEtched => {
            lemma_rune_etched_read_is_written(block_hash, text, pos);
        },
        EventKind::RuneMinted => {
            lemma_rune_amount_read_is_written(text, pos);
        },
        EventKind::RuneTransferred => {
            lemma_rune_transferred_read_is_written(block_hash, text, pos);
        },
    }
}

} // verus!

verus! {

/// No two kinds have openings that stand at the start of one text.
pub proof fn lemma_openings_differ(text: Seq<char>, a: EventKind, b: EventKind)
    requires
        has_at(text, 0, opening(a)),
        has_at(text, 0, opening(b)),
    ensures
        a == b,
{
    reveal_strlit("{\"");
    reveal_strlit("\":{\"block_hash\":\"");
    reveal_strlit("InscriptionCreated");
    reveal_strlit("InscriptionTransferred");
    reveal_strlit("RuneBurned");
    reveal_strlit("RuneEtched");
    reveal_strlit("RuneMinted");
    reveal_strlit("RuneTransferred");
    let oa = opening(a);
    let ob = opening(b);
    let ta = text.subrange(0, oa.len() as int);
    let tb = text.subrange(0, ob.len() as int);
    assert(ta[2] == text[2] && tb[2] == text[2]);
    assert(ta[6] == text[6] && tb[6] == text[6]);
    assert(ta[13] == text[13] && tb[13] == text[13]);
    assert(oa[2] == kind_name(a)[0] && ob[2] == kind_name(b)[0]);
    assert(oa[6] == kind_name(a)[4] && ob[6] == kind_name(b)[4]);
    if kind_name(a).len() > 11 {
        assert(oa[13] == kind_name(a)[11]);
    }
    if kind_name(b).len() > 11 {
        assert(ob[13] == kind_name(b)[11]);
    }
}

/// Writing an event and reading the payload back gives the event.
pub proof fn lemma_payload_round_trip(e: EventView)
    requires
        e.wf(),
    ensures
        event_at(payload_text(e)) == Some(e),
{
    reveal_strlit("\"");
    reveal_strlit("}}");
    let text = payload_text(e);
    let kind = e.kind();
    let o = opening(kind);
    let hb = hex(e.block_hash());
    let body = body_text(e);
    assert(text.subrange(0, text.len() as int) =~= text);
    lemma_has_at_parts(text, 0, o + hb + "\""@ + body, "}}"@);
    lemma_has_at_parts(text, 0, o + hb + "\""@, body);
    lemma_has_at_parts(text, 0, o + hb, "\""@);
    lemma_has_at_parts(text, 0, o, hb);
    assert(kind_at(text) == Some(kind)) by {
        if has_at(text, 0, opening(EventKind::InscriptionCreated)) {
            lemma_openings_differ(text, EventKind::InscriptionCreated, kind);
        }
        if has_at(text, 0, opening(EventKind::InscriptionTransferred)) {
            lemma_openings_differ(text, EventKind::InscriptionTransferred, kind);
        }
        if has_at(text, 0, opening(EventKind::RuneBurned)) {
            lemma_openings_differ(text, EventKind::RuneBurned, kind);
        }
        if has_at(text, 0, opening(EventKind::RuneEtched)) {
            lemma_openings_differ(text, EventKind::RuneEtched, kind);
        }
        if has_at(text, 0, opening(EventKind::RuneMinted)) {
            lemma_openings_differ(text, EventKind::RuneMinted, kind);
        }
        if has_at(text, 0, opening(EventKind::RuneTransferred)) {
            lemma_openings_differ(text, EventKind::RuneTransferred, kind);
        }
    }
    let p = o.len() as int;
    lemma_read_written_hex(text, p, e.block_hash());
    let q = p + 64 + 1;
    lemma_no_digit_at(text, q + body.len(), "}}"@);
    lemma_read_written_body(text, q, e);
}

/// What reads as an event is the payload of that event, and the event has
/// every hash at its full length.
pub proof fn lemma_event_read_is_written(text: Seq<char>)
    requires
        event_at(text) is Some,
    ensures
        event_at(text).unwrap().wf(),
        payload_text(event_at(text).unwrap()) == text,
{
    reveal_strlit("\"");
    reveal_strlit("}}");
    let e = event_at(text).unwrap();
    let kind = kind_at(text).unwrap();
    let o = opening(kind);
    let p = o.len() as int;
    lemma_hex_read_is_written(text, p, 32);
    let block_hash = crate::text::hex_at(text, p, 32).unwrap().0;
    let q = p + 64 + 1;
    lemma_body_read_is_written(kind, block_hash, text, q);
    let hb = hex(block_hash);
    let body = body_text(e);
    lemma_has_at_parts(text, 0, o, hb);
    lemma_has_at_parts(text, 0, o + hb, "\""@);
    lemma_has_at_parts(text, 0, o + hb + "\""@, body);
    lemma_has_at_parts(text, 0, o + hb + "\""@ + body, "}}"@);
    assert(text.subrange(0, text.len() as int) =~= text);
}

/// Writing is stable: the event that is read from a written payload is
/// written as the same payload again.
pub proof fn lemma_payload_stable(e: EventView)
    requires
        e.wf(),
    ensures
        event_at(payload_text(e)) is Some,
        payload_text(event_at(payload_text(e)).unwrap()) == payload_text(e),
{
    lemma_payload_round_trip(e);
}

/// Two events with the same payload are the same event.
pub proof fn lemma_payload_injective(a: EventView, b: EventView)
    requires
        a.wf(),
        b.wf(),
        payload_text(a) == payload_text(b),
    ensures
        a == b,
{
    lemma_payload_round_trip(a);
    lemma_payload_round_trip(b);
}

} // verus!
