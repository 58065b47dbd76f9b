//! The wire payload of an event: one JSON object, keyed by the kind of the
//! event, that holds the fields in their declared order.

use vstd::prelude::*;
use vstd::string::{StringExecFns, StrSliceExecFns};
use crate::event::{ids_view, Event, EventKind, EventView};
use crate::ids::{
    inscription_id_text, outpoint_text, rune_id_text, satpoint_text, BlockHash, InscriptionId,
    InscriptionIdView, OutPoint, RuneId, SatPoint, SatPointView, Txid,
};
use crate::key::{kind_name, kind_str};
use crate::text::{as_bytes, as_text, decimal, hex, lemma_decimal_shape, push_decimal, push_hex};

verus! {

/// What opens the payload of an event of kind `kind`, up to the digits of
/// the block hash.
pub open spec fn opening(kind: EventKind) -> Seq<char> {
    "{\""@ + kind_name(kind) + "\":{\"block_hash\":\""@
}

/// What opens a field behind another: `,"<name>":`.
pub open spec fn field_head(name: Seq<char>) -> Seq<char> {
    ",\""@ + name + "\":"@
}

/// A text between double quotes.
pub open spec fn quoted(t: Seq<char>) -> Seq<char> {
    "\""@ + t + "\""@
}

/// A field that holds a number: `,"<name>":<digits>`.
pub open spec fn number_field(name: Seq<char>, v: nat) -> Seq<char> {
    field_head(name) + decimal(v)
}

/// A field that holds a text: `,"<name>":"<text>"`.
pub open spec fn text_field(name: Seq<char>, t: Seq<char>) -> Seq<char> {
    field_head(name) + quoted(t)
}

/// The field of a location that may be absent: `null` stands for none.
pub open spec fn location_field(location: Option<SatPointView>) -> Seq<char> {
    field_head("location"@) + match location {
        Some(l) => quoted(satpoint_text(l)),
        None => "null"@,
    }
}

/// Inscription identifiers between double quotes, with commas between them.
pub open spec fn quoted_ids(ids: Seq<InscriptionIdView>) -> Seq<char>
    decreases ids.len(),
{
    if ids.len() == 0 {
        Seq::empty()
    } else if ids.len() == 1 {
        quoted(inscription_id_text(ids[0]))
    } else {
        quoted_ids(ids.drop_last()) + ","@ + quoted(inscription_id_text(ids.last()))
    }
}

/// The field of the parents of an inscription: a list, empty for none.
pub open spec fn parents_field(ids: Seq<InscriptionIdView>) -> Seq<char> {
    field_head("parent_inscription_ids"@) + "["@ + quoted_ids(ids) + "]"@
}

/// The fields of an event behind its block hash, up to the closing braces.
#[verifier::opaque]
pub open spec fn body_text(e: EventView) -> Seq<char> {
    match e {
        EventView::InscriptionCreated {
            block_height,
            charms,
            inscription_id,
            location,
            parent_inscription_ids,
            sequence_number,
            ..
        } => number_field("block_height"@, block_height as nat) + number_field(
            "charms"@,
            charms as nat,
        ) + text_field("inscription_id"@, inscription_id_text(inscription_id)) + location_field(
            location,
        ) + parents_field(parent_inscription_ids) + number_field(
            "sequence_number"@,
            sequence_number as nat,
        ),
        EventView::InscriptionTransferred {
            block_height,
            inscription_id,
            new_location,
            old_location,
            sequence_number,
            ..
        } => number_field("block_height"@, block_height as nat) + text_field(
            "inscription_id"@,
            inscription_id_text(inscription_id),
        ) + text_field("new_location"@, satpoint_text(new_location)) + text_field(
            "old_location"@,
            satpoint_text(old_location),
        ) + number_field("sequence_number"@, sequence_number as nat),
        EventView::RuneBurned { amount, block_height, rune_id, txid, .. } => number_field(
            "amount"@,
            amount as nat,
        ) + number_field("block_height"@, block_height as nat) + text_field(
            "rune_id"@,
            rune_id_text(rune_id),
        ) + text_field("txid"@, hex(txid)),
        EventView::RuneEtched { block_height, rune_id, txid, .. } => number_field(
            "block_height"@,
            block_height as nat,
        ) + text_field("rune_id"@, rune_id_text(rune_id)) + text_field("txid"@, hex(txid)),
        EventView::RuneMinted { amount, block_height, rune_id, txid, .. } => number_field(
            "amount"@,
            amount as nat,
        ) + number_field("block_height"@, block_height as nat) + text_field(
            "rune_id"@,
            rune_id_text(rune_id),
        ) + text_field("txid"@, hex(txid)),
        EventView::RuneTransferred { amount, block_height, outpoint, rune_id, txid, .. } => {
            number_field("amount"@, amount as nat) + number_field(
                "block_height"@,
                block_height as nat,
            ) + text_field("outpoint"@, outpoint_text(outpoint)) + text_field(
                "rune_id"@,
                rune_id_text(rune_id),
            ) + text_field("txid"@, hex(txid))
        },
    }
}

impl EventView {
    /// The hash of the block that caused the event.
    pub open spec fn block_hash(self) -> Seq<u8> {
        match self {
            EventView::InscriptionCreated { block_hash, .. } => block_hash,
            EventView::InscriptionTransferred { block_hash, .. } => block_hash,
            EventView::RuneBurned { block_hash, .. } => block_hash,
            EventView::RuneEtched { block_hash, .. } => block_hash,
            EventView::RuneMinted { block_hash, .. } => block_hash,
            EventView::RuneTransferred { block_hash, .. } => block_hash,
        }
    }
}

/// The payload of an event as text:
/// `{"<kind>":{"block_hash":"<hash>"<other fields>}}`, with numbers in
/// decimal, identifiers as quoted text and an absent location as `null`.
pub open spec fn payload_text(e: EventView) -> Seq<char> {
    opening(e.kind()) + hex(e.block_hash()) + "\""@ + body_text(e) + "}}"@
}

} // verus!

verus! {

/// Whether every character of `s` is an ASCII character.
pub open spec fn is_plain(s: Seq<char>) -> bool {
    vstd::utf8::is_ascii_chars(s)
}

/// The names and marks of the format are plain ASCII.
pub proof fn lemma_marks_plain()
    ensures
        is_plain("{\""@),
        is_plain("\":{\"block_hash\":\""@),
        is_plain(",\""@),
        is_plain("\":"@),
        is_plain("\""@),
        is_plain("null"@),
        is_plain("["@),
        is_plain("]"@),
        is_plain(","@),
        is_plain("}}"@),
        is_plain("location"@),
        is_plain("parent_inscription_ids"@),
        is_plain("block_height"@),
        is_plain("charms"@),
        is_plain("inscription_id"@),
        is_plain("sequence_number"@),
        is_plain("new_location"@),
        is_plain("old_location"@),
        is_plain("amount"@),
        is_plain("rune_id"@),
        is_plain("txid"@),
        is_plain("outpoint"@),
        forall|kind: EventKind| is_plain(#[trigger] kind_name(kind)),
{
    reveal_strlit("{\"");
    reveal_strlit("\":{\"block_hash\":\"");
    reveal_strlit(",\"");
    reveal_strlit("\":");
    reveal_strlit("\"");
    reveal_strlit("null");
    reveal_strlit("[");
    reveal_strlit("]");
    reveal_strlit(",");
    reveal_strlit("}}");
    reveal_strlit("location");
    reveal_strlit("parent_inscription_ids");
    reveal_strlit("block_height");
    reveal_strlit("charms");
    reveal_strlit("inscription_id");
    reveal_strlit("sequence_number");
    reveal_strlit("new_location");
    reveal_strlit("old_location");
    reveal_strlit("amount");
    reveal_strlit("rune_id");
    reveal_strlit("txid");
    reveal_strlit("outpoint");
    reveal_strlit("InscriptionCreated");
    reveal_strlit("InscriptionTransferred");
    reveal_strlit("RuneBurned");
    reveal_strlit("RuneEtched");
    reveal_strlit("RuneMinted");
    reveal_strlit("RuneTransferred");
}

/// Decimal and hexadecimal text is plain ASCII.
pub proof fn lemma_digits_plain(v: nat, bytes: Seq<u8>)
    ensures
        is_plain(decimal(v)),
        is_plain(hex(bytes)),
{
    lemma_decimal_shape(v);
}

/// Appends `part` to `out`.
fn push_str(out: &mut String, part: &str)
    requires
        is_plain(part@),
    ensures
        final(out)@ == old(out)@ + part@,
        is_plain(old(out)@) ==> is_plain(final(out)@),
{
    out.append(part);
}

/// Appends a number in decimal.
fn push_number(out: &mut String, v: u128)
    ensures
        final(out)@ == old(out)@ + decimal(v as nat),
        is_plain(old(out)@) ==> is_plain(final(out)@),
{
    proof {
        lemma_digits_plain(v as nat, Seq::empty());
    }
    push_decimal(out, v);
}

/// Appends a hash in hexadecimal.
fn push_hash(out: &mut String, bytes: &[u8; 32])
    ensures
        final(out)@ == old(out)@ + hex(bytes@),
        is_plain(old(out)@) ==> is_plain(final(out)@),
{
    proof {
        lemma_digits_plain(0, bytes@);
    }
    push_hex(out, bytes);
}

/// Appends what opens a field behind another.
fn push_field_head(out: &mut String, name: &str)
    requires
        is_plain(name@),
    ensures
        final(out)@ == old(out)@ + field_head(name@),
        is_plain(old(out)@) ==> is_plain(final(out)@),
{
    proof {
        lemma_marks_plain();
    }
    push_str(out, ",\"");
    push_str(out, name);
    push_str(out, "\":");
    assert(final(out)@ =~= old(out)@ + field_head(name@));
}

/// Appends a field that holds a number.
fn push_number_field(out: &mut String, name: &str, v: u128)
    requires
        is_plain(name@),
    ensures
        final(out)@ == old(out)@ + number_field(name@, v as nat),
        is_plain(old(out)@) ==> is_plain(final(out)@),
{
    push_field_head(out, name);
    push_number(out, v);
    assert(final(out)@ =~= old(out)@ + number_field(name@, v as nat));
}

/// Appends a field that holds a hash.
fn push_hash_field(out: &mut String, name: &str, bytes: &[u8; 32])
    requires
        is_plain(name@),
    ensures
        final(out)@ == old(out)@ + text_field(name@, hex(bytes@)),
        is_plain(old(out)@) ==> is_plain(final(out)@),
{
    proof {
        lemma_marks_plain();
    }
    push_field_head(out, name);
    push_str(out, "\"");
    push_hash(out, bytes);
    push_str(out, "\"");
    assert(final(out)@ =~= old(out)@ + text_field(name@, hex(bytes@)));
}

/// Appends an output between double quotes.
fn push_quoted_outpoint(out: &mut String, o: &OutPoint)
    ensures
        final(out)@ == old(out)@ + quoted(outpoint_text(o@)),
        is_plain(old(out)@) ==> is_plain(final(out)@),
{
    proof {
        lemma_marks_plain();
        reveal_strlit(":");
    }
    push_str(out, "\"");
    push_hash(out, &o.txid.bytes);
    push_str(out, ":");
    push_number(out, o.vout as u128);
    push_str(out, "\"");
    assert(final(out)@ =~= old(out)@ + quoted(outpoint_text(o@)));
}

/// Appends a position between double quotes.
fn push_quoted_satpoint(out: &mut String, s: &SatPoint)
    ensures
        final(out)@ == old(out)@ + quoted(satpoint_text(s@)),
        is_plain(old(out)@) ==> is_plain(final(out)@),
{
    proof {
        lemma_marks_plain();
        reveal_strlit(":");
    }
    push_str(out, "\"");
    push_hash(out, &s.outpoint.txid.bytes);
    push_str(out, ":");
    push_number(out, s.outpoint.vout as u128);
    push_str(out, ":");
    push_number(out, s.offset as u128);
    push_str(out, "\"");
    assert(final(out)@ =~= old(out)@ + quoted(satpoint_text(s@)));
}

/// Appends the identifier of an inscription between double quotes.
fn push_quoted_inscription_id(out: &mut String, i: &InscriptionId)
    ensures
        final(out)@ == old(out)@ + quoted(inscription_id_text(i@)),
        is_plain(old(out)@) ==> is_plain(final(out)@),
{
    proof {
        lemma_marks_plain();
        reveal_strlit("i");
    }
    push_str(out, "\"");
    push_hash(out, &i.txid.bytes);
    push_str(out, "i");
    push_number(out, i.index as u128);
    push_str(out, "\"");
    assert(final(out)@ =~= old(out)@ + quoted(inscription_id_text(i@)));
}

/// Appends the identifier of a rune between double quotes.
fn push_quoted_rune_id(out: &mut String, r: &RuneId)
    ensures
        final(out)@ == old(out)@ + quoted(rune_id_text(*r)),
        is_plain(old(out)@) ==> is_plain(final(out)@),
{
    proof {
        lemma_marks_plain();
        reveal_strlit(":");
    }
    push_str(out, "\"");
    push_number(out, r.block as u128);
    push_str(out, ":");
    push_number(out, r.tx as u128);
    push_str(out, "\"");
    assert(final(out)@ =~= old(out)@ + quoted(rune_id_text(*r)));
}

/// Appends the field of a location that may be absent.
fn push_location_field(out: &mut String, location: &Option<SatPoint>)
    ensures
        final(out)@ == old(out)@ + location_field(
            match *location {
                Some(l) => Some(l@),
                None => None,
            },
        ),
        is_plain(old(out)@) ==> is_plain(final(out)@),
{
    proof {
        lemma_marks_plain();
    }
    push_field_head(out, "location");
    match location {
        Some(l) => {
            push_quoted_satpoint(out, l);
        },
        None => {
            push_str(out, "null");
        },
    }
    assert(final(out)@ =~= old(out)@ + location_field(
        match *location {
            Some(l) => Some(l@),
            None => None,
        },
    ));
}

/// Appends the field of the parents.
fn push_parents_field(out: &mut String, ids: &Vec<InscriptionId>)
    ensures
        final(out)@ == old(out)@ + parents_field(ids_view(ids@)),
        is_plain(old(out)@) ==> is_plain(final(out)@),
{
    proof {
        lemma_marks_plain();
    }
    push_field_head(out, "parent_inscription_ids");
    push_str(out, "[");
    let ghost base = out@;
    let mut i: usize = 0;
    while i < ids.len()
        invariant
            i <= ids.len(),
            out@ == base + quoted_ids(ids_view(ids@).subrange(0, i as int)),
            is_plain(base) ==> is_plain(out@),
        decreases ids.len() - i,
    {
        proof {
            lemma_marks_plain();
        }
        if i > 0 {
            push_str(out, ",");
        }
        push_quoted_inscription_id(out, &ids[i]);
        proof {
            let shorter = ids_view(ids@).subrange(0, i as int);
            let longer = ids_view(ids@).subrange(0, i + 1);
            assert(longer.drop_last() =~= shorter);
            assert(longer.last() == ids[i as int]@);
            if i == 0 {
                assert(longer[0] == ids[0]@);
                assert(out@ =~= base + quoted_ids(longer));
            } else {
                assert(out@ =~= base + quoted_ids(longer));
            }
        }
        i = i + 1;
    }
    assert(ids_view(ids@).subrange(0, i as int) =~= ids_view(ids@));
    push_str(out, "]");
    assert(final(out)@ =~= old(out)@ + parents_field(ids_view(ids@)));
}

} // verus!

verus! {

/// Appends what opens a payload, the block hash, and its closing quote.
fn push_opening(out: &mut String, kind: EventKind, block_hash: &BlockHash)
    ensures
        final(out)@ == old(out)@ + opening(kind) + hex(block_hash@) + "\""@,
        is_plain(old(out)@) ==> is_plain(final(out)@),
{
    proof {
        lemma_marks_plain();
    }
    push_str(out, "{\"");
    push_str(out, kind_str(kind));
    push_str(out, "\":{\"block_hash\":\"");
    push_hash(out, &block_hash.bytes);
    push_str(out, "\"");
    assert(final(out)@ =~= old(out)@ + opening(kind) + hex(block_hash@) + "\""@);
}

/// Appends the fields of a new inscription behind its block hash.
fn push_inscription_created(
    out: &mut String,
    block_height: u32,
    charms: u16,
    inscription_id: &InscriptionId,
    location: &Option<SatPoint>,
    parents: &Vec<InscriptionId>,
    sequence_number: u32,
)
    ensures
        final(out)@ == old(out)@ + number_field("block_height"@, block_height as nat)
            + number_field("charms"@, charms as nat) + text_field(
            "inscription_id"@,
            inscription_id_text(inscription_id@),
        ) + location_field(
            match *location {
                Some(l) => Some(l@),
                None => None,
            },
        ) + parents_field(ids_view(parents@)) + number_field(
            "sequence_number"@,
            sequence_number as nat,
        ),
        is_plain(old(out)@) ==> is_plain(final(out)@),
{
    proof {
        lemma_marks_plain();
    }
    push_number_field(out, "block_height", block_height as u128);
    push_number_field(out, "charms", charms as u128);
    push_field_head(out, "inscription_id");
    push_quoted_inscription_id(out, inscription_id);
    push_location_field(out, location);
    push_parents_field(out, parents);
    push_number_field(out, "sequence_number", sequence_number as u128);
}

/// Appends the fields of a moved inscription behind its block hash.
fn push_inscription_transferred(
    out: &mut String,
    block_height: u32,
    inscription_id: &InscriptionId,
    new_location: &SatPoint,
    old_location: &SatPoint,
    sequence_number: u32,
)
    ensures
        final(out)@ == old(out)@ + number_field("block_height"@, block_height as nat) + text_field(
            "inscription_id"@,
            inscription_id_text(inscription_id@),
        ) + text_field("new_location"@, satpoint_text(new_location@)) + text_field(
            "old_location"@,
            satpoint_text(old_location@),
        ) + number_field("sequence_number"@, sequence_number as nat),
        is_plain(old(out)@) ==> is_plain(final(out)@),
{
    proof {
        lemma_marks_plain();
    }
    push_number_field(out, "block_height", block_height as u128);
    push_field_head(out, "inscription_id");
    push_quoted_inscription_id(out, inscription_id);
    push_field_head(out, "new_location");
    push_quoted_satpoint(out, new_location);
    push_field_head(out, "old_location");
    push_quoted_satpoint(out, old_location);
    push_number_field(out, "sequence_number", sequence_number as u128);
}

/// Appends the fields of a burn or of a mint behind the block hash.
fn push_rune_amount(out: &mut String, amount: u128, block_height: u32, rune_id: &RuneId, txid: &Txid)
    ensures
        final(out)@ == old(out)@ + number_field("amount"@, amount as nat) + number_field(
            "block_height"@,
            block_height as nat,
        ) + text_field("rune_id"@, rune_id_text(*rune_id)) + text_field("txid"@, hex(txid@)),
        is_plain(old(out)@) ==> is_plain(final(out)@),
{
    proof {
        lemma_marks_plain();
    }
    push_number_field(out, "amount", amount);
    push_number_field(out, "block_height", block_height as u128);
    push_field_head(out, "rune_id");
    push_quoted_rune_id(out, rune_id);
    push_hash_field(out, "txid", &txid.bytes);
}

/// Appends the fields of an etching behind its block hash.
fn push_rune_etched(out: &mut String, block_height: u32, rune_id: &RuneId, txid: &Txid)
    ensures
        final(out)@ == old(out)@ + number_field("block_height"@, block_height as nat) + text_field(
            "rune_id"@,
            rune_id_text(*rune_id),
        ) + text_field("txid"@, hex(txid@)),
        is_plain(old(out)@) ==> is_plain(final(out)@),
{
    proof {
        lemma_marks_plain();
    }
    push_number_field(out, "block_height", block_height as u128);
    push_field_head(out, "rune_id");
    push_quoted_rune_id(out, rune_id);
    push_hash_field(out, "txid", &txid.bytes);
}

/// Appends the fields of a transfer of runes behind its block hash.
fn push_rune_transferred(
    out: &mut String,
    amount: u128,
    block_height: u32,
    outpoint: &OutPoint,
    rune_id: &RuneId,
    txid: &Txid,
)
    ensures
        final(out)@ == old(out)@ + number_field("amount"@, amount as nat) + number_field(
            "block_height"@,
            block_height as nat,
        ) + text_field("outpoint"@, outpoint_text(outpoint@)) + text_field(
            "rune_id"@,
            rune_id_text(*rune_id),
        ) + text_field("txid"@, hex(txid@)),
        is_plain(old(out)@) ==> is_plain(final(out)@),
{
    proof {
        lemma_marks_plain();
    }
    push_number_field(out, "amount", amount);
    push_number_field(out, "block_height", block_height as u128);
    push_field_head(out, "outpoint");
    push_quoted_outpoint(out, outpoint);
    push_field_head(out, "rune_id");
    push_quoted_rune_id(out, rune_id);
    push_hash_field(out, "txid", &txid.bytes);
}

/// Appends the fields of an event behind its block hash.
fn push_body(out: &mut String, event: &Event)
    ensures
        final(out)@ == old(out)@ + body_text(event@),
        is_plain(old(out)@) ==> is_plain(final(out)@),
{
    reveal(body_text);
    match event {
        Event::InscriptionCreated {
            block_height,
            charms,
            inscription_id,
            location,
            parent_inscription_ids,
            sequence_number,
            ..
        } => {
            push_inscription_created(
                out,
                *block_height,
                *charms,
                inscription_id,
                location,
                parent_inscription_ids,
                *sequence_number,
            );
        },
        Event::InscriptionTransferred {
            block_height,
            inscription_id,
            new_location,
            old_location,
            sequence_number,
            ..
        } => {
            push_inscription_transferred(
                out,
                *block_height,
                inscription_id,
                new_location,
                old_location,
                *sequence_number,
            );
        },
        Event::RuneBurned { amount, block_height, rune_id, txid, .. } => {
            push_rune_amount(out, *amount, *block_height, rune_id, txid);
        },
        Event::RuneEtched { block_height, rune_id, txid, .. } => {
            push_rune_etched(out, *block_height, rune_id, txid);
        },
        Event::RuneMinted { amount, block_height, rune_id, txid, .. } => {
            push_rune_amount(out, *amount, *block_height, rune_id, txid);
        },
        Event::RuneTransferred { amount, block_height, outpoint, rune_id, txid, .. } => {
            push_rune_transferred(out, *amount, *block_height, outpoint, rune_id, txid);
        },
    }
}

impl Event {
    /// The hash of the block that caused the event.
    pub fn block_hash(&self) -> (h: BlockHash)
        ensures
            h@ == self@.block_hash(),
    {
        match self {
            Event::InscriptionCreated { block_hash, .. } => *block_hash,
            Event::InscriptionTransferred { block_hash, .. } => *block_hash,
            Event::RuneBurned { block_hash, .. } => *block_hash,
            Event::RuneEtched { block_hash, .. } => *block_hash,
            Event::RuneMinted { block_hash, .. } => *block_hash,
            Event::RuneTransferred { block_hash, .. } => *block_hash,
        }
    }
}

/// The payload of `event` as a string of plain ASCII.
pub fn payload_string(event: &Event) -> (s: String)
    ensures
        s@ == payload_text(event@),
        is_plain(s@),
{
    proof {
        lemma_marks_plain();
    }
    let mut out = String::new();
    let hash = event.block_hash();
    push_opening(&mut out, event.kind(), &hash);
    push_body(&mut out, event);
    push_str(&mut out, "}}");
    assert(out@ =~= payload_text(event@));
    out
}

/// The payload of `event`: the bytes that go on the wire, one for each
/// character of its text.
pub fn payload(event: &Event) -> (bytes: Vec<u8>)
    ensures
        bytes@ == as_bytes(payload_text(event@)),
        as_text(bytes@) == payload_text(event@),
{
    broadcast use vstd::string::is_ascii_spec_bytes;

    let s = payload_string(event);
    let bytes = s.as_str().as_bytes_vec();
    proof {
        vstd::utf8::is_ascii_chars_encode_utf8(s@);
        vstd::utf8::is_ascii_chars_nat_bound(s@);
        assert forall|i: int| 0 <= i < s@.len() implies as_text(bytes@)[i] == s@[i] by {
            assert(bytes@[i] == s@[i] as u8);
        }
        assert(as_text(bytes@) =~= s@);
        assert(bytes@ =~= as_bytes(s@));
    }
    bytes
}

} // verus!
