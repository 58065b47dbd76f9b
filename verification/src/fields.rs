//! Reading the fields of a payload back: what each reader accepts, and that
//! it accepts exactly what was written.

use vstd::prelude::*;
use crate::ids::{
    inscription_id_at, inscription_id_text, lemma_has_at_parts,
    lemma_inscription_id_read_is_written, lemma_outpoint_read_is_written,
    lemma_read_written_inscription_id, lemma_read_written_outpoint, lemma_read_written_rune_id,
    lemma_read_written_satpoint, lemma_rune_id_read_is_written, lemma_satpoint_read_is_written,
    outpoint_at, outpoint_text, rune_id_at, rune_id_text, satpoint_at, satpoint_text,
    InscriptionIdView, OutPointView, RuneId, SatPointView,
};
use crate::payload::{field_head, number_field, text_field};
use crate::text::{
    decimal, decimal_at, digit_at, has_at, hex, hex_at, is_digit, lemma_decimal_read_is_written,
    lemma_hex_read_is_written, lemma_read_written_decimal, lemma_read_written_hex, literal_at,
};

verus! {

/// What stands in front of the text of a field: `,"<name>":"`.
pub open spec fn text_head(name: Seq<char>) -> Seq<char> {
    field_head(name) + "\""@
}

/// Reading a field that holds a number of at most `max`.
pub open spec fn number_field_at(text: Seq<char>, pos: int, name: Seq<char>, max: nat) -> Option<
    (nat, int),
> {
    match literal_at(text, pos, field_head(name)) {
        Some(p) => decimal_at(text, p, max),
        None => None,
    }
}

/// Reading a field that holds a hash.
pub open spec fn hash_field_at(text: Seq<char>, pos: int, name: Seq<char>) -> Option<
    (Seq<u8>, int),
> {
    match literal_at(text, pos, text_head(name)) {
        Some(p) => match hex_at(text, p, 32) {
            Some((hash, q)) => match literal_at(text, q, "\""@) {
                Some(end) => Some((hash, end)),
                None => None,
            },
            None => None,
        },
        None => None,
    }
}

/// Reading a field that holds the identifier of a rune.
pub open spec fn rune_id_field_at(text: Seq<char>, pos: int, name: Seq<char>) -> Option<
    (RuneId, int),
> {
    match literal_at(text, pos, text_head(name)) {
        Some(p) => match rune_id_at(text, p) {
            Some((id, q)) => match literal_at(text, q, "\""@) {
                Some(end) => Some((id, end)),
                None => None,
            },
            None => None,
        },
        None => None,
    }
}

/// Reading a field that holds the identifier of an inscription.
pub open spec fn inscription_id_field_at(text: Seq<char>, pos: int, name: Seq<char>) -> Option<
    (InscriptionIdView, int),
> {
    match literal_at(text, pos, text_head(name)) {
        Some(p) => match inscription_id_at(text, p) {
            Some((id, q)) => match literal_at(text, q, "\""@) {
                Some(end) => Some((id, end)),
                None => None,
            },
            None => None,
        },
        None => None,
    }
}

/// Reading a field that holds a position inside an output.
pub open spec fn satpoint_field_at(text: Seq<char>, pos: int, name: Seq<char>) -> Option<
    (SatPointView, int),
> {
    match literal_at(text, pos, text_head(name)) {
        Some(p) => match satpoint_at(text, p) {
            Some((s, q)) => match literal_at(text, q, "\""@) {
                Some(end) => Some((s, end)),
                None => None,
            },
            None => None,
        },
        None => None,
    }
}

/// Reading a field that holds an output.
pub open spec fn outpoint_field_at(text: Seq<char>, pos: int, name: Seq<char>) -> Option<
    (OutPointView, int),
> {
    match literal_at(text, pos, text_head(name)) {
        Some(p) => match outpoint_at(text, p) {
            Some((o, q)) => match literal_at(text, q, "\""@) {
                Some(end) => Some((o, end)),
                None => None,
            },
            None => None,
        },
        None => None,
    }
}

/// Where a part that starts with something other than a digit stands at
/// `pos`, no digit stands at `pos`.
pub proof fn lemma_no_digit_at(text: Seq<char>, pos: int, part: Seq<char>)
    requires
        has_at(text, pos, part),
        part.len() > 0,
        !is_digit(part[0]),
    ensures
        !digit_at(text, pos),
{
    assert(text[pos] == text.subrange(pos, pos + part.len())[0]);
}

/// Every field behind another starts with a comma.
pub proof fn lemma_field_opens(name: Seq<char>, rest: Seq<char>)
    ensures
        (field_head(name) + rest).len() > 0,
        (field_head(name) + rest)[0] == ',',
        !is_digit((field_head(name) + rest)[0]),
{
    reveal_strlit(",\"");
    assert((",\""@ + name + "\":"@ + rest)[0] == ",\""@[0]);
}

/// A text field stands at `pos` exactly where its head, its text and its
/// closing quote stand one behind the other.
pub proof fn lemma_text_field_parts(text: Seq<char>, pos: int, name: Seq<char>, t: Seq<char>)
    ensures
        has_at(text, pos, text_field(name, t)) <==> {
            &&& has_at(text, pos, text_head(name))
            &&& has_at(text, pos + text_head(name).len(), t)
            &&& has_at(text, pos + text_head(name).len() + t.len(), "\""@)
        },
        text_field(name, t).len() == text_head(name).len() + t.len() + 1,
        text_head(name).len() == field_head(name).len() + 1,
{
    reveal_strlit("\"");
    let head = text_head(name);
    assert(text_field(name, t) =~= head + t + "\""@);
    lemma_has_at_parts(text, pos, head + t, "\""@);
    lemma_has_at_parts(text, pos, head, t);
}

/// The closing quote of a text field is no digit.
pub proof fn lemma_quote_ends(text: Seq<char>, pos: int)
    requires
        has_at(text, pos, "\""@),
    ensures
        !digit_at(text, pos),
{
    reveal_strlit("\"");
    lemma_no_digit_at(text, pos, "\""@);
}

/// Reading a number field that was written gives the number back, where
/// what follows is no digit.
pub proof fn lemma_read_written_number_field(
    text: Seq<char>,
    pos: int,
    name: Seq<char>,
    v: nat,
    max: nat,
)
    requires
        has_at(text, pos, number_field(name, v)),
        !digit_at(text, pos + number_field(name, v).len()),
        v <= max,
    ensures
        number_field_at(text, pos, name, max) == Some((v, pos + number_field(name, v).len())),
{
    lemma_has_at_parts(text, pos, field_head(name), decimal(v));
    lemma_read_written_decimal(text, pos + field_head(name).len(), v, max);
}

/// What reading a number field accepts is the field of the number it gives.
pub proof fn lemma_number_field_read_is_written(
    text: Seq<char>,
    pos: int,
    name: Seq<char>,
    max: nat,
)
    requires
        number_field_at(text, pos, name, max) is Some,
    ensures
        has_at(text, pos, number_field(name, number_field_at(text, pos, name, max).unwrap().0)),
        number_field_at(text, pos, name, max).unwrap().1 == pos + number_field(
            name,
            number_field_at(text, pos, name, max).unwrap().0,
        ).len(),
        number_field_at(text, pos, name, max).unwrap().0 <= max,
{
    let v = number_field_at(text, pos, name, max).unwrap().0;
    lemma_decimal_read_is_written(text, pos + field_head(name).len(), max);
    lemma_has_at_parts(text, pos, field_head(name), decimal(v));
}

/// Reading a hash field that was written gives the hash back.
pub proof fn lemma_read_written_hash_field(
    text: Seq<char>,
    pos: int,
    name: Seq<char>,
    hash: Seq<u8>,
)
    requires
        hash.len() == 32,
        has_at(text, pos, text_field(name, hex(hash))),
    ensures
        hash_field_at(text, pos, name) == Some((hash, pos + text_field(name, hex(hash)).len())),
{
    reveal_strlit("\"");
    lemma_text_field_parts(text, pos, name, hex(hash));
    lemma_read_written_hex(text, pos + text_head(name).len(), hash);
}

/// What reading a hash field accepts is the field of the hash it gives.
pub proof fn lemma_hash_field_read_is_written(text: Seq<char>, pos: int, name: Seq<char>)
    requires
        hash_field_at(text, pos, name) is Some,
    ensures
        has_at(text, pos, text_field(name, hex(hash_field_at(text, pos, name).unwrap().0))),
        hash_field_at(text, pos, name).unwrap().1 == pos + text_field(
            name,
            hex(hash_field_at(text, pos, name).unwrap().0),
        ).len(),
        hash_field_at(text, pos, name).unwrap().0.len() == 32,
{
    reveal_strlit("\"");
    let hash = hash_field_at(text, pos, name).unwrap().0;
    lemma_hex_read_is_written(text, pos + text_head(name).len(), 32);
    lemma_text_field_parts(text, pos, name, hex(hash));
}

/// Reading a rune identifier field that was written gives the identifier
/// back.
pub proof fn lemma_read_written_rune_id_field(
    text: Seq<char>,
    pos: int,
    name: Seq<char>,
    id: RuneId,
)
    requires
        has_at(text, pos, text_field(name, rune_id_text(id))),
    ensures
        rune_id_field_at(text, pos, name) == Some(
            (id, pos + text_field(name, rune_id_text(id)).len()),
        ),
{
    reveal_strlit("\"");
    let t = rune_id_text(id);
    lemma_text_field_parts(text, pos, name, t);
    lemma_quote_ends(text, pos + text_head(name).len() + t.len());
    lemma_read_written_rune_id(text, pos + text_head(name).len(), id);
}

/// What reading a rune identifier field accepts is the field of the
/// identifier it gives.
pub proof fn lemma_rune_id_field_read_is_written(text: Seq<char>, pos: int, name: Seq<char>)
    requires
        rune_id_field_at(text, pos, name) is Some,
    ensures
        has_at(
            text,
            pos,
            text_field(name, rune_id_text(rune_id_field_at(text, pos, name).unwrap().0)),
        ),
        rune_id_field_at(text, pos, name).unwrap().1 == pos + text_field(
            name,
            rune_id_text(rune_id_field_at(text, pos, name).unwrap().0),
        ).len(),
{
    reveal_strlit("\"");
    let id = rune_id_field_at(text, pos, name).unwrap().0;
    lemma_rune_id_read_is_written(text, pos + text_head(name).len());
    lemma_text_field_parts(text, pos, name, rune_id_text(id));
}

/// Reading an inscription identifier field that was written gives the
/// identifier back.
pub proof fn lemma_read_written_inscription_id_field(
    text: Seq<char>,
    pos: int,
    name: Seq<char>,
    id: InscriptionIdView,
)
    requires
        id.txid.len() == 32,
        has_at(text, pos, text_field(name, inscription_id_text(id))),
    ensures
        inscription_id_field_at(text, pos, name) == Some(
            (id, pos + text_field(name, inscription_id_text(id)).len()),
        ),
{
    reveal_strlit("\"");
    let t = inscription_id_text(id);
    lemma_text_field_parts(text, pos, name, t);
    lemma_quote_ends(text, pos + text_head(name).len() + t.len());
    lemma_read_written_inscription_id(text, pos + text_head(name).len(), id);
}

/// What reading an inscription identifier field accepts is the field of the
/// identifier it gives.
pub proof fn lemma_inscription_id_field_read_is_written(
    text: Seq<char>,
    pos: int,
    name: Seq<char>,
)
    requires
        inscription_id_field_at(text, pos, name) is Some,
    ensures
        has_at(
            text,
            pos,
            text_field(
                name,
                inscription_id_text(inscription_id_field_at(text, pos, name).unwrap().0),
            ),
        ),
        inscription_id_field_at(text, pos, name).unwrap().1 == pos + text_field(
            name,
            inscription_id_text(inscription_id_field_at(text, pos, name).unwrap().0),
        ).len(),
        inscription_id_field_at(text, pos, name).unwrap().0.txid.len() == 32,
{
    reveal_strlit("\"");
    let id = inscription_id_field_at(text, pos, name).unwrap().0;
    lemma_inscription_id_read_is_written(text, pos + text_head(name).len());
    lemma_text_field_parts(text, pos, name, inscription_id_text(id));
}

/// Reading a position field that was written gives the position back.
pub proof fn lemma_read_written_satpoint_field(
    text: Seq<char>,
    pos: int,
    name: Seq<char>,
    s: SatPointView,
)
    requires
        s.outpoint.txid.len() == 32,
        has_at(text, pos, text_field(name, satpoint_text(s))),
    ensures
        satpoint_field_at(text, pos, name) == Some(
            (s, pos + text_field(name, satpoint_text(s)).len()),
        ),
{
    reveal_strlit("\"");
    let t = satpoint_text(s);
    lemma_text_field_parts(text, pos, name, t);
    lemma_quote_ends(text, pos + text_head(name).len() + t.len());
    lemma_read_written_satpoint(text, pos + text_head(name).len(), s);
}

/// What reading a position field accepts is the field of the position it
/// gives.
pub proof fn lemma_satpoint_field_read_is_written(text: Seq<char>, pos: int, name: Seq<char>)
    requires
        satpoint_field_at(text, pos, name) is Some,
    ensures
        has_at(
            text,
            pos,
            text_field(name, satpoint_text(satpoint_field_at(text, pos, name).unwrap().0)),
        ),
        satpoint_field_at(text, pos, name).unwrap().1 == pos + text_field(
            name,
            satpoint_text(satpoint_field_at(text, pos, name).unwrap().0),
        ).len(),
        satpoint_field_at(text, pos, name).unwrap().0.outpoint.txid.len() == 32,
{
    reveal_strlit("\"");
    let s = satpoint_field_at(text, pos, name).unwrap().0;
    lemma_satpoint_read_is_written(text, pos + text_head(name).len());
    lemma_text_field_parts(text, pos, name, satpoint_text(s));
}

/// Reading an output field that was written gives the output back.
pub proof fn lemma_read_written_outpoint_field(
    text: Seq<char>,
    pos: int,
    name: Seq<char>,
    o: OutPointView,
)
    requires
        o.txid.len() == 32,
        has_at(text, pos, text_field(name, outpoint_text(o))),
    ensures
        outpoint_field_at(text, pos, name) == Some(
            (o, pos + text_field(name, outpoint_text(o)).len()),
        ),
{
    reveal_strlit("\"");
    let t = outpoint_text(o);
    lemma_text_field_parts(text, pos, name, t);
    lemma_quote_ends(text, pos + text_head(name).len() + t.len());
    lemma_read_written_outpoint(text, pos + text_head(name).len(), o);
}

/// What reading an output field accepts is the field of the output it
/// gives.
pub proof fn lemma_outpoint_field_read_is_written(text: Seq<char>, pos: int, name: Seq<char>)
    requires
        outpoint_field_at(text, pos, name) is Some,
    ensures
        has_at(
            text,
            pos,
            text_field(name, outpoint_text(outpoint_field_at(text, pos, name).unwrap().0)),
        ),
        outpoint_field_at(text, pos, name).unwrap().1 == pos + text_field(
            name,
            outpoint_text(outpoint_field_at(text, pos, name).unwrap().0),
        ).len(),
        outpoint_field_at(text, pos, name).unwrap().0.txid.len() == 32,
{
    reveal_strlit("\"");
    let o = outpoint_field_at(text, pos, name).unwrap().0;
    lemma_outpoint_read_is_written(text, pos + text_head(name).len());
    lemma_text_field_parts(text, pos, name, outpoint_text(o));
}

} // verus!
