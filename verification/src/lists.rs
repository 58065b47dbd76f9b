//! Reading the two fields of a payload that are no plain text or number:
//! the location that may be absent, and the list of parents.

use vstd::prelude::*;
use crate::fields::lemma_quote_ends;
use crate::ids::{
    inscription_id_at, inscription_id_text, lemma_has_at_parts,
    lemma_inscription_id_read_is_written, lemma_read_written_inscription_id,
    lemma_read_written_satpoint, lemma_satpoint_read_is_written, satpoint_at, satpoint_text,
    InscriptionIdView, SatPointView,
};
use crate::payload::{field_head, location_field, parents_field, quoted, quoted_ids};
use crate::text::{has_at, literal_at};

verus! {

/// Whether every identifier of the list has a transaction hash of 32 bytes.
pub open spec fn ids_wf(ids: Seq<InscriptionIdView>) -> bool {
    forall|i: int| 0 <= i < ids.len() ==> (#[trigger] ids[i]).txid.len() == 32
}

/// Reading a position between double quotes.
pub open spec fn quoted_satpoint_at(text: Seq<char>, pos: int) -> Option<(SatPointView, int)> {
    match literal_at(text, pos, "\""@) {
        Some(p) => match satpoint_at(text, p) {
            Some((s, q)) => match literal_at(text, q, "\""@) {
                Some(end) => Some((s, end)),
                None => None,
            },
            None => None,
        },
        None => None,
    }
}

/// Reading the identifier of an inscription between double quotes.
pub open spec fn quoted_id_at(text: Seq<char>, pos: int) -> Option<(InscriptionIdView, int)> {
    match literal_at(text, pos, "\""@) {
        Some(p) => match inscription_id_at(text, p) {
            Some((id, q)) => match literal_at(text, q, "\""@) {
                Some(end) => Some((id, end)),
                None => None,
            },
            None => None,
        },
        None => None,
    }
}

/// Reading the field of a location: `null` for none, else a position
/// between double quotes.
pub open spec fn location_field_at(text: Seq<char>, pos: int) -> Option<
    (Option<SatPointView>, int),
> {
    match literal_at(text, pos, field_head("location"@)) {
        Some(p) => if has_at(text, p, "null"@) {
            Some((None, p + 4))
        } else {
            match quoted_satpoint_at(text, p) {
                Some((s, end)) => Some((Some(s), end)),
                None => None,
            }
        },
        None => None,
    }
}

/// Reading the rest of a list at `pos`, behind the items `found`: the
/// closing bracket, or a comma and one more item.
pub open spec fn more_ids_at(text: Seq<char>, pos: int, found: Seq<InscriptionIdView>) -> Option<
    (Seq<InscriptionIdView>, int),
>
    decreases text.len() - pos,
{
    if has_at(text, pos, "]"@) {
        Some((found, pos + 1))
    } else {
        match literal_at(text, pos, ","@) {
            Some(p) => match quoted_id_at(text, p) {
                Some((id, q)) => if pos < q <= text.len() {
                    more_ids_at(text, q, found.push(id))
                } else {
                    None
                },
                None => None,
            },
            None => None,
        }
    }
}

/// Reading the field of the parents.
pub open spec fn parents_field_at(text: Seq<char>, pos: int) -> Option<
    (Seq<InscriptionIdView>, int),
> {
    match literal_at(text, pos, field_head("parent_inscription_ids"@) + "["@) {
        Some(p) => if has_at(text, p, "]"@) {
            Some((Seq::empty(), p + 1))
        } else {
            match quoted_id_at(text, p) {
                Some((id, q)) => more_ids_at(text, q, seq![id]),
                None => None,
            }
        },
        None => None,
    }
}

/// A quoted text stands at `pos` exactly where a quote, the text and a
/// quote stand one behind the other.
pub proof fn lemma_quoted_parts(text: Seq<char>, pos: int, t: Seq<char>)
    ensures
        has_at(text, pos, quoted(t)) <==> {
            &&& has_at(text, pos, "\""@)
            &&& has_at(text, pos + 1, t)
            &&& has_at(text, pos + 1 + t.len(), "\""@)
        },
        quoted(t).len() == t.len() + 2,
        quoted(t)[0] == '"',
{
    reveal_strlit("\"");
    lemma_has_at_parts(text, pos, "\""@ + t, "\""@);
    lemma_has_at_parts(text, pos, "\""@, t);
}

/// Reading a quoted position that was written gives it back.
pub proof fn lemma_read_written_quoted_satpoint(text: Seq<char>, pos: int, s: SatPointView)
    requires
        s.outpoint.txid.len() == 32,
        has_at(text, pos, quoted(satpoint_text(s))),
    ensures
        quoted_satpoint_at(text, pos) == Some((s, pos + quoted(satpoint_text(s)).len())),
{
    reveal_strlit("\"");
    let t = satpoint_text(s);
    lemma_quoted_parts(text, pos, t);
    lemma_quote_ends(text, pos + 1 + t.len());
    lemma_read_written_satpoint(text, pos + 1, s);
}

/// What reading a quoted position accepts is the quoted text of the
/// position it gives.
pub proof fn lemma_quoted_satpoint_read_is_written(text: Seq<char>, pos: int)
    requires
        quoted_satpoint_at(text, pos) is Some,
    ensures
        has_at(text, pos, quoted(satpoint_text(quoted_satpoint_at(text, pos).unwrap().0))),
        quoted_satpoint_at(text, pos).unwrap().1 == pos + quoted(
            satpoint_text(quoted_satpoint_at(text, pos).unwrap().0),
        ).len(),
        quoted_satpoint_at(text, pos).unwrap().0.outpoint.txid.len() == 32,
{
    reveal_strlit("\"");
    let s = quoted_satpoint_at(text, pos).unwrap().0;
    lemma_satpoint_read_is_written(text, pos + 1);
    lemma_quoted_parts(text, pos, satpoint_text(s));
}

/// Reading a quoted identifier that was written gives it back.
pub proof fn lemma_read_written_quoted_id(text: Seq<char>, pos: int, id: InscriptionIdView)
    requires
        id.txid.len() == 32,
        has_at(text, pos, quoted(inscription_id_text(id))),
    ensures
        quoted_id_at(text, pos) == Some((id, pos + quoted(inscription_id_text(id)).len())),
{
    reveal_strlit("\"");
    let t = inscription_id_text(id);
    lemma_quoted_parts(text, pos, t);
    lemma_quote_ends(text, pos + 1 + t.len());
    lemma_read_written_inscription_id(text, pos + 1, id);
}

/// What reading a quoted identifier accepts is the quoted text of the
/// identifier it gives.
pub proof fn lemma_quoted_id_read_is_written(text: Seq<char>, pos: int)
    requires
        quoted_id_at(text, pos) is Some,
    ensures
        has_at(text, pos, quoted(inscription_id_text(quoted_id_at(text, pos).unwrap().0))),
        quoted_id_at(text, pos).unwrap().1 == pos + quoted(
            inscription_id_text(quoted_id_at(text, pos).unwrap().0),
        ).len(),
        quoted_id_at(text, pos).unwrap().0.txid.len() == 32,
{
    reveal_strlit("\"");
    let id = quoted_id_at(text, pos).unwrap().0;
    lemma_inscription_id_read_is_written(text, pos + 1);
    lemma_quoted_parts(text, pos, inscription_id_text(id));
}

/// Reading a location field that was written gives the location back.
pub proof fn lemma_read_written_location(text: Seq<char>, pos: int, location: Option<SatPointView>)
    requires
        location matches Some(l) ==> l.outpoint.txid.len() == 32,
        has_at(text, pos, location_field(location)),
    ensures
        location_field_at(text, pos) == Some((location, pos + location_field(location).len())),
{
    reveal_strlit("null");
    let head = field_head("location"@);
    match location {
        Some(l) => {
            let t = quoted(satpoint_text(l));
            lemma_has_at_parts(text, pos, head, t);
            lemma_quoted_parts(text, pos + head.len(), satpoint_text(l));
            lemma_read_written_quoted_satpoint(text, pos + head.len(), l);
            if has_at(text, pos + head.len(), "null"@) {
                assert(text.subrange(pos + head.len(), pos + head.len() + 4)[0] == 'n');
                assert(text.subrange(pos + head.len(), pos + head.len() + t.len())[0] == '"');
            }
        },
        None => {
            lemma_has_at_parts(text, pos, head, "null"@);
        },
    }
}

/// What reading a location field accepts is the field of the location it
/// gives.
pub proof fn lemma_location_read_is_written(text: Seq<char>, pos: int)
    requires
        location_field_at(text, pos) is Some,
    ensures
        has_at(text, pos, location_field(location_field_at(text, pos).unwrap().0)),
        location_field_at(text, pos).unwrap().1 == pos + location_field(
            location_field_at(text, pos).unwrap().0,
        ).len(),
        location_field_at(text, pos).unwrap().0 matches Some(l) ==> l.outpoint.txid.len() == 32,
{
    reveal_strlit("null");
    let head = field_head("location"@);
    let p = pos + head.len();
    match location_field_at(text, pos).unwrap().0 {
        Some(l) => {
            lemma_quoted_satpoint_read_is_written(text, p);
            lemma_has_at_parts(text, pos, head, quoted(satpoint_text(l)));
        },
        None => {
            lemma_has_at_parts(text, pos, head, "null"@);
        },
    }
}

/// Where a list stands at `base`, so does each of its beginnings, and each
/// further item stands behind a comma.
pub proof fn lemma_ids_layout(text: Seq<char>, base: int, ids: Seq<InscriptionIdView>, j: int)
    requires
        has_at(text, base, quoted_ids(ids)),
        1 <= j <= ids.len(),
    ensures
        has_at(text, base, quoted_ids(ids.subrange(0, j))),
        j < ids.len() ==> {
            let behind = base + quoted_ids(ids.subrange(0, j)).len();
            &&& has_at(text, behind, ","@)
            &&& has_at(text, behind + 1, quoted(inscription_id_text(ids[j])))
            &&& quoted_ids(ids.subrange(0, j + 1)).len() == quoted_ids(ids.subrange(0, j)).len()
                + 1 + quoted(inscription_id_text(ids[j])).len()
        },
    decreases ids.len() - j,
{
    reveal_strlit(",");
    if j == ids.len() {
        assert(ids.subrange(0, j) =~= ids);
    } else {
        lemma_ids_layout(text, base, ids, j + 1);
        let longer = ids.subrange(0, j + 1);
        let shorter = ids.subrange(0, j);
        assert(longer.drop_last() =~= shorter);
        assert(longer.last() == ids[j]);
        let item = quoted(inscription_id_text(ids[j]));
        assert(quoted_ids(longer) == quoted_ids(shorter) + ","@ + item);
        lemma_has_at_parts(text, base, quoted_ids(shorter) + ","@, item);
        lemma_has_at_parts(text, base, quoted_ids(shorter), ","@);
    }
}

/// Reading the rest of a written list behind its first `j` items gives the
/// whole list.
pub proof fn lemma_read_written_more_ids(
    text: Seq<char>,
    base: int,
    ids: Seq<InscriptionIdView>,
    j: int,
)
    requires
        ids_wf(ids),
        has_at(text, base, quoted_ids(ids)),
        has_at(text, base + quoted_ids(ids).len(), "]"@),
        1 <= j <= ids.len(),
    ensures
        more_ids_at(text, base + quoted_ids(ids.subrange(0, j)).len(), ids.subrange(0, j)) == Some(
            (ids, base + quoted_ids(ids).len() + 1),
        ),
    decreases ids.len() - j,
{
    reveal_strlit(",");
    reveal_strlit("]");
    let found = ids.subrange(0, j);
    let pos = base + quoted_ids(found).len();
    if j == ids.len() {
        assert(found =~= ids);
    } else {
        lemma_ids_layout(text, base, ids, j);
        let item = quoted(inscription_id_text(ids[j]));
        if has_at(text, pos, "]"@) {
            assert(text.subrange(pos, pos + 1)[0] == ']');
            assert(text.subrange(pos, pos + 1)[0] == ',');
        }
        lemma_read_written_quoted_id(text, pos + 1, ids[j]);
        lemma_quoted_parts(text, pos + 1, inscription_id_text(ids[j]));
        assert(found.push(ids[j]) =~= ids.subrange(0, j + 1));
        lemma_read_written_more_ids(text, base, ids, j + 1);
    }
}

/// What reading the rest of a list accepts, behind items that stand at
/// `base`, is a written list that starts with those items.
pub proof fn lemma_more_ids_read_is_written(
    text: Seq<char>,
    base: int,
    pos: int,
    found: Seq<InscriptionIdView>,
)
    requires
        found.len() >= 1,
        ids_wf(found),
        has_at(text, base, quoted_ids(found)),
        pos == base + quoted_ids(found).len(),
        more_ids_at(text, pos, found) is Some,
    ensures
        ids_wf(more_ids_at(text, pos, found).unwrap().0),
        has_at(text, base, quoted_ids(more_ids_at(text, pos, found).unwrap().0)),
        has_at(
            text,
            base + quoted_ids(more_ids_at(text, pos, found).unwrap().0).len(),
            "]"@,
        ),
        more_ids_at(text, pos, found).unwrap().1 == base + quoted_ids(
            more_ids_at(text, pos, found).unwrap().0,
        ).len() + 1,
    decreases text.len() - pos,
{
    reveal_strlit(",");
    reveal_strlit("]");
    if has_at(text, pos, "]"@) {
    } else {
        let p = pos + 1;
        let id = quoted_id_at(text, p).unwrap().0;
        let q = quoted_id_at(text, p).unwrap().1;
        lemma_quoted_id_read_is_written(text, p);
        let longer = found.push(id);
        let item = quoted(inscription_id_text(id));
        assert(longer.drop_last() =~= found);
        assert(longer.last() == id);
        assert(quoted_ids(longer) == quoted_ids(found) + ","@ + item);
        lemma_has_at_parts(text, base, quoted_ids(found), ","@);
        lemma_has_at_parts(text, base, quoted_ids(found) + ","@, item);
        lemma_more_ids_read_is_written(text, base, q, longer);
    }
}

/// Reading a parents field that was written gives the list back.
pub proof fn lemma_read_written_parents(text: Seq<char>, pos: int, ids: Seq<InscriptionIdView>)
    requires
        ids_wf(ids),
        has_at(text, pos, parents_field(ids)),
    ensures
        parents_field_at(text, pos) == Some((ids, pos + parents_field(ids).len())),
{
    reveal_strlit("[");
    reveal_strlit("]");
    let head = field_head("parent_inscription_ids"@) + "["@;
    let base = pos + head.len();
    lemma_has_at_parts(text, pos, head + quoted_ids(ids), "]"@);
    lemma_has_at_parts(text, pos, head, quoted_ids(ids));
    if ids.len() == 0 {
        assert(ids =~= Seq::<InscriptionIdView>::empty());
    } else {
        lemma_ids_layout(text, base, ids, 1);
        let first = ids.subrange(0, 1);
        assert(first[0] == ids[0]);
        assert(first =~= seq![ids[0]]);
        let item = quoted(inscription_id_text(ids[0]));
        assert(quoted_ids(first) == item);
        lemma_quoted_parts(text, base, inscription_id_text(ids[0]));
        if has_at(text, base, "]"@) {
            assert(text.subrange(base, base + 1)[0] == ']');
            assert(text.subrange(base, base + 1)[0] == '"');
        }
        lemma_read_written_quoted_id(text, base, ids[0]);
        lemma_read_written_more_ids(text, base, ids, 1);
    }
}

/// What reading a parents field accepts is the field of the list it gives.
pub proof fn lemma_parents_read_is_written(text: Seq<char>, pos: int)
    requires
        parents_field_at(text, pos) is Some,
    ensures
        ids_wf(parents_field_at(text, pos).unwrap().0),
        has_at(text, pos, parents_field(parents_field_at(text, pos).unwrap().0)),
        parents_field_at(text, pos).unwrap().1 == pos + parents_field(
            parents_field_at(text, pos).unwrap().0,
        ).len(),
{
    reveal_strlit("[");
    reveal_strlit("]");
    let head = field_head("parent_inscription_ids"@) + "["@;
    let base = pos + head.len();
    let ids = parents_field_at(text, pos).unwrap().0;
    if has_at(text, base, "]"@) {
        assert(quoted_ids(ids) =~= Seq::<char>::empty());
        assert(has_at(text, base, quoted_ids(ids))) by {
            assert(text.subrange(base, base) =~= Seq::<char>::empty());
        }
    } else {
        let id = quoted_id_at(text, base).unwrap().0;
        let q = quoted_id_at(text, base).unwrap().1;
        lemma_quoted_id_read_is_written(text, base);
        let first = seq![id];
        assert(quoted_ids(first) == quoted(inscription_id_text(id)));
        lemma_more_ids_read_is_written(text, base, q, first);
    }
    lemma_has_at_parts(text, pos, head, quoted_ids(ids));
    lemma_has_at_parts(text, pos, head + quoted_ids(ids), "]"@);
}

} // verus!
