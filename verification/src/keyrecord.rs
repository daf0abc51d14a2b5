//! Per-layer key records and the published key line.
//!
//! Each built layer yields one record: whether the image is
//! confidentiality-protected, and its raw key material.  The records of
//! one mount are published as a single line, one token per record in
//! build order, joined by `:`; a token is `enc-<HEX>` or `int-<HEX>`
//! with the key rendered in upper-case hexadecimal.  This text format is
//! a durable contract consumed by the downstream runtime, so the line is
//! pinned exactly, a verified parser inverts it, and the rendering is
//! proved injective: the published line determines the records.

use vstd::prelude::*;
use crate::hexcodec::{
    hex_upper_of, hex_encode_upper, hex_decode_upper, lemma_hex_upper_len,
    lemma_hex_upper_injective,
};

verus! {

/// The key-mode descriptor of one built layer.
#[derive(Debug, Clone, PartialEq, Eq)]
pub struct LayerKeyRecord {
    /// Whether the layer image is confidentiality-protected
    /// (`true`: encrypted; `false`: integrity-only).
    pub is_encrypted: bool,
    /// The layer's raw key material, generated independently per layer.
    pub key: Vec<u8>,
}

impl View for LayerKeyRecord {
    type V = (bool, Seq<u8>);

    open spec fn view(&self) -> (bool, Seq<u8>) {
        (self.is_encrypted, self.key@)
    }
}

impl DeepView for LayerKeyRecord {
    type V = (bool, Seq<u8>);

    open spec fn deep_view(&self) -> (bool, Seq<u8>) {
        self.view()
    }
}

/// The three-letter mode tag of a record.
pub open spec fn mode_tag(enc: bool) -> Seq<char> {
    if enc {
        seq!['e', 'n', 'c']
    } else {
        seq!['i', 'n', 't']
    }
}

/// The token one record renders as: `<mode>-<HEX>`.
pub open spec fn record_token(r: (bool, Seq<u8>)) -> Seq<char> {
    mode_tag(r.0) + seq!['-'] + hex_upper_of(r.1)
}

/// The published line: the records' tokens in order, joined by `:`.
pub open spec fn records_line(rs: Seq<(bool, Seq<u8>)>) -> Seq<char>
    decreases rs.len(),
{
    if rs.len() == 0 {
        Seq::empty()
    } else if rs.len() == 1 {
        record_token(rs[0])
    } else {
        records_line(rs.drop_last()) + seq![':'] + record_token(rs.last())
    }
}

/// Renders the records of one mount as the line published to the
/// key-custody mount, exactly as [`records_line`] states.
pub fn serialize_records(records: &Vec<LayerKeyRecord>) -> (r: String)
    ensures
        r@ == records_line(records.deep_view()),
{
    let mut s = String::new();
    let mut i: usize = 0;
    while i < records.len()
        invariant
            i <= records@.len(),
            s@ == records_line(records.deep_view().take(i as int)),
        decreases records@.len() - i,
    {
        if i > 0 {
            s.append(":");
        }
        if records[i].is_encrypted {
            s.append("enc-");
        } else {
            s.append("int-");
        }
        let hex = hex_encode_upper(&records[i].key);
        s.append(hex.as_str());
        proof {
            reveal_strlit(":");
            reveal_strlit("enc-");
            reveal_strlit("int-");
            let rows = records.deep_view();
            assert(rows.take(i as int + 1).drop_last() =~= rows.take(i as int));
            assert(rows.take(i as int + 1).last() == rows[i as int]);
            assert(rows[i as int] == records[i as int]@);
            if i == 0 {
                assert(s@ =~= record_token(rows[0]));
            } else {
                assert(s@ =~= records_line(rows.take(i as int)) + seq![':'] + record_token(
                    rows[i as int],
                ));
            }
        }
        i = i + 1;
    }
    proof {
        assert(records.deep_view().take(records@.len() as int) =~= records.deep_view());
    }
    s
}

/// No character of a rendered token is the `:` separator.
pub open spec fn colon_free(s: Seq<char>) -> bool {
    forall|i: int| 0 <= i < s.len() ==> s[i] != ':'
}

/// How many `:` separators a sequence holds.
pub open spec fn colon_count(s: Seq<char>) -> nat
    decreases s.len(),
{
    if s.len() == 0 {
        0
    } else {
        colon_count(s.drop_last()) + if s.last() == ':' {
            1nat
        } else {
            0nat
        }
    }
}

/// Separator counting distributes over concatenation.
pub proof fn lemma_colon_count_concat(a: Seq<char>, b: Seq<char>)
    ensures
        colon_count(a + b) == colon_count(a) + colon_count(b),
    decreases b.len(),
{
    if b.len() == 0 {
        assert(a + b =~= a);
    } else {
        assert((a + b).drop_last() =~= a + b.drop_last());
        lemma_colon_count_concat(a, b.drop_last());
    }
}

/// A colon-free sequence counts zero separators.
pub proof fn lemma_colon_free_count(s: Seq<char>)
    requires
        colon_free(s),
    ensures
        colon_count(s) == 0,
    decreases s.len(),
{
    if s.len() > 0 {
        assert(colon_free(s.drop_last()));
        lemma_colon_free_count(s.drop_last());
    }
}

/// The hexadecimal rendering never holds a `:`.
pub proof fn lemma_hex_colon_free(b: Seq<u8>)
    ensures
        colon_free(hex_upper_of(b)),
    decreases b.len(),
{
    if b.len() > 0 {
        lemma_hex_colon_free(b.drop_first());
        assert forall|i: int| 0 <= i < hex_upper_of(b).len() implies hex_upper_of(b)[i]
            != ':' by {
            if i >= 2 {
                assert(hex_upper_of(b)[i] == hex_upper_of(b.drop_first())[i - 2]);
            }
        }
    }
}

/// A token is colon-free and at least four characters long.
pub proof fn lemma_token_shape(r: (bool, Seq<u8>))
    ensures
        colon_free(record_token(r)),
        record_token(r).len() == 4 + 2 * r.1.len(),
{
    lemma_hex_colon_free(r.1);
    lemma_hex_upper_len(r.1);
    let t = record_token(r);
    assert forall|i: int| 0 <= i < t.len() implies t[i] != ':' by {
        if i >= 4 {
            assert(t[i] == hex_upper_of(r.1)[i - 4]);
        }
    }
}

/// The published line of `n` records holds exactly `n - 1` separators,
/// so it reads back as exactly `n` colon-separated entries.
pub proof fn lemma_records_line_entry_count(rs: Seq<(bool, Seq<u8>)>)
    requires
        rs.len() > 0,
    ensures
        colon_count(records_line(rs)) == rs.len() - 1,
    decreases rs.len(),
{
    lemma_token_shape(rs.last());
    lemma_colon_free_count(record_token(rs.last()));
    if rs.len() == 1 {
    } else {
        lemma_records_line_entry_count(rs.drop_last());
        lemma_colon_count_concat(records_line(rs.drop_last()), seq![':']);
        lemma_colon_count_concat(records_line(rs.drop_last()) + seq![':'], record_token(rs.last()));
        let sep = seq![':'];
        assert(sep.drop_last() =~= Seq::<char>::empty());
        assert(sep.last() == ':');
        assert(colon_count(Seq::<char>::empty()) == 0);
        assert(colon_count(sep) == 1);
    }
}

/// Equal tokens come from equal records.
pub proof fn lemma_token_injective(r1: (bool, Seq<u8>), r2: (bool, Seq<u8>))
    requires
        record_token(r1) == record_token(r2),
    ensures
        r1 == r2,
{
    let t1 = record_token(r1);
    let t2 = record_token(r2);
    assert(t1[0] == mode_tag(r1.0)[0]);
    assert(t2[0] == mode_tag(r2.0)[0]);
    assert(r1.0 == r2.0);
    lemma_hex_upper_len(r1.1);
    lemma_hex_upper_len(r2.1);
    assert(hex_upper_of(r1.1) =~= t1.skip(4));
    assert(hex_upper_of(r2.1) =~= t2.skip(4));
    lemma_hex_upper_injective(r1.1, r2.1);
}

/// The published line is injective: it determines the records that were
/// rendered into it, so parsing it back recovers each layer's mode and
/// key bytes in build order.
pub proof fn lemma_records_line_injective(rs1: Seq<(bool, Seq<u8>)>, rs2: Seq<(bool, Seq<u8>)>)
    requires
        records_line(rs1) == records_line(rs2),
    ensures
        rs1 == rs2,
    decreases rs1.len(),
{
    let l1 = records_line(rs1);
    let l2 = records_line(rs2);
    if rs1.len() == 0 || rs2.len() == 0 {
        if rs1.len() != rs2.len() {
            let some = if rs1.len() > 0 {
                rs1
            } else {
                rs2
            };
            lemma_token_shape(some[0]);
            if some.len() == 1 {
                assert(records_line(some).len() >= 4);
            } else {
                assert(records_line(some) == records_line(some.drop_last()) + seq![':']
                    + record_token(some.last()));
                lemma_token_shape(some.last());
                assert(records_line(some).len() >= 1);
            }
            assert(false);
        } else {
            assert(rs1 =~= rs2);
        }
    } else if rs1.len() == 1 && rs2.len() == 1 {
        lemma_token_injective(rs1[0], rs2[0]);
        assert(rs1 =~= rs2);
    } else if rs1.len() == 1 {
        // l2 holds a separator where l1 is a colon-free token
        lemma_token_shape(rs1[0]);
        lemma_token_shape(rs2.last());
        let a2 = records_line(rs2.drop_last());
        assert(l2[a2.len() as int] == ':');
        assert(l1[a2.len() as int] != ':');
        assert(false);
    } else if rs2.len() == 1 {
        lemma_token_shape(rs2[0]);
        lemma_token_shape(rs1.last());
        let a1 = records_line(rs1.drop_last());
        assert(l1[a1.len() as int] == ':');
        assert(l2[a1.len() as int] != ':');
        assert(false);
    } else {
        // both end in a colon-free token after their last separator;
        // the separators must line up, so prefixes and tokens agree
        let a1 = records_line(rs1.drop_last());
        let t1 = record_token(rs1.last());
        let a2 = records_line(rs2.drop_last());
        let t2 = record_token(rs2.last());
        lemma_token_shape(rs1.last());
        lemma_token_shape(rs2.last());
        assert(l1 == a1 + seq![':'] + t1);
        assert(l2 == a2 + seq![':'] + t2);
        if a1.len() < a2.len() {
            assert(l2[a2.len() as int] == ':');
            assert(l1[a2.len() as int] == t1[a2.len() - a1.len() - 1]);
            assert(false);
        } else if a2.len() < a1.len() {
            assert(l1[a1.len() as int] == ':');
            assert(l2[a1.len() as int] == t2[a1.len() - a2.len() - 1]);
            assert(false);
        }
        assert(a1 =~= l1.take(a1.len() as int));
        assert(a2 =~= l2.take(a2.len() as int));
        assert(t1 =~= l1.skip(a1.len() as int + 1));
        assert(t2 =~= l2.skip(a2.len() as int + 1));
        lemma_token_injective(rs1.last(), rs2.last());
        lemma_records_line_injective(rs1.drop_last(), rs2.drop_last());
        assert(rs1.len() == rs2.len());
        assert forall|i: int| 0 <= i < rs1.len() implies rs1[i] == rs2[i] by {
            if i < rs1.len() - 1 {
                assert(rs1[i] == rs1.drop_last()[i]);
                assert(rs2[i] == rs2.drop_last()[i]);
            } else {
                assert(rs1[i] == rs1.last());
                assert(rs2[i] == rs2.last());
            }
        }
        assert(rs1 =~= rs2);
    }
}

/// Key material is rendered injectively: two layers whose key bytes
/// differ always show different `<HEX>` fields in the published line.
pub proof fn lemma_distinct_keys_distinct_hex(k1: Seq<u8>, k2: Seq<u8>)
    requires
        k1 != k2,
    ensures
        hex_upper_of(k1) != hex_upper_of(k2),
{
    if hex_upper_of(k1) == hex_upper_of(k2) {
        lemma_hex_upper_injective(k1, k2);
    }
}

/// Parses a published key line back into records.
///
/// Whatever it accepts renders back to exactly the input, so by
/// [`lemma_records_line_injective`] it recovers the very records the
/// line was rendered from.
pub fn parse_key_line(s: &str) -> (r: Option<Vec<LayerKeyRecord>>)
    ensures
        r matches Some(v) ==> records_line(v.deep_view()) == s@,
{
    let len = s.unicode_len();
    let mut out: Vec<LayerKeyRecord> = Vec::new();
    if len == 0 {
        proof {
            assert(out.deep_view() =~= Seq::<(bool, Seq<u8>)>::empty());
            assert(records_line(out.deep_view()) =~= s@);
        }
        return Some(out);
    }
    let mut pos: usize = 0;
    loop
        invariant
            len == s@.len(),
            pos <= len,
            (out@.len() == 0 && pos == 0) || (out@.len() >= 1 && 1 <= pos <= len
                && records_line(out.deep_view()) == s@.take(pos as int - 1) && s@[pos as int
                - 1] == ':'),
        decreases len - pos,
    {
        // the token runs to the next separator or the end
        let mut j = pos;
        while j < len && s.get_char(j) != ':'
            invariant
                pos <= j <= len,
                len == s@.len(),
            decreases len - j,
        {
            j = j + 1;
        }
        if j - pos < 4 {
            return None;
        }
        let c0 = s.get_char(pos);
        let c1 = s.get_char(pos + 1);
        let c2 = s.get_char(pos + 2);
        if s.get_char(pos + 3) != '-' {
            return None;
        }
        let enc = if c0 == 'e' && c1 == 'n' && c2 == 'c' {
            true
        } else if c0 == 'i' && c1 == 'n' && c2 == 't' {
            false
        } else {
            return None;
        };
        let hexpart = s.substring_char(pos + 4, j);
        let key = match hex_decode_upper(hexpart) {
            Some(k) => k,
            None => {
                return None;
            },
        };
        let rec = LayerKeyRecord { is_encrypted: enc, key };
        proof {
            assert(record_token(rec@) =~= s@.subrange(pos as int, j as int));
        }
        let ghost old_rows = out.deep_view();
        out.push(rec);
        proof {
            assert(out.deep_view() =~= old_rows.push(rec@));
            assert(out.deep_view().drop_last() =~= old_rows);
            assert(out.deep_view().last() == rec@);
            if old_rows.len() == 0 {
                assert(records_line(out.deep_view()) == record_token(rec@));
                assert(records_line(out.deep_view()) =~= s@.take(j as int));
            } else {
                assert(records_line(out.deep_view()) == records_line(old_rows) + seq![':']
                    + record_token(rec@));
                assert(seq![':'] =~= seq![s@[pos as int - 1]]);
                assert(records_line(out.deep_view()) =~= s@.take(pos as int - 1) + seq![
                    s@[pos as int - 1],
                ] + s@.subrange(pos as int, j as int));
                assert(s@.take(pos as int - 1) + seq![s@[pos as int - 1]] + s@.subrange(
                    pos as int,
                    j as int,
                ) =~= s@.take(j as int));
            }
        }
        if j == len {
            proof {
                assert(s@.take(len as int) =~= s@);
            }
            return Some(out);
        }
        pos = j + 1;
    }
}

} // verus!
