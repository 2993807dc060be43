//! Decoding Flight data frames into typed columnar artifacts.
//!
//! A frame is interpreted through its data header, whose type tag selects
//! a schema announcement, a record batch, or a kind this client
//! deliberately does not handle.  The header itself is a flatbuffer and
//! is read through the arrow library; everything after that — walking the
//! node and buffer tables, validity bitmaps, and the column layouts — is
//! decoded here, against an externally supplied schema.

use crate::errors::{FlightError, UnsupportedFeature};
use crate::flight::{FlightData, FlightInfo};
use crate::wire::bytes_of_range;
use vstd::prelude::*;

verus! {

// ---------------------------------------------------------------------------
// schemas and batches, as this client holds them
// ---------------------------------------------------------------------------

/// The column types this client decodes.  Anything else is carried as
/// `Unsupported` and rejected, with an unsupported-feature error, when a
/// batch is decoded against it.
#[derive(Debug, Clone, Copy, PartialEq, Eq, Structural)]
pub enum ColumnType {
    Int64,
    Utf8,
    Unsupported,
}

/// One column of a schema: its name and its type.
#[derive(Debug, Clone, PartialEq, Eq)]
pub struct ColumnDesc {
    pub name: String,
    pub column_type: ColumnType,
}

/// A typed column-name/column-type list.
#[derive(Debug, Clone, PartialEq, Eq)]
pub struct SchemaDesc {
    pub fields: Vec<ColumnDesc>,
}

/// One decoded column: its values in row order, `None` marking a null.
/// Text values are carried as their UTF-8 bytes.
#[derive(Debug, Clone, PartialEq, Eq)]
pub enum Column {
    Int64(Vec<Option<i64>>),
    Utf8(Vec<Option<Vec<u8>>>),
}

/// A decoded record batch: an ordered list of typed columns, each as long
/// as the batch's row count.
#[derive(Debug, Clone, PartialEq, Eq)]
pub struct RecordBatchData {
    pub n_rows: usize,
    pub columns: Vec<Column>,
}

/// The mathematical shadow of [`Column`].
#[verifier::ext_equal]
pub enum SpecColumn {
    Int64(Seq<Option<i64>>),
    Utf8(Seq<Option<Seq<u8>>>),
}

/// The mathematical shadow of [`RecordBatchData`].
#[verifier::ext_equal]
pub struct SpecBatch {
    pub n_rows: int,
    pub columns: Seq<SpecColumn>,
}

impl View for Column {
    type V = SpecColumn;

    open spec fn view(&self) -> SpecColumn {
        match self {
            Column::Int64(v) => SpecColumn::Int64(v@),
            Column::Utf8(v) => SpecColumn::Utf8(
                v@.map_values(
                    |o: Option<Vec<u8>>|
                        match o {
                            Option::None => Option::<Seq<u8>>::None,
                            Option::Some(b) => Option::Some(b@),
                        },
                ),
            ),
        }
    }
}

impl View for RecordBatchData {
    type V = SpecBatch;

    open spec fn view(&self) -> SpecBatch {
        SpecBatch {
            n_rows: self.n_rows as int,
            columns: self.columns@.map_values(|c: Column| c@),
        }
    }
}

/// The type list of a schema.
pub open spec fn types_of(sd: SchemaDesc) -> Seq<ColumnType> {
    sd.fields@.map_values(|f: ColumnDesc| f.column_type)
}

/// Whether every column of a schema is of a supported type.
pub open spec fn all_supported(sd: SchemaDesc) -> bool {
    forall|i: int|
        0 <= i < sd.fields@.len() ==> !((#[trigger] sd.fields@[i]).column_type
            is Unsupported)
}

// ---------------------------------------------------------------------------
// little-endian reads and validity bits
// ---------------------------------------------------------------------------

/// The 64-bit little-endian value at `off`.
pub open spec fn spec_u64_at(s: Seq<u8>, off: int) -> u64 {
    (s[off] + s[off + 1] * 0x100 + s[off + 2] * 0x1_0000 + s[off + 3] * 0x100_0000 + s[off + 4]
        * 0x1_0000_0000 + s[off + 5] * 0x100_0000_0000 + s[off + 6] * 0x1_0000_0000_0000 + s[off
        + 7] * 0x100_0000_0000_0000) as u64
}

/// The 64-bit little-endian two's-complement value at `off`.
pub open spec fn spec_i64_at(s: Seq<u8>, off: int) -> i64 {
    spec_u64_at(s, off) as i64
}

/// The 32-bit little-endian value at `off`.
pub open spec fn spec_u32_at(s: Seq<u8>, off: int) -> u32 {
    (s[off] + s[off + 1] * 0x100 + s[off + 2] * 0x1_0000 + s[off + 3] * 0x100_0000) as u32
}

/// The 32-bit little-endian two's-complement value at `off`.
pub open spec fn spec_i32_at(s: Seq<u8>, off: int) -> i32 {
    spec_u32_at(s, off) as i32
}

/// Bit `k` of one byte, counting from the least significant.
pub open spec fn spec_bit(b: u8, k: int) -> bool {
    if k == 0 {
        b % 2 == 1
    } else if k == 1 {
        (b / 2) % 2 == 1
    } else if k == 2 {
        (b / 4) % 2 == 1
    } else if k == 3 {
        (b / 8) % 2 == 1
    } else if k == 4 {
        (b / 16) % 2 == 1
    } else if k == 5 {
        (b / 32) % 2 == 1
    } else if k == 6 {
        (b / 64) % 2 == 1
    } else {
        (b / 128) % 2 == 1
    }
}

/// Bit `j` of the bitmap starting at `base`: arrow's validity layout.
pub open spec fn spec_bit_at(s: Seq<u8>, base: int, j: int) -> bool {
    spec_bit(s[base + j / 8], j % 8)
}

/// Reads the 64-bit little-endian value at `off`.
fn read_u64_le(s: &[u8], off: usize) -> (r: u64)
    requires
        off + 8 <= s.len(),
    ensures
        r == spec_u64_at(s@, off as int),
{
    (s[off] as u64) + (s[off + 1] as u64) * 0x100 + (s[off + 2] as u64) * 0x1_0000 + (s[off
        + 3] as u64) * 0x100_0000 + (s[off + 4] as u64) * 0x1_0000_0000 + (s[off + 5] as u64)
        * 0x100_0000_0000 + (s[off + 6] as u64) * 0x1_0000_0000_0000 + (s[off + 7] as u64)
        * 0x100_0000_0000_0000
}

/// Reads the 32-bit little-endian value at `off`.
fn read_u32_le(s: &[u8], off: usize) -> (r: u32)
    requires
        off + 4 <= s.len(),
    ensures
        r == spec_u32_at(s@, off as int),
{
    (s[off] as u32) + (s[off + 1] as u32) * 0x100 + (s[off + 2] as u32) * 0x1_0000 + (s[off
        + 3] as u32) * 0x100_0000
}

/// Reads bit `j` of the bitmap starting at `base`.
fn read_bit(s: &[u8], base: usize, j: usize) -> (r: bool)
    requires
        base + j / 8 < s.len(),
    ensures
        r == spec_bit_at(s@, base as int, j as int),
{
    let b = s[base + j / 8];
    let k = j % 8;
    if k == 0 {
        b % 2 == 1
    } else if k == 1 {
        (b / 2) % 2 == 1
    } else if k == 2 {
        (b / 4) % 2 == 1
    } else if k == 3 {
        (b / 8) % 2 == 1
    } else if k == 4 {
        (b / 16) % 2 == 1
    } else if k == 5 {
        (b / 32) % 2 == 1
    } else if k == 6 {
        (b / 64) % 2 == 1
    } else {
        (b / 128) % 2 == 1
    }
}

/// Converts a buffer-table offset or length to an index, refusing
/// negatives and values beyond the address space.
fn i64_to_usize(v: i64) -> (r: Option<usize>)
    ensures
        match r {
            Some(u) => 0 <= v <= usize::MAX && u == v,
            None => !(0 <= v <= usize::MAX),
        },
{
    if v < 0 {
        return None;
    }
    if (v as u64) > (usize::MAX as u64) {
        return None;
    }
    Some(v as usize)
}

// ---------------------------------------------------------------------------
// column layouts
// ---------------------------------------------------------------------------

/// Whether a buffer-table entry lies inside the body.
pub open spec fn buf_ok(body: Seq<u8>, b: (i64, i64)) -> bool {
    0 <= b.0 && 0 <= b.1 && b.0 + b.1 <= body.len()
}

/// Whether a validity buffer covers `rows` values: with no nulls it is
/// not consulted, otherwise it must hold one bit per row.
pub open spec fn validity_ok(body: Seq<u8>, vb: (i64, i64), ncount: i64, rows: int) -> bool {
    buf_ok(body, vb) && (ncount == 0 || vb.1 * 8 >= rows)
}

/// Whether row `j` of a column is non-null.
pub open spec fn spec_valid_at(body: Seq<u8>, vb: (i64, i64), ncount: i64, j: int) -> bool {
    ncount == 0 || spec_bit_at(body, vb.0 as int, j)
}

/// The layout conditions of a 64-bit integer column: a validity buffer
/// and a data buffer of eight bytes per row.
pub open spec fn int64_col_ok(
    body: Seq<u8>,
    vb: (i64, i64),
    ncount: i64,
    db: (i64, i64),
    rows: int,
) -> bool {
    validity_ok(body, vb, ncount, rows) && buf_ok(body, db) && db.1 >= 8 * rows
}

/// The values of a 64-bit integer column.
pub open spec fn spec_int64_col(
    body: Seq<u8>,
    vb: (i64, i64),
    ncount: i64,
    db: (i64, i64),
    rows: int,
) -> Seq<Option<i64>> {
    Seq::new(
        rows as nat,
        |j: int|
            if spec_valid_at(body, vb, ncount, j) {
                Option::Some(spec_i64_at(body, db.0 + 8 * j))
            } else {
                Option::None
            },
    )
}

/// Offset `j` of a string column's offsets buffer.
pub open spec fn spec_utf8_off(body: Seq<u8>, ob: (i64, i64), j: int) -> int {
    spec_i32_at(body, ob.0 + 4 * j) as int
}

/// The layout conditions of a string column: a validity buffer, an
/// offsets buffer of `rows + 1` 32-bit offsets, and a values buffer the
/// offsets index into, in non-decreasing order.
pub open spec fn utf8_col_ok(
    body: Seq<u8>,
    vb: (i64, i64),
    ncount: i64,
    ob: (i64, i64),
    db: (i64, i64),
    rows: int,
) -> bool {
    &&& validity_ok(body, vb, ncount, rows)
    &&& buf_ok(body, ob)
    &&& buf_ok(body, db)
    &&& ob.1 >= 4 * (rows + 1)
    &&& forall|j: int| 0 <= j <= rows ==> 0 <= #[trigger] spec_utf8_off(body, ob, j) <= db.1
    &&& forall|j: int|
        0 <= j < rows ==> #[trigger] spec_utf8_off(body, ob, j) <= spec_utf8_off(body, ob, j + 1)
}

/// The values of a string column.
pub open spec fn spec_utf8_col(
    body: Seq<u8>,
    vb: (i64, i64),
    ncount: i64,
    ob: (i64, i64),
    db: (i64, i64),
    rows: int,
) -> Seq<Option<Seq<u8>>> {
    Seq::new(
        rows as nat,
        |j: int|
            if spec_valid_at(body, vb, ncount, j) {
                Option::Some(
                    body.subrange(
                        db.0 + spec_utf8_off(body, ob, j),
                        db.0 + spec_utf8_off(body, ob, j + 1),
                    ),
                )
            } else {
                Option::None
            },
    )
}

/// Builds a 64-bit integer column, checking its layout.
fn build_int64_col(body: &[u8], vb: (i64, i64), ncount: i64, db: (i64, i64), rows: usize) -> (r:
    Option<Vec<Option<i64>>>)
    requires
        rows <= 0x7fff_ffff_ffff_ffff,
    ensures
        match r {
            Some(v) => int64_col_ok(body@, vb, ncount, db, rows as int) && v@ == spec_int64_col(
                body@,
                vb,
                ncount,
                db,
                rows as int,
            ),
            None => !int64_col_ok(body@, vb, ncount, db, rows as int),
        },
{
    let n = body.len();
    assert(body@.len() <= usize::MAX);
    let voff = match i64_to_usize(vb.0) {
        None => {
            return None;
        },
        Some(u) => u,
    };
    let vlen = match i64_to_usize(vb.1) {
        None => {
            return None;
        },
        Some(u) => u,
    };
    let doff = match i64_to_usize(db.0) {
        None => {
            return None;
        },
        Some(u) => u,
    };
    let dlen = match i64_to_usize(db.1) {
        None => {
            return None;
        },
        Some(u) => u,
    };
    if voff > body.len() || vlen > body.len() - voff {
        return None;
    }
    if doff > body.len() || dlen > body.len() - doff {
        return None;
    }
    if ncount != 0 && (vlen as u64) < ((rows as u64) + 7) / 8 {
        proof {
            let q: int = (rows as int + 7) / 8;
            assert(8 * q <= rows as int + 7 && rows as int + 7 < 8 * q + 8);
            assert(vb.1 <= q - 1);
            assert(!(vb.1 * 8 >= rows as int));
        }
        return None;
    }
    proof {
        if ncount != 0 {
            let q: int = (rows as int + 7) / 8;
            assert(8 * q <= rows as int + 7 && rows as int + 7 < 8 * q + 8);
            assert(vb.1 >= q);
            assert(vb.1 * 8 >= rows as int);
        }
    }
    if (dlen as u64) / 8 < rows as u64 {
        proof {
            assert(!(db.1 >= 8 * rows as int)) by {
                assert(dlen as int / 8 < rows as int);
            }
        }
        return None;
    }
    proof {
        assert(db.1 >= 8 * rows as int) by {
            assert(dlen as int / 8 >= rows as int);
        }
    }
    let mut out: Vec<Option<i64>> = Vec::new();
    let mut j: usize = 0;
    while j < rows
        invariant
            j <= rows,
            rows <= 0x7fff_ffff_ffff_ffff,
            body@.len() <= usize::MAX,
            int64_col_ok(body@, vb, ncount, db, rows as int),
            vb.0 == voff && vb.1 == vlen && db.0 == doff && db.1 == dlen,
            voff + vlen <= body@.len() && doff + dlen <= body@.len(),
            8 * rows <= dlen,
            out@ =~= spec_int64_col(body@, vb, ncount, db, rows as int).take(j as int),
        decreases rows - j,
    {
        let valid = if ncount == 0 {
            true
        } else {
            proof {
                assert(j / 8 < vlen) by {
                    assert(vb.1 * 8 >= rows as int);
                };
            }
            read_bit(body, voff, j)
        };
        if valid {
            assert(8 * (j as int) + 8 <= dlen as int);
            let v = read_u64_le(body, doff + 8 * j);
            out.push(Some(v as i64));
        } else {
            out.push(None);
        }
        proof {
            let full = spec_int64_col(body@, vb, ncount, db, rows as int);
            assert(full[j as int] == out@[j as int]);
            assert(out@ =~= full.take(j as int + 1));
        }
        j = j + 1;
    }
    proof {
        let full = spec_int64_col(body@, vb, ncount, db, rows as int);
        assert(full.take(rows as int) =~= full);
    }
    Some(out)
}

/// Builds a string column, checking its layout.
#[verifier::rlimit(60)]
fn build_utf8_col(
    body: &[u8],
    vb: (i64, i64),
    ncount: i64,
    ob: (i64, i64),
    db: (i64, i64),
    rows: usize,
) -> (r: Option<Vec<Option<Vec<u8>>>>)
    requires
        rows <= 0x7fff_ffff_ffff_ffff,
    ensures
        match r {
            Some(v) => utf8_col_ok(body@, vb, ncount, ob, db, rows as int) && v@.map_values(
                |o: Option<Vec<u8>>|
                    match o {
                        Option::None => Option::<Seq<u8>>::None,
                        Option::Some(b) => Option::Some(b@),
                    },
            ) == spec_utf8_col(body@, vb, ncount, ob, db, rows as int),
            None => !utf8_col_ok(body@, vb, ncount, ob, db, rows as int),
        },
{
    let n = body.len();
    assert(body@.len() <= usize::MAX);
    let voff = match i64_to_usize(vb.0) {
        None => {
            return None;
        },
        Some(u) => u,
    };
    let vlen = match i64_to_usize(vb.1) {
        None => {
            return None;
        },
        Some(u) => u,
    };
    let ooff = match i64_to_usize(ob.0) {
        None => {
            return None;
        },
        Some(u) => u,
    };
    let olen = match i64_to_usize(ob.1) {
        None => {
            return None;
        },
        Some(u) => u,
    };
    let doff = match i64_to_usize(db.0) {
        None => {
            return None;
        },
        Some(u) => u,
    };
    let dlen = match i64_to_usize(db.1) {
        None => {
            return None;
        },
        Some(u) => u,
    };
    if voff > body.len() || vlen > body.len() - voff {
        return None;
    }
    if ooff > body.len() || olen > body.len() - ooff {
        return None;
    }
    if doff > body.len() || dlen > body.len() - doff {
        return None;
    }
    if ncount != 0 && (vlen as u64) < ((rows as u64) + 7) / 8 {
        proof {
            let q: int = (rows as int + 7) / 8;
            assert(8 * q <= rows as int + 7 && rows as int + 7 < 8 * q + 8);
            assert(vb.1 <= q - 1);
            assert(!(vb.1 * 8 >= rows as int));
        }
        return None;
    }
    proof {
        if ncount != 0 {
            let q: int = (rows as int + 7) / 8;
            assert(8 * q <= rows as int + 7 && rows as int + 7 < 8 * q + 8);
            assert(vb.1 >= q);
            assert(vb.1 * 8 >= rows as int);
        }
    }
    if (olen as u64) / 4 < rows as u64 + 1 {
        proof {
            assert(!(ob.1 >= 4 * (rows as int + 1))) by {
                assert(olen as int / 4 < rows as int + 1);
            }
        }
        return None;
    }
    proof {
        assert(ob.1 >= 4 * (rows as int + 1)) by {
            assert(olen as int / 4 >= rows as int + 1);
        }
    }
    // First pass: check every offset is in range and non-decreasing.
    let mut j: usize = 0;
    let mut prev: i32 = 0;
    while j <= rows
        invariant
            j <= rows + 1,
            rows <= 0x7fff_ffff_ffff_ffff,
            body@.len() <= usize::MAX,
            vb.0 == voff && vb.1 == vlen && ob.0 == ooff && ob.1 == olen && db.0 == doff && db.1
                == dlen,
            voff + vlen <= body@.len() && ooff + olen <= body@.len() && doff + dlen
                <= body@.len(),
            4 * (rows + 1) <= olen,
            forall|i: int| 0 <= i < j ==> 0 <= #[trigger] spec_utf8_off(body@, ob, i) <= db.1,
            forall|i: int|
                0 <= i < j - 1 ==> #[trigger] spec_utf8_off(body@, ob, i) <= spec_utf8_off(
                    body@,
                    ob,
                    i + 1,
                ),
            j > 0 ==> prev as int == spec_utf8_off(body@, ob, j - 1),
        decreases rows + 1 - j,
    {
        assert(4 * (j as int) + 4 <= olen as int);
        let o = read_u32_le(body, ooff + 4 * j) as i32;
        proof {
            assert(o as int == spec_utf8_off(body@, ob, j as int));
            assert(dlen as int == db.1 as int);
        }
        if o < 0 || (o as i64) > dlen as i64 {
            return None;
        }
        if j > 0 && o < prev {
            return None;
        }
        prev = o;
        j = j + 1;
    }
    // Second pass: cut the values out.
    let mut out: Vec<Option<Vec<u8>>> = Vec::new();
    let mut k: usize = 0;
    while k < rows
        invariant
            k <= rows,
            rows <= 0x7fff_ffff_ffff_ffff,
            body@.len() <= usize::MAX,
            utf8_col_ok(body@, vb, ncount, ob, db, rows as int),
            vb.0 == voff && vb.1 == vlen && ob.0 == ooff && ob.1 == olen && db.0 == doff && db.1
                == dlen,
            voff + vlen <= body@.len() && ooff + olen <= body@.len() && doff + dlen
                <= body@.len(),
            4 * (rows + 1) <= olen,
            out@.map_values(
                |o: Option<Vec<u8>>|
                    match o {
                        Option::None => Option::<Seq<u8>>::None,
                        Option::Some(b) => Option::Some(b@),
                    },
            ) =~= spec_utf8_col(body@, vb, ncount, ob, db, rows as int).take(k as int),
        decreases rows - k,
    {
        let valid = if ncount == 0 {
            true
        } else {
            proof {
                assert(k / 8 < vlen) by {
                    assert(vb.1 * 8 >= rows as int);
                };
            }
            read_bit(body, voff, k)
        };
        let ghost full = spec_utf8_col(body@, vb, ncount, ob, db, rows as int);
        let ghost pre = out@;
        if valid {
            assert(4 * (k as int) + 8 <= olen as int);
            let o0 = read_u32_le(body, ooff + 4 * k) as i32;
            let o1 = read_u32_le(body, ooff + 4 * (k + 1)) as i32;
            proof {
                assert(o0 as int == spec_utf8_off(body@, ob, k as int));
                assert(o1 as int == spec_utf8_off(body@, ob, k as int + 1));
                assert(0 <= spec_utf8_off(body@, ob, k as int));
                assert(spec_utf8_off(body@, ob, k as int) <= spec_utf8_off(
                    body@,
                    ob,
                    k as int + 1,
                ));
                assert(spec_utf8_off(body@, ob, k as int + 1) <= db.1);
            }
            let piece = bytes_of_range(body, doff + o0 as usize, doff + o1 as usize);
            out.push(Some(piece));
        } else {
            out.push(None);
        }
        proof {
            let view_of = |o: Option<Vec<u8>>|
                match o {
                    Option::None => Option::<Seq<u8>>::None,
                    Option::Some(b) => Option::Some(b@),
                };
            assert(out@.map_values(view_of) =~= pre.map_values(view_of).push(
                view_of(out@[k as int]),
            ));
            assert(view_of(out@[k as int]) == full[k as int]);
            assert(out@.map_values(view_of) =~= full.take(k as int + 1));
        }
        k = k + 1;
    }
    proof {
        let full = spec_utf8_col(body@, vb, ncount, ob, db, rows as int);
        assert(full.take(rows as int) =~= full);
    }
    Some(out)
}

// ---------------------------------------------------------------------------
// whole batches
// ---------------------------------------------------------------------------

/// Decodes the columns of a batch, consuming nodes and buffers in order:
/// two buffers per integer column, three per string column.  `None` when
/// a node or buffer is missing or a layout condition fails.
pub open spec fn spec_decode_cols(
    types: Seq<ColumnType>,
    nodes: Seq<(i64, i64)>,
    buffers: Seq<(i64, i64)>,
    rows: int,
    body: Seq<u8>,
) -> Option<Seq<SpecColumn>>
    decreases types.len(),
{
    if types.len() == 0 {
        Some(Seq::empty())
    } else if nodes.len() == 0 || nodes[0].0 != rows {
        None
    } else {
        let ncount = nodes[0].1;
        match types[0] {
            ColumnType::Int64 => {
                if buffers.len() < 2 {
                    None
                } else if !int64_col_ok(body, buffers[0], ncount, buffers[1], rows) {
                    None
                } else {
                    match spec_decode_cols(
                        types.drop_first(),
                        nodes.drop_first(),
                        buffers.skip(2),
                        rows,
                        body,
                    ) {
                        None => None,
                        Some(rest) => Some(
                            seq![
                                SpecColumn::Int64(
                                    spec_int64_col(body, buffers[0], ncount, buffers[1], rows),
                                ),
                            ] + rest,
                        ),
                    }
                }
            },
            ColumnType::Utf8 => {
                if buffers.len() < 3 {
                    None
                } else if !utf8_col_ok(body, buffers[0], ncount, buffers[1], buffers[2], rows) {
                    None
                } else {
                    match spec_decode_cols(
                        types.drop_first(),
                        nodes.drop_first(),
                        buffers.skip(3),
                        rows,
                        body,
                    ) {
                        None => None,
                        Some(rest) => Some(
                            seq![
                                SpecColumn::Utf8(
                                    spec_utf8_col(
                                        body,
                                        buffers[0],
                                        ncount,
                                        buffers[1],
                                        buffers[2],
                                        rows,
                                    ),
                                ),
                            ] + rest,
                        ),
                    }
                }
            },
            ColumnType::Unsupported => None,
        }
    }
}

/// What a record batch's metadata and body decode to against a schema.
pub open spec fn spec_decode_batch(
    types: Seq<ColumnType>,
    rows: i64,
    nodes: Seq<(i64, i64)>,
    buffers: Seq<(i64, i64)>,
    body: Seq<u8>,
) -> Option<SpecBatch> {
    if 0 <= rows <= usize::MAX && nodes.len() == types.len() {
        match spec_decode_cols(types, nodes, buffers, rows as int, body) {
            None => None,
            Some(cols) => Some(SpecBatch { n_rows: rows as int, columns: cols }),
        }
    } else {
        None
    }
}

/// Decodes a record batch's body against a schema, given the node and
/// buffer tables of its header.  Every column of the schema must be of a
/// supported type and the batch must not be compressed; after that,
/// success and the decoded values are exactly [`spec_decode_batch`].
pub fn decode_record_batch(
    schema: &SchemaDesc,
    rows: i64,
    nodes: &Vec<(i64, i64)>,
    buffers: &Vec<(i64, i64)>,
    compressed: bool,
    body: &Vec<u8>,
) -> (r: Result<RecordBatchData, FlightError>)
    ensures
        !all_supported(*schema) ==> r == Err::<RecordBatchData, FlightError>(
            FlightError::Unsupported(UnsupportedFeature::ColumnType),
        ),
        all_supported(*schema) && compressed ==> (r matches Err(e) && e is Decode),
        all_supported(*schema) && !compressed ==> match spec_decode_batch(
            types_of(*schema),
            rows,
            nodes@,
            buffers@,
            body@,
        ) {
            Some(b) => r matches Ok(rb) && rb@ == b,
            None => r matches Err(e) && e is Decode,
        },
{
    let ghost types = types_of(*schema);
    let mut i: usize = 0;
    while i < schema.fields.len()
        invariant
            i <= schema.fields@.len(),
            forall|t: int|
                0 <= t < i ==> !((#[trigger] schema.fields@[t]).column_type is Unsupported),
        decreases schema.fields@.len() - i,
    {
        match schema.fields[i].column_type {
            ColumnType::Unsupported => {
                return Err(FlightError::Unsupported(UnsupportedFeature::ColumnType));
            },
            _ => {},
        }
        i = i + 1;
    }
    assert(all_supported(*schema));
    if compressed {
        return Err(FlightError::Decode("compressed record batches are not supported".to_owned()));
    }
    let rows_u = match i64_to_usize(rows) {
        None => {
            return Err(FlightError::Decode("record batch length out of range".to_owned()));
        },
        Some(u) => u,
    };
    if nodes.len() != schema.fields.len() {
        return Err(
            FlightError::Decode("node count does not match the schema".to_owned()),
        );
    }
    proof {
        assert(types.len() == schema.fields@.len());
    }
    let mut cols: Vec<Column> = Vec::new();
    let mut k: usize = 0;
    let mut bi: usize = 0;
    proof {
        assert(types.skip(0) =~= types);
        assert(nodes@.skip(0) =~= nodes@);
        assert(buffers@.skip(0) =~= buffers@);
        if let Some(rest) = spec_decode_cols(types, nodes@, buffers@, rows_u as int, body@) {
            assert(cols@.map_values(|c: Column| c@) + rest =~= rest);
        }
    }
    while k < schema.fields.len()
        invariant
            k <= schema.fields@.len(),
            bi <= buffers@.len(),
            all_supported(*schema),
            !compressed,
            rows == rows_u,
            0 <= rows_u <= usize::MAX,
            types == types_of(*schema),
            types.len() == schema.fields@.len(),
            nodes@.len() == schema.fields@.len(),
            spec_decode_cols(types, nodes@, buffers@, rows_u as int, body@) == match
                spec_decode_cols(
                types.skip(k as int),
                nodes@.skip(k as int),
                buffers@.skip(bi as int),
                rows_u as int,
                body@,
            ) {
                Some(rest) => Some(cols@.map_values(|c: Column| c@) + rest),
                None => None::<Seq<SpecColumn>>,
            },
        decreases schema.fields@.len() - k,
    {
        let ghost t_suf = types.skip(k as int);
        let ghost n_suf = nodes@.skip(k as int);
        let ghost b_suf = buffers@.skip(bi as int);
        proof {
            assert(t_suf[0] == schema.fields@[k as int].column_type);
            assert(n_suf[0] == nodes@[k as int]);
            assert(t_suf.drop_first() =~= types.skip(k as int + 1));
            assert(n_suf.drop_first() =~= nodes@.skip(k as int + 1));
        }
        let node = nodes[k];
        if node.0 != rows {
            return Err(FlightError::Decode("column length does not match the batch".to_owned()));
        }
        let ghost pre = cols@;
        match schema.fields[k].column_type {
            ColumnType::Int64 => {
                if buffers.len() - bi < 2 {
                    proof {
                        assert(b_suf.len() < 2);
                    }
                    return Err(FlightError::Decode("missing buffers for a column".to_owned()));
                }
                proof {
                    assert(b_suf[0] == buffers@[bi as int]);
                    assert(b_suf[1] == buffers@[bi as int + 1]);
                    assert(b_suf.skip(2) =~= buffers@.skip(bi as int + 2));
                }
                let vb = buffers[bi];
                let db = buffers[bi + 1];
                match build_int64_col(body.as_slice(), vb, node.1, db, rows_u) {
                    None => {
                        return Err(
                            FlightError::Decode("bad layout for an integer column".to_owned()),
                        );
                    },
                    Some(v) => {
                        cols.push(Column::Int64(v));
                        bi = bi + 2;
                    },
                }
            },
            ColumnType::Utf8 => {
                if buffers.len() - bi < 3 {
                    proof {
                        assert(b_suf.len() < 3);
                    }
                    return Err(FlightError::Decode("missing buffers for a column".to_owned()));
                }
                proof {
                    assert(b_suf[0] == buffers@[bi as int]);
                    assert(b_suf[1] == buffers@[bi as int + 1]);
                    assert(b_suf[2] == buffers@[bi as int + 2]);
                    assert(b_suf.skip(3) =~= buffers@.skip(bi as int + 3));
                }
                let vb = buffers[bi];
                let ob = buffers[bi + 1];
                let db = buffers[bi + 2];
                match build_utf8_col(body.as_slice(), vb, node.1, ob, db, rows_u) {
                    None => {
                        return Err(
                            FlightError::Decode("bad layout for a string column".to_owned()),
                        );
                    },
                    Some(v) => {
                        cols.push(Column::Utf8(v));
                        bi = bi + 3;
                    },
                }
            },
            ColumnType::Unsupported => {
                proof {
                    assert(!all_supported(*schema));
                }
                return Err(FlightError::Unsupported(UnsupportedFeature::ColumnType));
            },
        }
        proof {
            let view_col = |c: Column| c@;
            assert(cols@.map_values(view_col) =~= pre.map_values(view_col).push(
                cols@[pre.len() as int]@,
            ));
            if let Some(rest) = spec_decode_cols(
                types.skip(k as int + 1),
                nodes@.skip(k as int + 1),
                buffers@.skip(bi as int),
                rows_u as int,
                body@,
            ) {
                assert(pre.map_values(view_col) + (seq![cols@[pre.len() as int]@] + rest)
                    =~= cols@.map_values(view_col) + rest);
            }
        }
        k = k + 1;
    }
    proof {
        assert(types.skip(k as int).len() == 0);
        assert(spec_decode_cols(
            types.skip(k as int),
            nodes@.skip(k as int),
            buffers@.skip(bi as int),
            rows_u as int,
            body@,
        ) == Some(Seq::<SpecColumn>::empty()));
        assert(cols@.map_values(|c: Column| c@) + Seq::<SpecColumn>::empty() =~= cols@.map_values(
            |c: Column| c@,
        ));
    }
    let rb = RecordBatchData { n_rows: rows_u, columns: cols };
    proof {
        assert(rb@ =~= spec_decode_batch(types, rows, nodes@, buffers@, body@)->Some_0);
    }
    Ok(rb)
}

// ---------------------------------------------------------------------------
// reading the flatbuffer header, through arrow
// ---------------------------------------------------------------------------

/// The header-type codes a frame's data header can carry.
pub const HEADER_NONE: u8 = 0;

pub const HEADER_SCHEMA: u8 = 1;

pub const HEADER_DICTIONARY_BATCH: u8 = 2;

pub const HEADER_RECORD_BATCH: u8 = 3;

pub const HEADER_TENSOR: u8 = 4;

pub const HEADER_SPARSE_TENSOR: u8 = 5;

/// The column-type codes a schema's fields are reported as.
pub const COL_INT64: u8 = 0;

pub const COL_UTF8: u8 = 1;

pub const COL_OTHER: u8 = 2;

/// The header type of an IPC message, as arrow's flatbuffer reader
/// reports it: `None` when the bytes are not a message, else one of the
/// `HEADER_` codes.  A function of the bytes alone.
pub uninterp spec fn ipc_header_kind(h: Seq<u8>) -> Option<u8>;

/// Relies on arrow's `root_as_message` and `Message::header_type`:
/// parsing the same bytes always reports the same header type.
#[verifier::external_body]
fn header_kind_code(h: &Vec<u8>) -> (r: Option<u8>)
    ensures
        r == ipc_header_kind(h@),
{
    let m = arrow::ipc::root_as_message(h.as_slice()).ok()?;
    let ht = m.header_type();
    Some(if ht == arrow::ipc::MessageHeader::Schema { HEADER_SCHEMA }
    else if ht == arrow::ipc::MessageHeader::DictionaryBatch { HEADER_DICTIONARY_BATCH }
    else if ht == arrow::ipc::MessageHeader::RecordBatch { HEADER_RECORD_BATCH }
    else if ht == arrow::ipc::MessageHeader::Tensor { HEADER_TENSOR }
    else if ht == arrow::ipc::MessageHeader::SparseTensor { HEADER_SPARSE_TENSOR }
    else { HEADER_NONE })
}

/// The column list of a length-prefixed IPC schema message: each column's
/// name and its `COL_` type code.  `None` when the bytes do not parse as
/// a schema message.  A function of the bytes alone.
pub uninterp spec fn parsed_sized_schema(b: Seq<u8>) -> Option<Seq<(String, u8)>>;

/// Relies on arrow's `size_prefixed_root_as_message`, `header_as_schema`
/// and `convert::try_fb_to_schema`: the fields of the schema the bytes
/// hold, in order.
#[verifier::external_body]
fn parse_sized_schema(b: &[u8]) -> (r: Option<Vec<(String, u8)>>)
    ensures
        match r {
            Some(v) => parsed_sized_schema(b@) == Some(v@),
            None => parsed_sized_schema(b@) is None,
        },
{
    let m = arrow::ipc::size_prefixed_root_as_message(b).ok()?;
    let schema = arrow::ipc::convert::try_fb_to_schema(m.header_as_schema()?).ok()?;
    Some(schema.fields().iter().map(|f| (f.name().to_string(), match f.data_type() {
        arrow::datatypes::DataType::Int64 => COL_INT64,
        arrow::datatypes::DataType::Utf8 => COL_UTF8,
        _ => COL_OTHER,
    })).collect())
}

/// The column list of an in-stream schema announcement: like
/// [`parsed_sized_schema`], but over a bare message.  A function of the
/// bytes alone.
pub uninterp spec fn parsed_schema_header(b: Seq<u8>) -> Option<Seq<(String, u8)>>;

/// Relies on arrow's `root_as_message`, `header_as_schema` and
/// `convert::try_fb_to_schema`: the fields of the schema the message
/// announces, in order.
#[verifier::external_body]
fn parse_schema_header(b: &Vec<u8>) -> (r: Option<Vec<(String, u8)>>)
    ensures
        match r {
            Some(v) => parsed_schema_header(b@) == Some(v@),
            None => parsed_schema_header(b@) is None,
        },
{
    let m = arrow::ipc::root_as_message(b.as_slice()).ok()?;
    let schema = arrow::ipc::convert::try_fb_to_schema(m.header_as_schema()?).ok()?;
    Some(schema.fields().iter().map(|f| (f.name().to_string(), match f.data_type() {
        arrow::datatypes::DataType::Int64 => COL_INT64,
        arrow::datatypes::DataType::Utf8 => COL_UTF8,
        _ => COL_OTHER,
    })).collect())
}

/// The record-batch header of an IPC message: the row count, the field
/// nodes as (length, null count) pairs, the buffers as (offset, length)
/// pairs, and whether a body compression is declared.  `None` when the
/// message does not hold a record-batch header.  A function of the bytes
/// alone.
pub uninterp spec fn parsed_batch_meta(b: Seq<u8>) -> Option<
    (i64, Seq<(i64, i64)>, Seq<(i64, i64)>, bool),
>;

/// Relies on arrow's `root_as_message`, `header_as_record_batch` and the
/// record-batch accessors `length`, `nodes`, `buffers` and `compression`.
#[verifier::external_body]
fn parse_batch_meta(b: &Vec<u8>) -> (r: Option<(i64, Vec<(i64, i64)>, Vec<(i64, i64)>, bool)>)
    ensures
        match r {
            Some(m) => parsed_batch_meta(b@) == Some((m.0, m.1@, m.2@, m.3)),
            None => parsed_batch_meta(b@) is None,
        },
{
    let m = arrow::ipc::root_as_message(b.as_slice()).ok()?;
    let rb = m.header_as_record_batch()?;
    let nodes = rb.nodes()?.iter().map(|n| (n.length(), n.null_count())).collect();
    let buffers = rb.buffers()?.iter().map(|bu| (bu.offset(), bu.length())).collect();
    Some((rb.length(), nodes, buffers, rb.compression().is_some()))
}

// ---------------------------------------------------------------------------
// schemas out of their wire form
// ---------------------------------------------------------------------------

/// The column type a `COL_` code stands for.
pub open spec fn spec_column_type_of_code(c: u8) -> ColumnType {
    if c == COL_INT64 {
        ColumnType::Int64
    } else if c == COL_UTF8 {
        ColumnType::Utf8
    } else {
        ColumnType::Unsupported
    }
}

/// Whether a schema holds exactly the columns of a parsed column list.
pub open spec fn schema_matches_codes(sd: SchemaDesc, codes: Seq<(String, u8)>) -> bool {
    &&& sd.fields@.len() == codes.len()
    &&& forall|i: int|
        0 <= i < codes.len() ==> (#[trigger] sd.fields@[i]).name@ == codes[i].0@
            && sd.fields@[i].column_type == spec_column_type_of_code(codes[i].1)
}

/// Builds a schema from a parsed column list.
fn schema_from_codes(codes: Vec<(String, u8)>) -> (r: SchemaDesc)
    ensures
        schema_matches_codes(r, codes@),
{
    let mut fields: Vec<ColumnDesc> = Vec::new();
    let mut i: usize = 0;
    while i < codes.len()
        invariant
            i <= codes@.len(),
            fields@.len() == i,
            forall|t: int|
                0 <= t < i ==> (#[trigger] fields@[t]).name@ == codes@[t].0@
                    && fields@[t].column_type == spec_column_type_of_code(codes@[t].1),
        decreases codes@.len() - i,
    {
        let name = codes[i].0.clone();
        let code = codes[i].1;
        let column_type = if code == COL_INT64 {
            ColumnType::Int64
        } else if code == COL_UTF8 {
            ColumnType::Utf8
        } else {
            ColumnType::Unsupported
        };
        fields.push(ColumnDesc { name, column_type });
        i = i + 1;
    }
    SchemaDesc { fields }
}

/// A schema blob in the form it travels in flight info and in
/// prepared-statement results: a four-byte continuation marker, then a
/// length-prefixed IPC schema message.
#[derive(Debug, Clone, PartialEq, Eq)]
pub struct IpcMessage(pub Vec<u8>);

/// Decodes a schema out of its prefixed wire form: both prefixes are
/// skipped before the message reaches the flatbuffer reader.
pub fn schema_from_ipc_bytes(b: &Vec<u8>) -> (r: Result<SchemaDesc, FlightError>)
    ensures
        b@.len() < 4 ==> (r matches Err(e) && e is Decode),
        b@.len() >= 4 ==> match parsed_sized_schema(b@.skip(4)) {
            Some(codes) => r matches Ok(sd) && schema_matches_codes(sd, codes),
            None => r matches Err(e) && e is Decode,
        },
{
    if b.len() < 4 {
        return Err(FlightError::Decode("schema blob too short".to_owned()));
    }
    let rest = bytes_of_range(b.as_slice(), 4, b.len());
    proof {
        assert(rest@ =~= b@.skip(4));
    }
    match parse_sized_schema(rest.as_slice()) {
        None => Err(
            FlightError::Decode("Unable to convert flight info to a schema".to_owned()),
        ),
        Some(codes) => Ok(schema_from_codes(codes)),
    }
}

impl IpcMessage {
    /// The schema this blob holds.
    pub fn to_schema(&self) -> (r: Result<SchemaDesc, FlightError>)
        ensures
            self.0@.len() < 4 ==> (r matches Err(e) && e is Decode),
            self.0@.len() >= 4 ==> match parsed_sized_schema(self.0@.skip(4)) {
                Some(codes) => r matches Ok(sd) && schema_matches_codes(sd, codes),
                None => r matches Err(e) && e is Decode,
            },
    {
        schema_from_ipc_bytes(&self.0)
    }
}

/// The schema embedded in a flight info response.
pub fn arrow_schema_from_flight_info(fi: &FlightInfo) -> (r: Result<SchemaDesc, FlightError>)
    ensures
        fi.schema@.len() < 4 ==> (r matches Err(e) && e is Decode),
        fi.schema@.len() >= 4 ==> match parsed_sized_schema(fi.schema@.skip(4)) {
            Some(codes) => r matches Ok(sd) && schema_matches_codes(sd, codes),
            None => r matches Err(e) && e is Decode,
        },
{
    schema_from_ipc_bytes(&fi.schema)
}

// ---------------------------------------------------------------------------
// frames
// ---------------------------------------------------------------------------

/// A decoded Flight data frame: a columnar batch or an in-stream schema
/// announcement.
#[derive(Debug, Clone, PartialEq, Eq)]
pub enum ArrowFlightData {
    RecordBatch(RecordBatchData),
    Schema(SchemaDesc),
}

/// What decoding a frame against a schema must yield, by the frame's
/// header type: a schema artifact, a record batch decoded per
/// [`spec_decode_batch`], an unsupported-feature error naming a
/// dictionary batch, tensor or sparse tensor, or a decode error.
pub open spec fn spec_frame_outcome(
    header: Seq<u8>,
    body: Seq<u8>,
    schema: SchemaDesc,
    r: Result<ArrowFlightData, FlightError>,
) -> bool {
    match ipc_header_kind(header) {
        None => r matches Err(e) && e is Decode,
        Some(k) => {
            if k == HEADER_DICTIONARY_BATCH {
                r == Err::<ArrowFlightData, FlightError>(
                    FlightError::Unsupported(UnsupportedFeature::DictionaryBatch),
                )
            } else if k == HEADER_TENSOR {
                r == Err::<ArrowFlightData, FlightError>(
                    FlightError::Unsupported(UnsupportedFeature::Tensor),
                )
            } else if k == HEADER_SPARSE_TENSOR {
                r == Err::<ArrowFlightData, FlightError>(
                    FlightError::Unsupported(UnsupportedFeature::SparseTensor),
                )
            } else if k == HEADER_SCHEMA {
                match parsed_schema_header(header) {
                    None => r matches Err(e) && e is Decode,
                    Some(codes) => r matches Ok(a) && a matches ArrowFlightData::Schema(sd)
                        && schema_matches_codes(sd, codes),
                }
            } else if k == HEADER_RECORD_BATCH {
                match parsed_batch_meta(header) {
                    None => r matches Err(e) && e is Decode,
                    Some(meta) => {
                        if !all_supported(schema) {
                            r == Err::<ArrowFlightData, FlightError>(
                                FlightError::Unsupported(UnsupportedFeature::ColumnType),
                            )
                        } else if meta.3 {
                            r matches Err(e) && e is Decode
                        } else {
                            match spec_decode_batch(
                                types_of(schema),
                                meta.0,
                                meta.1,
                                meta.2,
                                body,
                            ) {
                                Some(b) => r matches Ok(a) && a matches
                                    ArrowFlightData::RecordBatch(rb) && rb@ == b,
                                None => r matches Err(e) && e is Decode,
                            }
                        }
                    },
                }
            } else {
                r matches Err(e) && e is Decode
            }
        },
    }
}

/// Decodes one Flight data frame against an externally supplied schema.
/// The frame is interpreted only through its data header; a dictionary
/// batch, tensor or sparse tensor is rejected with an unsupported-feature
/// error naming that kind, never returned as a batch or schema and never
/// silently dropped.
pub fn arrow_data_from_flight_data(flight_data: &FlightData, schema: &SchemaDesc) -> (r: Result<
    ArrowFlightData,
    FlightError,
>)
    ensures
        spec_frame_outcome(flight_data.data_header@, flight_data.data_body@, *schema, r),
{
    let kind = match header_kind_code(&flight_data.data_header) {
        None => {
            return Err(FlightError::Decode("Unable to get root as message".to_owned()));
        },
        Some(k) => k,
    };
    if kind == HEADER_DICTIONARY_BATCH {
        Err(FlightError::Unsupported(UnsupportedFeature::DictionaryBatch))
    } else if kind == HEADER_TENSOR {
        Err(FlightError::Unsupported(UnsupportedFeature::Tensor))
    } else if kind == HEADER_SPARSE_TENSOR {
        Err(FlightError::Unsupported(UnsupportedFeature::SparseTensor))
    } else if kind == HEADER_SCHEMA {
        match parse_schema_header(&flight_data.data_header) {
            None => Err(
                FlightError::Decode(
                    "Unable to convert flight data header to a schema".to_owned(),
                ),
            ),
            Some(codes) => Ok(ArrowFlightData::Schema(schema_from_codes(codes))),
        }
    } else if kind == HEADER_RECORD_BATCH {
        match parse_batch_meta(&flight_data.data_header) {
            None => Err(
                FlightError::Decode(
                    "Unable to convert flight data header to a record batch".to_owned(),
                ),
            ),
            Some((rows, nodes, buffers, compressed)) => {
                match decode_record_batch(
                    schema,
                    rows,
                    &nodes,
                    &buffers,
                    compressed,
                    &flight_data.data_body,
                ) {
                    Ok(rb) => Ok(ArrowFlightData::RecordBatch(rb)),
                    Err(e) => Err(e),
                }
            },
        }
    } else {
        Err(
            FlightError::Decode(
                "Unable to convert message with this header type to arrow data".to_owned(),
            ),
        )
    }
}

/// What consuming one frame of a result stream must yield: a record
/// batch is handed on, a schema announcement is suppressed, and every
/// error of the frame decoder is passed through unchanged.
pub open spec fn spec_consume_outcome(
    header: Seq<u8>,
    body: Seq<u8>,
    schema: SchemaDesc,
    r: Result<Option<RecordBatchData>, FlightError>,
) -> bool {
    match ipc_header_kind(header) {
        None => r matches Err(e) && e is Decode,
        Some(k) => {
            if k == HEADER_DICTIONARY_BATCH {
                r == Err::<Option<RecordBatchData>, FlightError>(
                    FlightError::Unsupported(UnsupportedFeature::DictionaryBatch),
                )
            } else if k == HEADER_TENSOR {
                r == Err::<Option<RecordBatchData>, FlightError>(
                    FlightError::Unsupported(UnsupportedFeature::Tensor),
                )
            } else if k == HEADER_SPARSE_TENSOR {
                r == Err::<Option<RecordBatchData>, FlightError>(
                    FlightError::Unsupported(UnsupportedFeature::SparseTensor),
                )
            } else if k == HEADER_SCHEMA {
                match parsed_schema_header(header) {
                    None => r matches Err(e) && e is Decode,
                    Some(codes) => r == Ok::<Option<RecordBatchData>, FlightError>(None),
                }
            } else if k == HEADER_RECORD_BATCH {
                match parsed_batch_meta(header) {
                    None => r matches Err(e) && e is Decode,
                    Some(meta) => {
                        if !all_supported(schema) {
                            r == Err::<Option<RecordBatchData>, FlightError>(
                                FlightError::Unsupported(UnsupportedFeature::ColumnType),
                            )
                        } else if meta.3 {
                            r matches Err(e) && e is Decode
                        } else {
                            match spec_decode_batch(
                                types_of(schema),
                                meta.0,
                                meta.1,
                                meta.2,
                                body,
                            ) {
                                Some(b) => r matches Ok(o) && o matches Some(rb) && rb@ == b,
                                None => r matches Err(e) && e is Decode,
                            }
                        }
                    },
                }
            } else {
                r matches Err(e) && e is Decode
            }
        },
    }
}

/// Consumes one frame of a ticketed result stream: decodes it against
/// the schema, yields a record batch, and suppresses anything else that
/// decodes cleanly.  Errors are never recovered from; the caller must
/// stop consuming the stream after the first one.
pub fn consume_frame(flight_data: &FlightData, schema: &SchemaDesc) -> (r: Result<
    Option<RecordBatchData>,
    FlightError,
>)
    ensures
        spec_consume_outcome(flight_data.data_header@, flight_data.data_body@, *schema, r),
{
    match arrow_data_from_flight_data(flight_data, schema) {
        Ok(ArrowFlightData::RecordBatch(rb)) => Ok(Some(rb)),
        Ok(ArrowFlightData::Schema(_)) => Ok(None),
        Err(e) => Err(e),
    }
}

} // verus!


