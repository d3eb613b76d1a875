//! The TSV output format: escaping of fields, framing of records, and the
//! optional header rows of column names and types.
use vstd::prelude::*;
use vstd::utf8::encode_utf8;

verus! {

/// How one byte of a text field is written: tab, line feed and carriage
/// return as `\t`, `\n`, `\r`; a backslash doubled; the field delimiter
/// after a backslash; any other byte as it is.
pub open spec fn escaped_byte(b: u8, field_delimiter: u8) -> Seq<u8> {
    if b == 9u8 {
        seq![92u8, 116u8]
    } else if b == 10u8 {
        seq![92u8, 110u8]
    } else if b == 13u8 {
        seq![92u8, 114u8]
    } else if b == 92u8 {
        seq![92u8, 92u8]
    } else if b == field_delimiter {
        seq![92u8, b]
    } else {
        seq![b]
    }
}

/// A text field as written in TSV.
pub open spec fn tsv_escaped(bs: Seq<u8>, field_delimiter: u8) -> Seq<u8>
    decreases bs.len(),
{
    if bs.len() == 0 {
        Seq::empty()
    } else {
        tsv_escaped(bs.drop_last(), field_delimiter) + escaped_byte(bs.last(), field_delimiter)
    }
}

/// Writes the text field `bytes` to `buf`, escaped.
pub fn write_tsv_escaped_string(bytes: &[u8], buf: &mut Vec<u8>, field_delimiter: u8)
    ensures
        final(buf)@ == old(buf)@ + tsv_escaped(bytes@, field_delimiter),
{
    let ghost start = buf@;
    let mut i: usize = 0;
    while i < bytes.len()
        invariant
            i <= bytes@.len(),
            buf@ == start + tsv_escaped(bytes@.take(i as int), field_delimiter),
        decreases bytes.len() - i,
    {
        assert(bytes@.take(i + 1).drop_last() =~= bytes@.take(i as int));
        let c = bytes[i];
        if c == 9u8 {
            buf.push(92u8);
            buf.push(116u8);
        } else if c == 10u8 {
            buf.push(92u8);
            buf.push(110u8);
        } else if c == 13u8 {
            buf.push(92u8);
            buf.push(114u8);
        } else if c == 92u8 {
            buf.push(92u8);
            buf.push(92u8);
        } else if c == field_delimiter {
            buf.push(92u8);
            buf.push(c);
        } else {
            buf.push(c);
        }
        i = i + 1;
        assert(buf@ =~= start + tsv_escaped(bytes@.take(i as int), field_delimiter));
    }
    assert(bytes@.take(bytes.len() as int) =~= bytes@);
}

/// An escaped field holds no raw tab, line feed or carriage return, so
/// fields and records can always be told apart.
pub proof fn lemma_escaped_has_no_raw_separators(bs: Seq<u8>, field_delimiter: u8)
    ensures
        forall|i: int|
            0 <= i < tsv_escaped(bs, field_delimiter).len() ==> {
                let b = #[trigger] tsv_escaped(bs, field_delimiter)[i];
                b != 9u8 && b != 10u8 && b != 13u8
            },
    decreases bs.len(),
{
    if bs.len() > 0 {
        lemma_escaped_has_no_raw_separators(bs.drop_last(), field_delimiter);
        let prev = tsv_escaped(bs.drop_last(), field_delimiter);
        let tail = escaped_byte(bs.last(), field_delimiter);
        assert forall|i: int| 0 <= i < tsv_escaped(bs, field_delimiter).len() implies {
            let b = #[trigger] tsv_escaped(bs, field_delimiter)[i];
            b != 9u8 && b != 10u8 && b != 13u8
        } by {
            if i >= prev.len() {
                assert(tsv_escaped(bs, field_delimiter)[i] == tail[i - prev.len()]);
            } else {
                assert(tsv_escaped(bs, field_delimiter)[i] == prev[i]);
            }
        }
    }
}

/// The byte an escape sequence `\\x` stands for.
pub open spec fn unescaped_pair(x: u8) -> u8 {
    if x == 116u8 {
        9u8
    } else if x == 110u8 {
        10u8
    } else if x == 114u8 {
        13u8
    } else {
        x
    }
}

/// Reading an escaped field back: a backslash and the byte after it stand
/// for one byte; any other byte stands for itself.
pub open spec fn tsv_unescaped(bs: Seq<u8>) -> Seq<u8>
    decreases bs.len(),
{
    if bs.len() == 0 {
        Seq::empty()
    } else if bs[0] == 92u8 && bs.len() >= 2 {
        seq![unescaped_pair(bs[1])] + tsv_unescaped(bs.skip(2))
    } else {
        seq![bs[0]] + tsv_unescaped(bs.drop_first())
    }
}

proof fn lemma_escaped_front(bs: Seq<u8>, fd: u8)
    requires
        bs.len() > 0,
    ensures
        tsv_escaped(bs, fd) == escaped_byte(bs[0], fd) + tsv_escaped(bs.drop_first(), fd),
    decreases bs.len(),
{
    if bs.len() == 1 {
        assert(bs.drop_first() =~= Seq::<u8>::empty());
        assert(bs.drop_last() =~= Seq::<u8>::empty());
        assert(tsv_escaped(bs.drop_last(), fd) =~= Seq::<u8>::empty());
        assert(tsv_escaped(bs.drop_first(), fd) =~= Seq::<u8>::empty());
        assert(bs.last() == bs[0]);
        assert(tsv_escaped(bs, fd) =~= escaped_byte(bs[0], fd));
    } else {
        lemma_escaped_front(bs.drop_last(), fd);
        assert(bs.drop_last().drop_first() =~= bs.drop_first().drop_last());
        assert(bs.drop_first().last() == bs.last());
        assert(tsv_escaped(bs, fd) =~= escaped_byte(bs[0], fd) + tsv_escaped(bs.drop_first(), fd));
    }
}

proof fn lemma_unescape_one(b: u8, fd: u8, rest: Seq<u8>)
    requires
        fd != 116u8 && fd != 110u8 && fd != 114u8,
    ensures
        tsv_unescaped(escaped_byte(b, fd) + rest) == seq![b] + tsv_unescaped(rest),
{
    let e = escaped_byte(b, fd);
    let all = e + rest;
    if e.len() == 2 {
        assert(all[0] == 92u8);
        assert(all.skip(2) =~= rest);
        assert(unescaped_pair(all[1]) == b);
    } else {
        assert(all[0] == b);
        assert(b != 92u8);
        assert(all.drop_first() =~= rest);
    }
}

/// Reading an escaped field back gives the field, whenever the field
/// delimiter is not one of the letters `t`, `n`, `r` that escapes use.
pub proof fn lemma_escape_reads_back(bs: Seq<u8>, field_delimiter: u8)
    requires
        field_delimiter != 116u8 && field_delimiter != 110u8 && field_delimiter != 114u8,
    ensures
        tsv_unescaped(tsv_escaped(bs, field_delimiter)) == bs,
    decreases bs.len(),
{
    if bs.len() == 0 {
        assert(tsv_escaped(bs, field_delimiter) =~= Seq::<u8>::empty());
    } else {
        lemma_escaped_front(bs, field_delimiter);
        lemma_unescape_one(bs[0], field_delimiter, tsv_escaped(bs.drop_first(), field_delimiter));
        lemma_escape_reads_back(bs.drop_first(), field_delimiter);
        assert(seq![bs[0]] + bs.drop_first() =~= bs);
    }
}

/// Fields joined by the field delimiter, each written by `enc`.
pub open spec fn join_fields(fields: Seq<Seq<u8>>, field_delimiter: u8) -> Seq<u8>
    decreases fields.len(),
{
    if fields.len() == 0 {
        Seq::empty()
    } else if fields.len() == 1 {
        fields[0]
    } else {
        join_fields(fields.drop_last(), field_delimiter) + seq![field_delimiter] + fields.last()
    }
}

/// The escaped forms of texts.
pub open spec fn escaped_texts(values: Seq<String>, field_delimiter: u8) -> Seq<Seq<u8>> {
    values.map_values(|v: String| tsv_escaped(encode_utf8(v@), field_delimiter))
}

/// The TSV output format, with a header row of column names when
/// `WITH_NAMES`, and one of column types when both are set.
#[derive(Debug)]
pub struct TSVOutputFormatBase<const WITH_NAMES: bool, const WITH_TYPES: bool> {
    /// The names of the columns.
    pub field_names: Vec<String>,
    /// The names of the columns' types.
    pub field_types: Vec<String>,
    pub field_delimiter: u8,
    pub record_delimiter: Vec<u8>,
}

impl<const WITH_NAMES: bool, const WITH_TYPES: bool> TSVOutputFormatBase<WITH_NAMES, WITH_TYPES> {
    /// The format for the columns `field_names` of types `field_types`; the
    /// field delimiter is the first byte of the one given.
    pub fn create(
        field_names: Vec<String>,
        field_types: Vec<String>,
        field_delimiter: &str,
        record_delimiter: &str,
    ) -> (f: Self)
        requires
            encode_utf8(field_delimiter@).len() > 0,
        ensures
            f.field_names == field_names,
            f.field_types == field_types,
            f.field_delimiter == encode_utf8(field_delimiter@)[0],
            f.record_delimiter@ == encode_utf8(record_delimiter@),
    {
        let fd = field_delimiter.as_bytes();
        let rd = record_delimiter.as_bytes();
        let mut record: Vec<u8> = Vec::new();
        let mut i: usize = 0;
        while i < rd.len()
            invariant
                i <= rd@.len(),
                record@ == rd@.take(i as int),
            decreases rd.len() - i,
        {
            record.push(rd[i]);
            i = i + 1;
            assert(record@ =~= rd@.take(i as int));
        }
        assert(rd@.take(rd@.len() as int) =~= rd@);
        TSVOutputFormatBase {
            field_names,
            field_types,
            field_delimiter: fd[0],
            record_delimiter: record,
        }
    }

    /// One record of the texts `values`: escaped, joined by the field
    /// delimiter, ended by the record delimiter.
    pub fn serialize_strings(&self, values: &Vec<String>) -> (buf: Vec<u8>)
        ensures
            buf@ == join_fields(escaped_texts(values@, self.field_delimiter), self.field_delimiter)
                + self.record_delimiter@,
    {
        let mut buf: Vec<u8> = Vec::new();
        let fd = self.field_delimiter;
        let mut i: usize = 0;
        while i < values.len()
            invariant
                i <= values@.len(),
                fd == self.field_delimiter,
                buf@ == join_fields(escaped_texts(values@.take(i as int), fd), fd),
            decreases values.len() - i,
        {
            let ghost before = buf@;
            if i != 0 {
                buf.push(fd);
            }
            write_tsv_escaped_string(values[i].as_str().as_bytes(), &mut buf, fd);
            i = i + 1;
            proof {
                let now = escaped_texts(values@.take(i as int), fd);
                assert(now.drop_last() =~= escaped_texts(values@.take(i - 1), fd));
                assert(now.last() == tsv_escaped(encode_utf8(values@[i - 1]@), fd));
                assert(buf@ =~= join_fields(now, fd));
            }
        }
        assert(values@.take(values.len() as int) =~= values@);
        let mut j: usize = 0;
        let ghost body = buf@;
        while j < self.record_delimiter.len()
            invariant
                j <= self.record_delimiter@.len(),
                buf@ == body + self.record_delimiter@.take(j as int),
            decreases self.record_delimiter.len() - j,
        {
            buf.push(self.record_delimiter[j]);
            j = j + 1;
            assert(buf@ =~= body + self.record_delimiter@.take(j as int));
        }
        assert(self.record_delimiter@.take(self.record_delimiter@.len() as int)
            =~= self.record_delimiter@);
        buf
    }

    /// The records of rows whose fields are already encoded: in each row
    /// the fields joined by the field delimiter, then the record delimiter.
    pub fn serialize_block(&self, rows: &Vec<Vec<Vec<u8>>>) -> (buf: Vec<u8>)
        ensures
            buf@ == encoded_rows(rows@, self.field_delimiter, self.record_delimiter@),
    {
        let mut buf: Vec<u8> = Vec::new();
        let fd = self.field_delimiter;
        let mut r: usize = 0;
        while r < rows.len()
            invariant
                r <= rows@.len(),
                fd == self.field_delimiter,
                buf@ == encoded_rows(rows@.take(r as int), fd, self.record_delimiter@),
            decreases rows.len() - r,
        {
            assert(rows@.take(r + 1).drop_last() =~= rows@.take(r as int));
            let ghost before = buf@;
            let row = &rows[r];
            let mut c: usize = 0;
            while c < row.len()
                invariant
                    c <= row@.len(),
                    buf@ == before + join_fields(row_fields(row@.take(c as int)), fd),
                decreases row.len() - c,
            {
                let ghost b2 = buf@;
                if c != 0 {
                    buf.push(fd);
                }
                let field = &row[c];
                let mut k: usize = 0;
                let ghost b3 = buf@;
                while k < field.len()
                    invariant
                        k <= field@.len(),
                        buf@ == b3 + field@.take(k as int),
                    decreases field.len() - k,
                {
                    buf.push(field[k]);
                    k = k + 1;
                    assert(buf@ =~= b3 + field@.take(k as int));
                }
                assert(field@.take(field@.len() as int) =~= field@);
                c = c + 1;
                proof {
                    let now = row_fields(row@.take(c as int));
                    assert(now.drop_last() =~= row_fields(row@.take(c - 1)));
                    assert(buf@ =~= before + join_fields(now, fd));
                }
            }
            assert(row@.take(row@.len() as int) =~= row@);
            let ghost b4 = buf@;
            let mut j: usize = 0;
            while j < self.record_delimiter.len()
                invariant
                    j <= self.record_delimiter@.len(),
                    buf@ == b4 + self.record_delimiter@.take(j as int),
                decreases self.record_delimiter.len() - j,
            {
                buf.push(self.record_delimiter[j]);
                j = j + 1;
                assert(buf@ =~= b4 + self.record_delimiter@.take(j as int));
            }
            assert(self.record_delimiter@.take(self.record_delimiter@.len() as int)
                =~= self.record_delimiter@);
            r = r + 1;
            assert(buf@ =~= encoded_rows(rows@.take(r as int), fd, self.record_delimiter@));
        }
        assert(rows@.take(rows.len() as int) =~= rows@);
        buf
    }

    /// The header: the record of column names when `WITH_NAMES`, followed
    /// by the record of column types when `WITH_TYPES` too; else nothing.
    pub fn serialize_prefix(&self) -> (buf: Vec<u8>)
        ensures
            buf@ == (if WITH_NAMES {
                join_fields(escaped_texts(self.field_names@, self.field_delimiter), self.field_delimiter)
                    + self.record_delimiter@ + (if WITH_TYPES {
                    join_fields(escaped_texts(self.field_types@, self.field_delimiter), self.field_delimiter)
                        + self.record_delimiter@
                } else {
                    Seq::empty()
                })
            } else {
                Seq::empty()
            }),
    {
        let mut buf: Vec<u8> = Vec::new();
        if WITH_NAMES {
            let names = self.serialize_strings(&self.field_names);
            append_bytes(&mut buf, &names);
            if WITH_TYPES {
                let types = self.serialize_strings(&self.field_types);
                append_bytes(&mut buf, &types);
            }
        }
        buf
    }

    /// Nothing is written after the last record.
    pub fn finalize(&mut self) -> (buf: Vec<u8>)
        ensures
            buf@.len() == 0,
            *final(self) == *old(self),
    {
        Vec::new()
    }
}

/// The fields of a row, each as it is.
pub open spec fn row_fields(row: Seq<Vec<u8>>) -> Seq<Seq<u8>> {
    row.map_values(|f: Vec<u8>| f@)
}

/// Rows of encoded fields, each joined and ended by the record delimiter.
pub open spec fn encoded_rows(rows: Seq<Vec<Vec<u8>>>, fd: u8, rd: Seq<u8>) -> Seq<u8>
    decreases rows.len(),
{
    if rows.len() == 0 {
        Seq::empty()
    } else {
        encoded_rows(rows.drop_last(), fd, rd) + join_fields(row_fields(rows.last()@), fd) + rd
    }
}

/// Appends `src` to `buf`.
fn append_bytes(buf: &mut Vec<u8>, src: &Vec<u8>)
    ensures
        final(buf)@ == old(buf)@ + src@,
{
    let ghost start = buf@;
    let mut i: usize = 0;
    while i < src.len()
        invariant
            i <= src@.len(),
            buf@ == start + src@.take(i as int),
        decreases src.len() - i,
    {
        buf.push(src[i]);
        i = i + 1;
        assert(buf@ =~= start + src@.take(i as int));
    }
    assert(src@.take(src@.len() as int) =~= src@);
}

} // verus!
