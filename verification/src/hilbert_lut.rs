//! Source text of the Hilbert-curve lookup tables: each table is written as
//! a Rust `const` array of `u16`, sixteen values to a line.
use vstd::prelude::*;
use crate::text::{chars_of, decimal, extend_chars, extend_str, push_decimal, string_of};

verus! {

/// What follows value `i` of a table when another value comes after it: a
/// line break after every sixteenth value, else a space.
pub open spec fn separator_after(i: nat) -> Seq<char> {
    if i % 16 == 15 {
        "\n    "@
    } else {
        " "@
    }
}

/// The values of a table, each followed by a comma, separated as
/// `separator_after` says, with nothing after the last comma.
pub open spec fn lut_body(vs: Seq<u16>) -> Seq<char>
    decreases vs.len(),
{
    if vs.len() == 0 {
        Seq::empty()
    } else if vs.len() == 1 {
        decimal(vs[0] as nat) + ","@
    } else {
        lut_body(vs.drop_last()) + separator_after((vs.len() - 2) as nat) + decimal(
            vs.last() as nat,
        ) + ","@
    }
}

/// The declaration of table `dimension`:
/// `const LUT_<d>: [u16; <n>] = [\n    <values>\n];`.
pub open spec fn lut_code(dimension: nat, vs: Seq<u16>) -> Seq<char> {
    "const LUT_"@ + decimal(dimension) + ": [u16; "@ + decimal(vs.len()) + "] = [\n    "@
        + lut_body(vs) + "\n];"@
}

/// Writes the declaration of the lookup table of `dimension`, whose values
/// are `lut`.
pub fn generate_hilbert_lut(dimension: usize, lut: &Vec<u16>) -> (code: String)
    ensures
        code@ == lut_code(dimension as nat, lut@),
{
    let mut body: Vec<char> = Vec::new();
    let mut i: usize = 0;
    while i < lut.len()
        invariant
            i <= lut.len(),
            body@ == lut_body(lut@.take(i as int)),
        decreases lut.len() - i,
    {
        assert(lut@.take(i + 1).drop_last() =~= lut@.take(i as int));
        let ghost before = body@;
        if i > 0 {
            if (i - 1) % 16 == 15 {
                extend_str(&mut body, "\n    ");
            } else {
                extend_str(&mut body, " ");
            }
        }
        push_decimal(&mut body, lut[i] as u64);
        extend_str(&mut body, ",");
        i = i + 1;
        proof {
            if i == 1 {
                assert(body@ =~= lut_body(lut@.take(1)));
            } else {
                assert(body@ =~= lut_body(lut@.take(i as int)));
            }
        }
    }
    assert(lut@.take(lut.len() as int) =~= lut@);
    let mut code = chars_of("const LUT_");
    push_decimal(&mut code, dimension as u64);
    extend_str(&mut code, ": [u16; ");
    push_decimal(&mut code, lut.len() as u64);
    extend_str(&mut code, "] = [\n    ");
    extend_chars(&mut code, &body);
    extend_str(&mut code, "\n];");
    assert(code@ =~= lut_code(dimension as nat, lut@));
    string_of(&code)
}

/// The source text of all tables: the shared `LUT` static listing them,
/// then the tables of dimensions 2 to 5, separated by blank lines.
pub open spec fn lut_module(l2: Seq<u16>, l3: Seq<u16>, l4: Seq<u16>, l5: Seq<u16>) -> Seq<char> {
    "\npub static LUT: LazyLock<Vec<&'static [u16]>> = LazyLock::new(|| vec![&LUT_2, &LUT_3, &LUT_4, &LUT_5]);\n\n"@
        + lut_code(2, l2) + "\n\n"@ + lut_code(3, l3) + "\n\n"@ + lut_code(4, l4) + "\n\n"@
        + lut_code(5, l5)
}

/// Writes the tables of dimensions 2 to 5 and the static that lists them.
pub fn hilbert_lut_module(
    l2: &Vec<u16>,
    l3: &Vec<u16>,
    l4: &Vec<u16>,
    l5: &Vec<u16>,
) -> (code: String)
    ensures
        code@ == lut_module(l2@, l3@, l4@, l5@),
{
    let mut out = chars_of(
        "\npub static LUT: LazyLock<Vec<&'static [u16]>> = LazyLock::new(|| vec![&LUT_2, &LUT_3, &LUT_4, &LUT_5]);\n\n",
    );
    let c2 = generate_hilbert_lut(2, l2);
    extend_str(&mut out, c2.as_str());
    extend_str(&mut out, "\n\n");
    let c3 = generate_hilbert_lut(3, l3);
    extend_str(&mut out, c3.as_str());
    extend_str(&mut out, "\n\n");
    let c4 = generate_hilbert_lut(4, l4);
    extend_str(&mut out, c4.as_str());
    extend_str(&mut out, "\n\n");
    let c5 = generate_hilbert_lut(5, l5);
    extend_str(&mut out, c5.as_str());
    string_of(&out)
}

/// The table of each dimension is written from the list given for that
/// dimension: the module holds the declaration of `LUT_d` made of list
/// `d`, for `d` from 2 to 5, and ends with that of `LUT_5`.
pub proof fn lemma_module_holds_each_table(l2: Seq<u16>, l3: Seq<u16>, l4: Seq<u16>, l5: Seq<u16>)
    ensures
        exists|i: int|
            0 <= i && i + lut_code(2, l2).len() <= lut_module(l2, l3, l4, l5).len()
                && #[trigger] lut_module(l2, l3, l4, l5).subrange(i, i + lut_code(2, l2).len())
                == lut_code(2, l2),
        exists|i: int|
            0 <= i && i + lut_code(3, l3).len() <= lut_module(l2, l3, l4, l5).len()
                && #[trigger] lut_module(l2, l3, l4, l5).subrange(i, i + lut_code(3, l3).len())
                == lut_code(3, l3),
        exists|i: int|
            0 <= i && i + lut_code(4, l4).len() <= lut_module(l2, l3, l4, l5).len()
                && #[trigger] lut_module(l2, l3, l4, l5).subrange(i, i + lut_code(4, l4).len())
                == lut_code(4, l4),
        lut_module(l2, l3, l4, l5).subrange(
            lut_module(l2, l3, l4, l5).len() - lut_code(5, l5).len(),
            lut_module(l2, l3, l4, l5).len() as int,
        ) == lut_code(5, l5),
{
    let head = "\npub static LUT: LazyLock<Vec<&'static [u16]>> = LazyLock::new(|| vec![&LUT_2, &LUT_3, &LUT_4, &LUT_5]);\n\n"@;
    let sep = "\n\n"@;
    let c2 = lut_code(2, l2);
    let c3 = lut_code(3, l3);
    let c4 = lut_code(4, l4);
    let c5 = lut_code(5, l5);
    let m = lut_module(l2, l3, l4, l5);
    assert(m == head + c2 + sep + c3 + sep + c4 + sep + c5);
    let i2 = head.len() as int;
    let i3 = (head + c2 + sep).len() as int;
    let i4 = (head + c2 + sep + c3 + sep).len() as int;
    assert(m.subrange(i2, i2 + c2.len()) =~= c2);
    assert(m.subrange(i3, i3 + c3.len()) =~= c3);
    assert(m.subrange(i4, i4 + c4.len()) =~= c4);
    assert(m.subrange(m.len() - c5.len(), m.len() as int) =~= c5);
}

} // verus!
