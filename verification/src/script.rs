//! Scripts run by `EXECUTE IMMEDIATE` and `CALL PROCEDURE`: the statement
//! list a script is compiled from, and the result lines it returns.
use vstd::prelude::*;
use crate::text::{chars_of, string_of};

verus! {

/// A variable declaration: the name and the expression of its first value.
#[derive(Debug, PartialEq, Eq)]
pub struct DeclareVar<E> {
    pub name: String,
    pub default: E,
}

/// An item of a script's `DECLARE` section: a variable, or a result set
/// declared by `S`.
#[derive(Debug, PartialEq, Eq)]
pub enum DeclareItem<E, S> {
    Var(DeclareVar<E>),
    ResultSet(S),
}

/// A statement of a script: the binding of a variable, the binding of a
/// result set, or a statement `B` of the script's body.
#[derive(Debug, PartialEq, Eq)]
pub enum ScriptStatement<E, S, B> {
    LetVar { declare: DeclareVar<E> },
    LetStatement { declare: S },
    Body(B),
}

/// The statement a declaration becomes.
pub open spec fn declare_statement<E, S, B>(d: DeclareItem<E, S>) -> ScriptStatement<E, S, B> {
    match d {
        DeclareItem::Var(v) => ScriptStatement::LetVar { declare: v },
        DeclareItem::ResultSet(s) => ScriptStatement::LetStatement { declare: s },
    }
}

/// The statements of a script: its declarations, in order, then its body.
pub open spec fn script_statements<E, S, B>(
    declares: Seq<DeclareItem<E, S>>,
    body: Seq<B>,
) -> Seq<ScriptStatement<E, S, B>> {
    declares.map_values(|d: DeclareItem<E, S>| declare_statement::<E, S, B>(d)) + body.map_values(
        |b: B| ScriptStatement::<E, S, B>::Body(b),
    )
}

/// The bindings of a procedure's arguments, one per pair of argument and
/// name, as far as both lists go.
pub open spec fn argument_statements<E, S, B>(args: Seq<E>, arg_names: Seq<String>) -> Seq<
    ScriptStatement<E, S, B>,
> {
    Seq::new(
        if args.len() <= arg_names.len() {
            args.len()
        } else {
            arg_names.len()
        },
        |i: int|
            ScriptStatement::LetVar { declare: DeclareVar { name: arg_names[i], default: args[i] } },
    )
}

/// Appends the statements of a script's declarations and body to `src`.
fn push_script<E, S, B>(
    src: &mut Vec<ScriptStatement<E, S, B>>,
    declares: Vec<DeclareItem<E, S>>,
    body: Vec<B>,
)
    ensures
        final(src)@ == old(src)@ + script_statements(declares@, body@),
{
    let ghost start = src@;
    let ghost ds = declares@;
    let ghost bs = body@;
    assert(ds.len() == declares.len());
    assert(bs.len() == body.len());
    let mut declares = declares;
    let mut taken: usize = 0;
    while declares.len() > 0
        invariant
            ds.len() == taken + declares@.len(),
            ds.len() <= usize::MAX,
            declares@ == ds.subrange(taken as int, ds.len() as int),
            src@ == start + ds.take(taken as int).map_values(
                |d: DeclareItem<E, S>| declare_statement::<E, S, B>(d),
            ),
        decreases declares.len(),
    {
        let d = declares.remove(0);
        let st = match d {
            DeclareItem::Var(declare) => ScriptStatement::LetVar { declare },
            DeclareItem::ResultSet(declare) => ScriptStatement::LetStatement { declare },
        };
        src.push(st);
        taken = taken + 1;
        assert(declares@ =~= ds.subrange(taken as int, ds.len() as int));
        assert(src@ =~= start + ds.take(taken as int).map_values(
            |d: DeclareItem<E, S>| declare_statement::<E, S, B>(d),
        ));
    }
    assert(ds.take(taken as int) =~= ds);
    let ghost mid = src@;
    let mut body = body;
    let mut k: usize = 0;
    while body.len() > 0
        invariant
            bs.len() == k + body@.len(),
            bs.len() <= usize::MAX,
            body@ == bs.subrange(k as int, bs.len() as int),
            src@ == mid + bs.take(k as int).map_values(|b: B| ScriptStatement::<E, S, B>::Body(b)),
        decreases body.len(),
    {
        let b = body.remove(0);
        src.push(ScriptStatement::Body(b));
        k = k + 1;
        assert(body@ =~= bs.subrange(k as int, bs.len() as int));
        assert(src@ =~= mid + bs.take(k as int).map_values(
            |b: B| ScriptStatement::<E, S, B>::Body(b),
        ));
    }
    assert(bs.take(k as int) =~= bs);
    assert(src@ =~= start + script_statements(ds, bs));
}

/// The statements `EXECUTE IMMEDIATE` compiles: the script's declarations,
/// then its body.
pub fn immediate_script<E, S, B>(declares: Vec<DeclareItem<E, S>>, body: Vec<B>) -> (r: Vec<
    ScriptStatement<E, S, B>,
>)
    ensures
        r@ == script_statements(declares@, body@),
{
    let mut src: Vec<ScriptStatement<E, S, B>> = Vec::new();
    push_script(&mut src, declares, body);
    assert(src@ =~= script_statements(declares@, body@));
    src
}

/// The statements `CALL PROCEDURE` compiles: the procedure's arguments
/// bound to their names, then the script's declarations and body.
pub fn procedure_script<E, S, B>(
    args: Vec<E>,
    arg_names: Vec<String>,
    declares: Vec<DeclareItem<E, S>>,
    body: Vec<B>,
) -> (r: Vec<ScriptStatement<E, S, B>>)
    ensures
        r@ == argument_statements::<E, S, B>(args@, arg_names@) + script_statements(
            declares@,
            body@,
        ),
{
    let ghost all_args = args@;
    let ghost all_names = arg_names@;
    assert(all_args.len() == args.len());
    let mut src: Vec<ScriptStatement<E, S, B>> = Vec::new();
    let mut args = args;
    let mut names = arg_names;
    let mut i: usize = 0;
    while args.len() > 0 && names.len() > 0
        invariant
            all_args.len() == i + args@.len(),
            all_names.len() == i + names@.len(),
            all_args.len() <= usize::MAX,
            args@ == all_args.subrange(i as int, all_args.len() as int),
            names@ == all_names.subrange(i as int, all_names.len() as int),
            src@ == argument_statements::<E, S, B>(all_args.take(i as int), all_names.take(i as int)),
        decreases args.len(),
    {
        let a = args.remove(0);
        let n = names.remove(0);
        src.push(ScriptStatement::LetVar { declare: DeclareVar { name: n, default: a } });
        i = i + 1;
        assert(args@ =~= all_args.subrange(i as int, all_args.len() as int));
        assert(names@ =~= all_names.subrange(i as int, all_names.len() as int));
        assert(src@ =~= argument_statements::<E, S, B>(all_args.take(i as int), all_names.take(i as int)));
    }
    assert(argument_statements::<E, S, B>(all_args.take(i as int), all_names.take(i as int))
        =~= argument_statements::<E, S, B>(all_args, all_names));
    push_script(&mut src, declares, body);
    src
}

/// The text split at line feeds; there is always at least one piece.
pub open spec fn split_lines(s: Seq<char>) -> Seq<Seq<char>>
    decreases s.len(),
{
    if s.len() == 0 {
        seq![Seq::empty()]
    } else {
        let rest = split_lines(s.drop_last());
        if s.last() == '\n' {
            rest.push(Seq::empty())
        } else {
            rest.update(rest.len() - 1, rest.last().push(s.last()))
        }
    }
}

/// A line without the carriage return it may end with.
pub open spec fn strip_cr(l: Seq<char>) -> Seq<char> {
    if l.len() > 0 && l.last() == '\r' {
        l.drop_last()
    } else {
        l
    }
}

/// The lines of a text, as `str::lines` gives them: split at line feeds,
/// without a last empty piece; a line ended by a line feed loses the
/// carriage return before it, while a last line without a line feed is kept
/// as it is.
pub open spec fn text_lines(s: Seq<char>) -> Seq<Seq<char>> {
    let pieces = split_lines(s);
    let ended = pieces.drop_last().map_values(|l: Seq<char>| strip_cr(l));
    if pieces.last().len() == 0 {
        ended
    } else {
        ended.push(pieces.last())
    }
}

proof fn lemma_split_lines_nonempty(s: Seq<char>)
    ensures
        split_lines(s).len() >= 1,
    decreases s.len(),
{
    if s.len() > 0 {
        lemma_split_lines_nonempty(s.drop_last());
    }
}

/// The lines of `text`, as `str::lines` gives them.
pub fn lines_of(text: &str) -> (r: Vec<String>)
    ensures
        r@.len() == text_lines(text@).len(),
        forall|i: int| 0 <= i < r@.len() ==> #[trigger] r@[i]@ == text_lines(text@)[i],
{
    let cs = chars_of(text);
    let mut done: Vec<String> = Vec::new();
    let mut cur: Vec<char> = Vec::new();
    let mut i: usize = 0;
    proof {
        assert(cs@.take(0) =~= Seq::<char>::empty());
    }
    while i < cs.len()
        invariant
            i <= cs.len(),
            cs@ == text@,
            split_lines(cs@.take(i as int)).len() == done@.len() + 1,
            forall|k: int|
                0 <= k < done@.len() ==> #[trigger] done@[k]@ == strip_cr(
                    split_lines(cs@.take(i as int))[k],
                ),
            cur@ == split_lines(cs@.take(i as int)).last(),
        decreases cs.len() - i,
    {
        let ghost before = split_lines(cs@.take(i as int));
        proof {
            assert(cs@.take(i + 1).drop_last() =~= cs@.take(i as int));
            lemma_split_lines_nonempty(cs@.take(i as int));
        }
        let c = cs[i];
        if c == '\n' {
            let mut line = cur;
            if line.len() > 0 && line[line.len() - 1] == '\r' {
                line.pop();
            }
            proof {
                assert(line@ =~= strip_cr(before.last()));
            }
            done.push(string_of(&line));
            cur = Vec::new();
        } else {
            cur.push(c);
        }
        i = i + 1;
        proof {
            let now = split_lines(cs@.take(i as int));
            assert forall|k: int| 0 <= k < done@.len() implies #[trigger] done@[k]@ == strip_cr(
                now[k],
            ) by {
                if k < before.len() - 1 {
                    assert(now[k] == before[k]);
                }
            }
            assert(cur@ =~= now.last());
        }
    }
    assert(cs@.take(cs.len() as int) =~= cs@);
    let ghost pieces = split_lines(cs@);
    if cur.len() > 0 {
        done.push(string_of(&cur));
    }
    proof {
        let ended = pieces.drop_last().map_values(|l: Seq<char>| strip_cr(l));
        assert(done@.len() == text_lines(text@).len());
        assert forall|k: int| 0 <= k < done@.len() implies #[trigger] done@[k]@ == text_lines(
            text@,
        )[k] by {
            if k < pieces.len() - 1 {
                assert(ended[k] == strip_cr(pieces[k]));
            }
        }
    }
    done
}

/// What a script returned: a value, by its text; a result set, by its
/// rendering as a text table; or nothing.
#[derive(Debug)]
pub enum ScriptResult {
    Var(String),
    Table(String),
    Nothing,
}

/// The column a script's result is returned as: the value as one line, the
/// lines of the rendered table, or no line.
pub fn result_lines(result: &ScriptResult) -> (r: Vec<String>)
    ensures
        match result {
            ScriptResult::Var(v) => r@.len() == 1 && r@[0]@ == v@,
            ScriptResult::Table(t) => r@.len() == text_lines(t@).len() && forall|i: int|
                0 <= i < r@.len() ==> #[trigger] r@[i]@ == text_lines(t@)[i],
            ScriptResult::Nothing => r@.len() == 0,
        },
{
    match result {
        ScriptResult::Var(v) => {
            let mut r: Vec<String> = Vec::new();
            r.push(v.clone());
            r
        },
        ScriptResult::Table(t) => lines_of(t.as_str()),
        ScriptResult::Nothing => Vec::new(),
    }
}

} // verus!
