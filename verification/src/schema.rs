//! Column types and table descriptions.
use vstd::prelude::*;
use crate::error::ErrorCode;

verus! {

/// The type of a column.
#[derive(Debug, PartialEq, Eq)]
pub enum DataType {
    String,
    UInt64,
    Boolean,
    Nullable(Box<DataType>),
    Array(Box<DataType>),
    /// Any other type, by its name.
    Other(String),
}

impl DataType {
    /// Whether values of this type may be NULL.
    pub open spec fn spec_is_nullable(&self) -> bool {
        self is Nullable
    }

    pub fn is_nullable(&self) -> (r: bool)
        ensures
            r == self.spec_is_nullable(),
    {
        match self {
            DataType::Nullable(_) => true,
            _ => false,
        }
    }
}

/// A named column.
#[derive(Debug)]
pub struct TableField {
    pub name: String,
    pub data_type: DataType,
}

/// The identity and description of a table.
#[derive(Debug)]
pub struct TableInfo {
    pub table_id: u64,
    pub seq: u64,
    pub desc: String,
    pub name: String,
    pub engine: String,
    /// Creation and update time, in seconds since the Unix epoch.
    pub created_on: i64,
    pub updated_on: i64,
    pub schema: Vec<TableField>,
}

/// The description of a table function's table: `'<database>'.'<function>'`.
pub open spec fn table_function_desc(database: Seq<char>, func: Seq<char>) -> Seq<char> {
    "'"@ + database + "'.'"@ + func + "'"@
}

pub fn table_function_desc_string(database: &str, func: &str) -> (s: String)
    ensures
        s@ == table_function_desc(database@, func@),
{
    let mut v = crate::text::chars_of("'");
    crate::text::extend_str(&mut v, database);
    crate::text::extend_str(&mut v, "'.'");
    crate::text::extend_str(&mut v, func);
    crate::text::extend_str(&mut v, "'");
    crate::text::string_of(&v)
}

/// A scalar argument of a table function: a string, or another value given
/// by its `Debug` rendering.
#[derive(Debug)]
pub enum Scalar {
    String(String),
    Other(String),
}

/// The `Debug` rendering of a scalar.
pub open spec fn scalar_debug(s: Scalar) -> Seq<char> {
    match s {
        Scalar::String(t) => "String("@ + crate::text::debug_text(t@) + ")"@,
        Scalar::Other(d) => d@,
    }
}

/// The `Debug` rendering of a list of scalars: `[a, b, ...]`.
pub open spec fn scalars_debug(v: Seq<Scalar>) -> Seq<char> {
    "["@ + crate::text::join(v.map_values(|s: Scalar| scalar_debug(s)), ", "@) + "]"@
}

pub fn scalars_debug_string(v: &Vec<Scalar>) -> (s: String)
    ensures
        s@ == scalars_debug(v@),
{
    let mut parts: Vec<String> = Vec::new();
    let mut i: usize = 0;
    while i < v.len()
        invariant
            i <= v.len(),
            parts@.len() == i,
            forall|k: int| 0 <= k < i ==> #[trigger] parts@[k]@ == scalar_debug(v@[k]),
        decreases v.len() - i,
    {
        let d = match &v[i] {
            Scalar::String(t) => {
                let q = crate::text::debug_str(t.as_str());
                let mut c = crate::text::chars_of("String(");
                crate::text::extend_str(&mut c, q.as_str());
                crate::text::extend_str(&mut c, ")");
                crate::text::string_of(&c)
            },
            Scalar::Other(d) => d.clone(),
        };
        parts.push(d);
        i = i + 1;
    }
    assert(crate::text::views(parts@) =~= v@.map_values(|s: Scalar| scalar_debug(s)));
    let joined = crate::text::join_strings(&parts, ", ");
    let mut out = crate::text::chars_of("[");
    crate::text::extend_chars(&mut out, &joined);
    crate::text::extend_str(&mut out, "]");
    crate::text::string_of(&out)
}

/// The message of a call with the wrong number of arguments, for a function
/// taking between `start` and `end` arguments.
pub open spec fn variadic_args_message(name: Seq<char>, start: nat, end: nat, got: nat) -> Seq<char> {
    "Function `"@ + name + "` expect to have ["@ + crate::text::decimal(start) + ", "@
        + crate::text::decimal(end) + "] arguments, but got "@ + crate::text::decimal(got)
}

/// The message of a call with the wrong number of arguments, for a function
/// taking exactly `num` arguments.
pub open spec fn fixed_args_message(name: Seq<char>, num: nat, got: nat) -> Seq<char> {
    "Function `"@ + name + "` expect to have "@ + crate::text::decimal(num)
        + " arguments, but got "@ + crate::text::decimal(got)
}

/// Checks the number of arguments of a function call: within
/// `variadic_arguments` when given, else exactly `num_arguments`.
pub fn validate_function_arg(
    name: &str,
    args_len: usize,
    variadic_arguments: Option<(usize, usize)>,
    num_arguments: usize,
) -> (r: Result<(), ErrorCode>)
    ensures
        match variadic_arguments {
            Some((start, end)) => if args_len < start || args_len > end {
                r matches Err(ErrorCode::NumberArgumentsNotMatch(m)) && m@ == variadic_args_message(
                    name@,
                    start as nat,
                    end as nat,
                    args_len as nat,
                )
            } else {
                r is Ok
            },
            None => if num_arguments != args_len {
                r matches Err(ErrorCode::NumberArgumentsNotMatch(m)) && m@ == fixed_args_message(
                    name@,
                    num_arguments as nat,
                    args_len as nat,
                )
            } else {
                r is Ok
            },
        },
{
    match variadic_arguments {
        Some((start, end)) => {
            if args_len < start || args_len > end {
                let mut m = crate::text::chars_of("Function `");
                crate::text::extend_str(&mut m, name);
                crate::text::extend_str(&mut m, "` expect to have [");
                crate::text::push_decimal(&mut m, start as u64);
                crate::text::extend_str(&mut m, ", ");
                crate::text::push_decimal(&mut m, end as u64);
                crate::text::extend_str(&mut m, "] arguments, but got ");
                crate::text::push_decimal(&mut m, args_len as u64);
                Err(ErrorCode::NumberArgumentsNotMatch(crate::text::string_of(&m)))
            } else {
                Ok(())
            }
        },
        None => {
            if num_arguments != args_len {
                let mut m = crate::text::chars_of("Function `");
                crate::text::extend_str(&mut m, name);
                crate::text::extend_str(&mut m, "` expect to have ");
                crate::text::push_decimal(&mut m, num_arguments as u64);
                crate::text::extend_str(&mut m, " arguments, but got ");
                crate::text::push_decimal(&mut m, args_len as u64);
                Err(ErrorCode::NumberArgumentsNotMatch(crate::text::string_of(&m)))
            } else {
                Ok(())
            }
        },
    }
}

/// The arguments of a table function: positioned ones, and named ones.
#[derive(Debug)]
pub struct TableArgs {
    pub positioned: Vec<Scalar>,
    pub named: Vec<(String, Scalar)>,
}

/// The message of named arguments given to a function that takes only
/// positioned ones.
pub open spec fn positioned_only_message(func: Seq<char>) -> Seq<char> {
    func + " accept positioned args only"@
}

/// The message of a wrong number of positioned arguments.
pub open spec fn exact_args_message(func: Seq<char>, n: nat) -> Seq<char> {
    func + " must accept exactly "@ + crate::text::decimal(n) + " positioned args"@
}

impl TableArgs {
    /// Positioned arguments only.
    pub fn new_positioned(args: Vec<Scalar>) -> (t: TableArgs)
        ensures
            t.positioned@ == args@,
            t.named@.len() == 0,
    {
        TableArgs { positioned: args, named: Vec::new() }
    }

    /// The positioned arguments, when there is no named one and, if `num`
    /// is given, exactly `num` of them.
    pub fn expect_all_positioned(&self, func_name: &str, num: Option<usize>) -> (r: Result<
        &Vec<Scalar>,
        ErrorCode,
    >)
        ensures
            self.named@.len() > 0 ==> (r matches Err(ErrorCode::BadArguments(m)) && m@
                == positioned_only_message(func_name@)),
            self.named@.len() == 0 ==> match num {
                Some(n) => if n != self.positioned@.len() {
                    r matches Err(ErrorCode::BadArguments(m)) && m@ == exact_args_message(
                        func_name@,
                        n as nat,
                    )
                } else {
                    r matches Ok(v) && *v == self.positioned
                },
                None => r matches Ok(v) && *v == self.positioned,
            },
    {
        if self.named.len() > 0 {
            let mut m = crate::text::chars_of(func_name);
            crate::text::extend_str(&mut m, " accept positioned args only");
            return Err(ErrorCode::BadArguments(crate::text::string_of(&m)));
        }
        match num {
            Some(n) => {
                if n != self.positioned.len() {
                    let mut m = crate::text::chars_of(func_name);
                    crate::text::extend_str(&mut m, " must accept exactly ");
                    crate::text::push_decimal(&mut m, n as u64);
                    crate::text::extend_str(&mut m, " positioned args");
                    Err(ErrorCode::BadArguments(crate::text::string_of(&m)))
                } else {
                    Ok(&self.positioned)
                }
            },
            None => Ok(&self.positioned),
        }
    }
}

} // verus!
