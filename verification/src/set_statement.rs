//! The `SET` statement: which values it takes, what each setting asks for
//! before it is changed, and what the statement reports as changed.
use vstd::prelude::*;
use crate::error::ErrorCode;
use crate::kvapi::Tenant;
use crate::text::{chars_of, decimal, extend_str, lowercase, push_decimal, str_eq, string_of, to_lowercase};

verus! {

/// What a `SET` statement changes.
#[derive(Debug, PartialEq, Eq, Structural, Clone, Copy)]
pub enum SetType {
    SettingsGlobal,
    SettingsSession,
    SettingsQuery,
    Variable,
}

/// Where the values of a `SET` statement go.
#[derive(Debug, PartialEq, Eq, Structural, Clone, Copy)]
pub enum SetTarget {
    /// Settings, global or of the session.
    Settings { is_global: bool },
    /// Session variables.
    Variables,
}

/// Where the values of a `SET` statement of type `set_type` go; query-level
/// settings cannot be set.
pub fn set_target(set_type: SetType) -> (r: Result<SetTarget, ErrorCode>)
    ensures
        match set_type {
            SetType::SettingsGlobal => r == Ok::<SetTarget, ErrorCode>(
                SetTarget::Settings { is_global: true },
            ),
            SetType::SettingsSession => r == Ok::<SetTarget, ErrorCode>(
                SetTarget::Settings { is_global: false },
            ),
            SetType::Variable => r == Ok::<SetTarget, ErrorCode>(SetTarget::Variables),
            SetType::SettingsQuery => r matches Err(ErrorCode::BadArguments(m)) && m@
                == "Query level setting can not be set"@,
        },
{
    match set_type {
        SetType::SettingsGlobal => Ok(SetTarget::Settings { is_global: true }),
        SetType::SettingsSession => Ok(SetTarget::Settings { is_global: false }),
        SetType::Variable => Ok(SetTarget::Variables),
        SetType::SettingsQuery => Err(
            ErrorCode::BadArguments("Query level setting can not be set".to_owned()),
        ),
    }
}

/// The message of a query result that is not one row.
pub open spec fn rows_message(rows: nat) -> Seq<char> {
    "Expect scalar result in set query result, but got "@ + decimal(rows) + " rows"@
}

/// The message of a query result with the wrong number of columns.
pub open spec fn columns_message(idents: nat, columns: nat) -> Seq<char> {
    "Expect "@ + decimal(idents) + " column in set query result, but got "@ + decimal(columns)
        + " columns"@
}

/// The message of a statement with the wrong number of values.
pub open spec fn values_message(idents: nat, values: nat) -> Seq<char> {
    "Expect "@ + decimal(idents) + " values in set statement, but got "@ + decimal(values)
}

/// Checks the result of the query that gives the values: one row, and one
/// column per name being set.
pub fn check_query_result(num_rows: usize, num_columns: usize, num_idents: usize) -> (r: Result<
    (),
    ErrorCode,
>)
    ensures
        num_rows != 1 ==> (r matches Err(ErrorCode::BadArguments(m)) && m@ == rows_message(
            num_rows as nat,
        )),
        num_rows == 1 && num_columns != num_idents ==> (r matches Err(ErrorCode::BadArguments(m))
            && m@ == columns_message(num_idents as nat, num_columns as nat)),
        num_rows == 1 && num_columns == num_idents ==> r is Ok,
{
    if num_rows != 1 {
        let mut m = chars_of("Expect scalar result in set query result, but got ");
        push_decimal(&mut m, num_rows as u64);
        extend_str(&mut m, " rows");
        return Err(ErrorCode::BadArguments(string_of(&m)));
    }
    if num_columns != num_idents {
        let mut m = chars_of("Expect ");
        push_decimal(&mut m, num_idents as u64);
        extend_str(&mut m, " column in set query result, but got ");
        push_decimal(&mut m, num_columns as u64);
        extend_str(&mut m, " columns");
        return Err(ErrorCode::BadArguments(string_of(&m)));
    }
    Ok(())
}

/// Checks that there is one value per name being set.
pub fn check_value_count(num_idents: usize, num_values: usize) -> (r: Result<(), ErrorCode>)
    ensures
        num_values != num_idents ==> (r matches Err(ErrorCode::BadArguments(m)) && m@
            == values_message(num_idents as nat, num_values as nat)),
        num_values == num_idents ==> r is Ok,
{
    if num_values != num_idents {
        let mut m = chars_of("Expect ");
        push_decimal(&mut m, num_idents as u64);
        extend_str(&mut m, " values in set statement, but got ");
        push_decimal(&mut m, num_values as u64);
        return Err(ErrorCode::BadArguments(string_of(&m)));
    }
    Ok(())
}

/// A quote that may surround a time zone name.
pub open spec fn is_quote(c: char) -> bool {
    c == '\'' || c == '"'
}

/// The text without its leading quotes.
pub open spec fn trim_start_quotes(s: Seq<char>) -> Seq<char>
    decreases s.len(),
{
    if s.len() > 0 && is_quote(s[0]) {
        trim_start_quotes(s.drop_first())
    } else {
        s
    }
}

/// The text without its trailing quotes.
pub open spec fn trim_end_quotes(s: Seq<char>) -> Seq<char>
    decreases s.len(),
{
    if s.len() > 0 && is_quote(s.last()) {
        trim_end_quotes(s.drop_last())
    } else {
        s
    }
}

/// The text without the quotes at either end.
pub open spec fn trim_quotes(s: Seq<char>) -> Seq<char> {
    trim_end_quotes(trim_start_quotes(s))
}

/// Removes the quotes at either end of a text.
pub fn trim_quotes_string(s: &str) -> (r: String)
    ensures
        r@ == trim_quotes(s@),
{
    let cs = chars_of(s);
    assert(cs@.subrange(0, cs@.len() as int) =~= cs@);
    let mut start: usize = 0;
    while start < cs.len() && (cs[start] == '\'' || cs[start] == '"')
        invariant
            start <= cs.len(),
            trim_start_quotes(cs@) == trim_start_quotes(cs@.subrange(start as int, cs@.len() as int)),
        decreases cs.len() - start,
    {
        assert(cs@.subrange(start + 1, cs@.len() as int) =~= cs@.subrange(
            start as int,
            cs@.len() as int,
        ).drop_first());
        start = start + 1;
    }
    let ghost front = cs@.subrange(start as int, cs@.len() as int);
    assert(trim_start_quotes(cs@) == front);
    let mut end: usize = cs.len();
    while end > start && (cs[end - 1] == '\'' || cs[end - 1] == '"')
        invariant
            start <= end <= cs.len(),
            front == cs@.subrange(start as int, cs@.len() as int),
            trim_end_quotes(front) == trim_end_quotes(cs@.subrange(start as int, end as int)),
        decreases end,
    {
        assert(cs@.subrange(start as int, end - 1) =~= cs@.subrange(start as int, end as int).drop_last());
        end = end - 1;
    }
    let mut out: Vec<char> = Vec::new();
    let mut i: usize = start;
    while i < end
        invariant
            start <= i <= end <= cs.len(),
            out@ == cs@.subrange(start as int, i as int),
        decreases end - i,
    {
        out.push(cs[i]);
        i = i + 1;
        assert(out@ =~= cs@.subrange(start as int, i as int));
    }
    assert(trim_end_quotes(cs@.subrange(start as int, end as int)) == cs@.subrange(
        start as int,
        end as int,
    ));
    string_of(&out)
}

/// Whether `name` names a time zone of the IANA database, as `chrono-tz`
/// reads names.
pub uninterp spec fn known_timezone(name: Seq<char>) -> bool;

/// Whether `chrono-tz` knows the time zone `name` (`str::parse::<Tz>`).
///
/// Trusted: `Tz::from_str` looks the name up, as it is, in the crate's
/// fixed table of zone names; which names the table holds is left unstated.
#[verifier::external_body]
fn timezone_known(name: &str) -> (r: bool)
    ensures
        r == known_timezone(name@),
{
    name.parse::<chrono_tz::Tz>().is_ok()
}

/// What setting one name of a `SET` statement asks for.
#[derive(Debug, PartialEq, Eq)]
pub enum SettingStep {
    /// Nothing is set and nothing is reported: names kept for drivers.
    Skip,
    /// The setting is changed to `value`.
    Change { value: String },
    /// The network policy `value` must exist; then the setting is changed to
    /// it.
    ChangeNetworkPolicy { value: String },
    /// The sandbox tenant is created when one is named and sandboxes are
    /// enabled; then the setting is changed to `value`.
    ChangeSandboxTenant { create: Option<Tenant>, value: String },
}

/// The message of an unknown time zone.
pub open spec fn invalid_timezone_message(scalar: Seq<char>) -> Seq<char> {
    "Invalid Timezone: "@ + scalar
}

/// What setting `var` to the text `scalar` asks for, by the name in lower
/// case: `sql_mode` and `autocommit` are skipped; a time zone is set without
/// its quotes and must be known; a network policy must exist; a sandbox
/// tenant may be created first; every other name is set as given.
pub open spec fn setting_step_of(
    var: Seq<char>,
    scalar: Seq<char>,
    sandbox_enabled: bool,
    step: SettingStep,
) -> bool {
    let name = lowercase(var);
    if name == "sql_mode"@ || name == "autocommit"@ {
        step == SettingStep::Skip
    } else if name == "network_policy"@ {
        step matches SettingStep::ChangeNetworkPolicy { value } && value@ == scalar
    } else if name == "sandbox_tenant"@ {
        step matches SettingStep::ChangeSandboxTenant { create, value } && value@ == scalar && (
        if sandbox_enabled && scalar.len() > 0 {
            create matches Some(t) && t.name_view() == scalar
        } else {
            create is None
        })
    } else {
        step matches SettingStep::Change { value } && value@ == scalar
    }
}

/// Only `sql_mode` and `autocommit` (in any case) are skipped; every other
/// name that is set is reported as changed.
pub proof fn lemma_only_driver_names_are_skipped(
    var: Seq<char>,
    scalar: Seq<char>,
    sandbox_enabled: bool,
    step: SettingStep,
)
    requires
        setting_step_of(var, scalar, sandbox_enabled, step),
    ensures
        step is Skip <==> (lowercase(var) == "sql_mode"@ || lowercase(var) == "autocommit"@),
{
}

/// Decides what setting `var` to `scalar` asks for; an unknown time zone is
/// an `InvalidTimezone` error.
pub fn setting_step(var: &str, scalar: &str, sandbox_enabled: bool) -> (r: Result<
    SettingStep,
    ErrorCode,
>)
    ensures
        lowercase(var@) == "timezone"@ ==> (if known_timezone(trim_quotes(scalar@)) {
            r matches Ok(SettingStep::Change { value }) && value@ == trim_quotes(scalar@)
        } else {
            r matches Err(ErrorCode::InvalidTimezone(m)) && m@ == invalid_timezone_message(scalar@)
        }),
        lowercase(var@) != "timezone"@ ==> (r matches Ok(step) && setting_step_of(
            var@,
            scalar@,
            sandbox_enabled,
            step,
        )),
{
    proof {
        reveal_strlit("timezone");
        reveal_strlit("sql_mode");
        reveal_strlit("autocommit");
        assert("timezone"@[0] != "sql_mode"@[0]);
        assert("timezone"@[0] != "autocommit"@[0]);
    }
    let lower = to_lowercase(var);
    let name = lower.as_str();
    if str_eq(name, "sql_mode") || str_eq(name, "autocommit") {
        Ok(SettingStep::Skip)
    } else if str_eq(name, "timezone") {
        let tz = trim_quotes_string(scalar);
        if timezone_known(tz.as_str()) {
            Ok(SettingStep::Change { value: tz })
        } else {
            let mut m = chars_of("Invalid Timezone: ");
            extend_str(&mut m, scalar);
            Err(ErrorCode::InvalidTimezone(string_of(&m)))
        }
    } else if str_eq(name, "network_policy") {
        Ok(SettingStep::ChangeNetworkPolicy { value: scalar.to_owned() })
    } else if str_eq(name, "sandbox_tenant") {
        let create = if sandbox_enabled && !scalar.is_empty() {
            Some(Tenant::new_literal(scalar))
        } else {
            None
        };
        Ok(SettingStep::ChangeSandboxTenant { create, value: scalar.to_owned() })
    } else {
        Ok(SettingStep::Change { value: scalar.to_owned() })
    }
}

/// The settings a statement changed, as the session reports them: names,
/// values as given, and whether each change was global.
#[derive(Debug)]
pub struct ChangeSettings {
    pub keys: Vec<String>,
    pub values: Vec<String>,
    pub is_globals: Vec<bool>,
}

impl ChangeSettings {
    /// The three lists run in step.
    pub open spec fn wf(&self) -> bool {
        self.keys@.len() == self.values@.len() && self.values@.len() == self.is_globals@.len()
    }

    /// No change yet.
    pub fn new() -> (c: ChangeSettings)
        ensures
            c.wf(),
            c.keys@.len() == 0,
    {
        ChangeSettings { keys: Vec::new(), values: Vec::new(), is_globals: Vec::new() }
    }

    /// Reports that `var` was changed to `value`.
    pub fn record(&mut self, var: &str, value: &str, is_global: bool)
        requires
            old(self).wf(),
        ensures
            final(self).wf(),
            final(self).keys@.len() == old(self).keys@.len() + 1,
            final(self).keys@.drop_last() == old(self).keys@,
            final(self).values@.drop_last() == old(self).values@,
            final(self).is_globals@ == old(self).is_globals@.push(is_global),
            final(self).keys@.last()@ == var@,
            final(self).values@.last()@ == value@,
    {
        self.keys.push(var.to_owned());
        self.values.push(value.to_owned());
        self.is_globals.push(is_global);
        assert(self.keys@.drop_last() =~= old(self).keys@);
        assert(self.values@.drop_last() =~= old(self).values@);
    }
}

/// The texts of the names (or values) whose step reports a change, in
/// order: every step but `Skip` reports one.
pub open spec fn reported(texts: Seq<String>, steps: Seq<SettingStep>) -> Seq<Seq<char>>
    decreases texts.len(),
{
    if texts.len() == 0 || steps.len() == 0 {
        Seq::empty()
    } else {
        let r = reported(texts.drop_last(), steps.drop_last());
        if steps.last() is Skip {
            r
        } else {
            r.push(texts.last()@)
        }
    }
}

/// The settings a `SET` statement reports as changed, once every name was
/// set: for each name whose step is not `Skip`, in order, the name, the
/// value as given, and whether the change was global.
pub fn settings_changes(
    idents: &Vec<String>,
    scalars: &Vec<String>,
    steps: &Vec<SettingStep>,
    is_global: bool,
) -> (c: ChangeSettings)
    requires
        idents@.len() == steps@.len(),
        scalars@.len() == steps@.len(),
    ensures
        c.wf(),
        crate::text::views(c.keys@) == reported(idents@, steps@),
        crate::text::views(c.values@) == reported(scalars@, steps@),
        c.is_globals@ == Seq::new(c.keys@.len(), |i: int| is_global),
{
    let mut c = ChangeSettings::new();
    let mut i: usize = 0;
    while i < steps.len()
        invariant
            i <= steps@.len(),
            idents@.len() == steps@.len(),
            scalars@.len() == steps@.len(),
            c.wf(),
            crate::text::views(c.keys@) == reported(idents@.take(i as int), steps@.take(i as int)),
            crate::text::views(c.values@) == reported(scalars@.take(i as int), steps@.take(i as int)),
            c.is_globals@ == Seq::new(c.keys@.len(), |k: int| is_global),
        decreases steps.len() - i,
    {
        assert(idents@.take(i + 1).drop_last() =~= idents@.take(i as int));
        assert(scalars@.take(i + 1).drop_last() =~= scalars@.take(i as int));
        assert(steps@.take(i + 1).drop_last() =~= steps@.take(i as int));
        let ghost keys_before = crate::text::views(c.keys@);
        let ghost values_before = crate::text::views(c.values@);
        let skip = match &steps[i] {
            SettingStep::Skip => true,
            _ => false,
        };
        if !skip {
            c.record(idents[i].as_str(), scalars[i].as_str(), is_global);
            assert(crate::text::views(c.keys@) =~= keys_before.push(idents@[i as int]@));
            assert(crate::text::views(c.values@) =~= values_before.push(scalars@[i as int]@));
            assert(c.is_globals@ =~= Seq::new(c.keys@.len(), |k: int| is_global));
        }
        i = i + 1;
    }
    assert(idents@.take(steps@.len() as int) =~= idents@);
    assert(scalars@.take(steps@.len() as int) =~= scalars@);
    assert(steps@.take(steps@.len() as int) =~= steps@);
    c
}

} // verus!
