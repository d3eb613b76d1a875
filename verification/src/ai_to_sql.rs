//! The `ai_to_sql` table function: its table, the prompt it sends to the
//! completion service, and the row it makes of the reply.
use vstd::prelude::*;
use crate::error::ErrorCode;
use crate::schema::{
    exact_args_message, positioned_only_message, table_function_desc, table_function_desc_string,
    DataType, Scalar, TableArgs, TableField, TableInfo,
};
use crate::text::{chars_of, extend_chars, extend_str, join, join_strings, str_eq, string_of, views};

verus! {

/// The columns of the table: `database` and `generated_sql`, both strings.
pub open spec fn is_gpt2sql_schema(fields: Seq<TableField>) -> bool {
    &&& fields.len() == 2
    &&& fields[0].name@ == "database"@ && fields[0].data_type == DataType::String
    &&& fields[1].name@ == "generated_sql"@ && fields[1].data_type == DataType::String
}

/// The columns of the table.
pub fn gpt2sql_schema() -> (fields: Vec<TableField>)
    ensures
        is_gpt2sql_schema(fields@),
{
    let mut v: Vec<TableField> = Vec::new();
    v.push(TableField { name: "database".to_owned(), data_type: DataType::String });
    v.push(TableField { name: "generated_sql".to_owned(), data_type: DataType::String });
    v
}

/// The table function that turns a question into SQL.
#[derive(Debug)]
pub struct GPT2SQLTable {
    pub prompt: String,
    pub table_info: TableInfo,
}

impl GPT2SQLTable {
    /// Creates the table function from its one positioned argument, the
    /// question, which must be a string.
    pub fn create(
        database_name: &str,
        table_func_name: &str,
        table_id: u64,
        table_args: &TableArgs,
    ) -> (r: Result<GPT2SQLTable, ErrorCode>)
        ensures
            table_args.named@.len() > 0 ==> (r matches Err(ErrorCode::BadArguments(m)) && m@
                == positioned_only_message(table_func_name@)),
            table_args.named@.len() == 0 && table_args.positioned@.len() != 1 ==> (r matches Err(
                ErrorCode::BadArguments(m),
            ) && m@ == exact_args_message(table_func_name@, 1)),
            table_args.named@.len() == 0 && table_args.positioned@.len() == 1 ==> match table_args.positioned@[0] {
                Scalar::String(p) => r matches Ok(t) && {
                    &&& t.prompt@ == p@
                    &&& t.table_info.table_id == table_id
                    &&& t.table_info.seq == 0
                    &&& t.table_info.desc@ == table_function_desc(database_name@, table_func_name@)
                    &&& t.table_info.name@ == table_func_name@
                    &&& t.table_info.engine@ == table_func_name@
                    &&& t.table_info.created_on == 0
                    &&& t.table_info.updated_on == 0
                    &&& is_gpt2sql_schema(t.table_info.schema@)
                },
                Scalar::Other(_) => r matches Err(ErrorCode::BadArguments(m)) && m@
                    == "Expected string argument."@,
            },
    {
        let args = table_args.expect_all_positioned(table_func_name, Some(1))?;
        let prompt = match &args[0] {
            Scalar::String(s) => s.clone(),
            Scalar::Other(_) => {
                return Err(ErrorCode::BadArguments("Expected string argument.".to_owned()));
            },
        };
        let table_info = TableInfo {
            table_id,
            seq: 0,
            desc: table_function_desc_string(database_name, table_func_name),
            name: table_func_name.to_owned(),
            engine: table_func_name.to_owned(),
            created_on: 0,
            updated_on: 0,
            schema: gpt2sql_schema(),
        };
        Ok(GPT2SQLTable { prompt, table_info })
    }

    /// The name of the table function.
    pub fn function_name(&self) -> (s: &str)
        ensures
            s@ == self.table_info.name@,
    {
        self.table_info.name.as_str()
    }

    pub fn get_table_info(&self) -> (i: &TableInfo)
        ensures
            *i == self.table_info,
    {
        &self.table_info
    }

    /// The arguments the function was created with: the question.
    pub fn table_args(&self) -> (a: TableArgs)
        ensures
            a.named@.len() == 0,
            a.positioned@.len() == 1,
            a.positioned@[0] matches Scalar::String(p) && p@ == self.prompt@,
    {
        let mut v: Vec<Scalar> = Vec::new();
        v.push(Scalar::String(self.prompt.clone()));
        TableArgs::new_positioned(v)
    }
}

/// A table of the current database as the prompt describes it: its name,
/// its engine and its column names.
#[derive(Debug)]
pub struct ListedTable {
    pub name: String,
    pub engine: String,
    pub columns: Vec<String>,
}

/// Views and streams are not described to the completion service.
pub open spec fn is_view_or_stream(engine: Seq<char>) -> bool {
    engine == "VIEW"@ || engine == "STREAM"@
}

/// The description of a table: `name(col1,col2,...)`.
pub open spec fn table_line(t: ListedTable) -> Seq<char> {
    t.name@ + "("@ + join(views(t.columns@), ","@) + ")"@
}

/// The descriptions of the tables that are neither views nor streams, one
/// after the other.
pub open spec fn table_lines(ts: Seq<ListedTable>) -> Seq<char>
    decreases ts.len(),
{
    if ts.len() == 0 {
        Seq::empty()
    } else {
        table_lines(ts.drop_last()) + (if is_view_or_stream(ts.last().engine@) {
            Seq::empty()
        } else {
            table_line(ts.last())
        })
    }
}

/// The prompt: a header, the tables, the question, and the start of the
/// answer, each part written right after the previous one.
pub open spec fn prompt_text(ts: Seq<ListedTable>, question: Seq<char>) -> Seq<char> {
    "### Postgres SQL tables, with their properties:"@ + "#"@ + table_lines(ts) + "#"@ + "### "@
        + question + "#"@ + "SELECT"@
}

/// Writes the prompt for the tables `tables` and the question `question`.
pub fn build_prompt(tables: &Vec<ListedTable>, question: &str) -> (p: String)
    ensures
        p@ == prompt_text(tables@, question@),
{
    let mut out = chars_of("### Postgres SQL tables, with their properties:");
    extend_str(&mut out, "#");
    let ghost head = out@;
    let mut i: usize = 0;
    while i < tables.len()
        invariant
            i <= tables.len(),
            out@ == head + table_lines(tables@.take(i as int)),
        decreases tables.len() - i,
    {
        assert(tables@.take(i + 1).drop_last() =~= tables@.take(i as int));
        let t = &tables[i];
        let skip = str_eq(t.engine.as_str(), "VIEW") || str_eq(t.engine.as_str(), "STREAM");
        if !skip {
            extend_str(&mut out, t.name.as_str());
            extend_str(&mut out, "(");
            let cols = join_strings(&t.columns, ",");
            extend_chars(&mut out, &cols);
            extend_str(&mut out, ")");
        }
        i = i + 1;
        assert(out@ =~= head + table_lines(tables@.take(i as int)));
    }
    assert(tables@.take(tables.len() as int) =~= tables@);
    extend_str(&mut out, "#");
    extend_str(&mut out, "### ");
    extend_str(&mut out, question);
    extend_str(&mut out, "#");
    extend_str(&mut out, "SELECT");
    assert(out@ =~= prompt_text(tables@, question@));
    string_of(&out)
}

/// The row the function returns: the current database and the SQL.
#[derive(Debug)]
pub struct GeneratedSql {
    pub database: String,
    pub generated_sql: String,
}

/// The source of the function's one row; it asks once, then is done.
#[derive(Debug)]
pub struct GPT2SQLSource {
    pub prompt: String,
    pub finished: bool,
}

impl GPT2SQLSource {
    pub fn create(prompt: String) -> (s: GPT2SQLSource)
        ensures
            s.prompt == prompt,
            !s.finished,
    {
        GPT2SQLSource { prompt, finished: false }
    }

    /// Whether the source still has its row to make, and so needs the
    /// tables of the current database; once done it returns no row and
    /// looks nothing up.
    pub fn needs_tables(&self) -> (b: bool)
        ensures
            b == !self.finished,
    {
        !self.finished
    }

    /// The prompt to send for the tables of the current database, or
    /// nothing once the row was made.
    pub fn request(&self, tables: &Vec<ListedTable>) -> (r: Option<String>)
        ensures
            self.finished ==> r is None,
            !self.finished ==> (r matches Some(p) && p@ == prompt_text(tables@, self.prompt@)),
    {
        if self.finished {
            None
        } else {
            Some(build_prompt(tables, self.prompt.as_str()))
        }
    }

    /// The row made of the service's `completion`, which continues the
    /// `SELECT` the prompt ends with; the source is then done.
    pub fn complete(&mut self, database: &str, completion: &str) -> (row: GeneratedSql)
        ensures
            row.database@ == database@,
            row.generated_sql@ == "SELECT "@ + completion@,
            final(self).finished,
            final(self).prompt == old(self).prompt,
    {
        let mut sql = chars_of("SELECT ");
        extend_str(&mut sql, completion);
        self.finished = true;
        GeneratedSql { database: database.to_owned(), generated_sql: string_of(&sql) }
    }
}

} // verus!
