//! The SQL statements that the store sends to the engine.
//!
//! A statement is its text and the values bound to its `?` placeholders, in
//! order. The table's name goes into the text as the caller gave it; every
//! value of a row travels as a bound value, never as text.

use vstd::prelude::*;

verus! {

/// A value bound to a placeholder.
#[derive(Debug, Clone, PartialEq, Eq)]
pub enum SqlValue {
    Integer(i32),
    Text(String),
}

/// What a bound value is, as mathematics.
pub enum SqlValueView {
    Integer(int),
    Text(Seq<char>),
}

impl View for SqlValue {
    type V = SqlValueView;

    open spec fn view(&self) -> SqlValueView {
        match self {
            SqlValue::Integer(i) => SqlValueView::Integer(*i as int),
            SqlValue::Text(t) => SqlValueView::Text(t@),
        }
    }
}

/// A statement ready to be run: its text and its bound values.
#[derive(Debug, Clone, PartialEq, Eq)]
pub struct Statement {
    pub sql: String,
    pub params: Vec<SqlValue>,
}

/// What a statement is, as mathematics.
pub struct StatementView {
    pub sql: Seq<char>,
    pub params: Seq<SqlValueView>,
}

impl View for Statement {
    type V = StatementView;

    open spec fn view(&self) -> StatementView {
        StatementView { sql: self.sql@, params: self.params@.map_values(|p: SqlValue| p@) }
    }
}

/// Whether `c` may stand in a plain name: an ASCII letter, a digit or `_`.
pub open spec fn is_name_char(c: char) -> bool {
    ('a' <= c && c <= 'z') || ('A' <= c && c <= 'Z') || ('0' <= c && c <= '9') || c == '_'
}

/// Whether `name` is a plain identifier: not empty, made of ASCII letters,
/// digits and `_`, and not beginning with a digit. Such a name has no blank,
/// quote, semicolon or placeholder in it, so it cannot bring SQL of its own
/// into a statement.
pub open spec fn plain_name(name: Seq<char>) -> bool {
    &&& name.len() > 0
    &&& !('0' <= name[0] && name[0] <= '9')
    &&& forall|i: int| 0 <= i < name.len() ==> is_name_char(#[trigger] name[i])
}

/// Tells whether `name` is a plain identifier. The statements of this module
/// take a table's name as it is given; a caller that has the name from
/// outside can hold it to this first.
pub fn is_plain_name(name: &str) -> (res: bool)
    ensures
        res == plain_name(name@),
{
    if !name.is_ascii() {
        proof {
            let k = choose|k: int|
                0 <= k < name@.len() && !('\0' <= #[trigger] name@[k] <= '\u{7f}');
            assert(!is_name_char(name@[k]));
        }
        return false;
    }
    let bytes = name.as_bytes();
    let n = bytes.len();
    proof {
        vstd::string::is_ascii_spec_bytes(name);
    }
    if n == 0 {
        return false;
    }
    if 48u8 <= bytes[0] && bytes[0] <= 57u8 {
        return false;
    }
    let mut i: usize = 0;
    while i < n
        invariant
            i <= n,
            n == name@.len(),
            vstd::utf8::is_ascii_chars(name@),
            bytes@ == Seq::new(name@.len(), |k: int| name@[k] as u8),
            forall|k: int| 0 <= k < i ==> is_name_char(#[trigger] name@[k]),
        decreases n - i,
    {
        let b = bytes[i];
        assert(b == name@[i as int] as u8);
        let letter = (97u8 <= b && b <= 122u8) || (65u8 <= b && b <= 90u8);
        let digit = 48u8 <= b && b <= 57u8;
        if !(letter || digit || b == 95u8) {
            assert(!is_name_char(name@[i as int]));
            return false;
        }
        assert(is_name_char(name@[i as int]));
        i += 1;
    }
    true
}

/// The view of a text that may be absent.
pub open spec fn text_of(field: Option<&str>) -> Option<Seq<char>> {
    match field {
        Some(t) => Some(t@),
        None => None,
    }
}

/// The statement that creates the four-column table `table` unless it is
/// there already.
pub open spec fn create_table_view(table: Seq<char>) -> StatementView {
    StatementView {
        sql: "CREATE TABLE IF NOT EXISTS "@ + table
            + " (id INTEGER PRIMARY KEY, name TEXT NOT NULL, gender TEXT NOT NULL, city TEXT NOT NULL)"@,
        params: Seq::empty(),
    }
}

/// The statement that drops `table` if it is there.
pub open spec fn drop_table_view(table: Seq<char>) -> StatementView {
    StatementView { sql: "DROP TABLE IF EXISTS "@ + table, params: Seq::empty() }
}

/// The query for every row of `table`.
pub open spec fn select_all_view(table: Seq<char>) -> StatementView {
    StatementView { sql: "SELECT * FROM "@ + table, params: Seq::empty() }
}

/// The statement that inserts one row into `table`: the key, then the three
/// texts, bound in the order of the columns.
pub open spec fn insert_view(
    table: Seq<char>,
    id: int,
    name: Seq<char>,
    gender: Seq<char>,
    city: Seq<char>,
) -> StatementView {
    StatementView {
        sql: "INSERT INTO "@ + table + " (id, name, gender, city) VALUES (?, ?, ?, ?)"@,
        params: seq![
            SqlValueView::Integer(id),
            SqlValueView::Text(name),
            SqlValueView::Text(gender),
            SqlValueView::Text(city),
        ],
    }
}

/// The statement that deletes the row of `table` whose key is `id`.
pub open spec fn delete_view(table: Seq<char>, id: int) -> StatementView {
    StatementView {
        sql: "DELETE FROM "@ + table + " WHERE id = ?"@,
        params: seq![SqlValueView::Integer(id)],
    }
}

/// One column of an update and its new value, where a value is given.
pub open spec fn assignment(column: Seq<char>, value: Option<Seq<char>>) -> Seq<
    (Seq<char>, Seq<char>),
> {
    match value {
        Some(v) => seq![(column, v)],
        None => Seq::empty(),
    }
}

/// The columns that an update assigns, each with its new value, in the order
/// name, gender, city: a column is among them if and only if a value is given
/// for it.
pub open spec fn assignments(
    name: Option<Seq<char>>,
    gender: Option<Seq<char>>,
    city: Option<Seq<char>>,
) -> Seq<(Seq<char>, Seq<char>)> {
    assignment("name"@, name) + assignment("gender"@, gender) + assignment("city"@, city)
}

/// `parts` written one after the other with `separator` between neighbours.
pub open spec fn joined(parts: Seq<Seq<char>>, separator: Seq<char>) -> Seq<char>
    decreases parts.len(),
{
    if parts.len() == 0 {
        Seq::empty()
    } else if parts.len() == 1 {
        parts[0]
    } else {
        joined(parts.drop_last(), separator) + separator + parts.last()
    }
}

/// The text `column = ?`.
pub open spec fn placeholder_for(column: Seq<char>) -> Seq<char> {
    column + " = ?"@
}

/// The statement that gives the row of `table` with key `id` the values of
/// `given`: one `column = ?` for each, then the key. Meaningful where `given`
/// is not empty.
pub open spec fn update_of(table: Seq<char>, id: int, given: Seq<(Seq<char>, Seq<char>)>)
    -> StatementView {
    StatementView {
        sql: "UPDATE "@ + table + " SET "@ + joined(
            given.map_values(|a: (Seq<char>, Seq<char>)| placeholder_for(a.0)),
            ", "@,
        ) + " WHERE id = ?"@,
        params: given.map_values(|a: (Seq<char>, Seq<char>)| SqlValueView::Text(a.1)).push(
            SqlValueView::Integer(id),
        ),
    }
}

/// The update of the row with key `id`, or nothing where no new value is
/// given: then there is nothing to run.
pub open spec fn update_view(
    table: Seq<char>,
    id: int,
    name: Option<Seq<char>>,
    gender: Option<Seq<char>>,
    city: Option<Seq<char>>,
) -> Option<StatementView> {
    let given = assignments(name, gender, city);
    if given.len() == 0 {
        None
    } else {
        Some(update_of(table, id, given))
    }
}

/// Builds `CREATE TABLE IF NOT EXISTS` for `table_name`.
pub fn create_table_statement(table_name: &str) -> (s: Statement)
    ensures
        s@ == create_table_view(table_name@),
{
    let mut sql = String::from_str("CREATE TABLE IF NOT EXISTS ");
    sql.append(table_name);
    sql.append(
        " (id INTEGER PRIMARY KEY, name TEXT NOT NULL, gender TEXT NOT NULL, city TEXT NOT NULL)",
    );
    let s = Statement { sql, params: Vec::new() };
    assert(s@.params =~= Seq::empty());
    s
}

/// Builds `DROP TABLE IF EXISTS` for `table_name`.
pub fn drop_table_statement(table_name: &str) -> (s: Statement)
    ensures
        s@ == drop_table_view(table_name@),
{
    let mut sql = String::from_str("DROP TABLE IF EXISTS ");
    sql.append(table_name);
    let s = Statement { sql, params: Vec::new() };
    assert(s@.params =~= Seq::empty());
    s
}

/// Builds the query for every row of `table_name`.
pub fn select_all_statement(table_name: &str) -> (s: Statement)
    ensures
        s@ == select_all_view(table_name@),
{
    let mut sql = String::from_str("SELECT * FROM ");
    sql.append(table_name);
    let s = Statement { sql, params: Vec::new() };
    assert(s@.params =~= Seq::empty());
    s
}

/// Builds the insert of one row into `table_name`.
pub fn insert_statement(table_name: &str, id: i32, name: &str, gender: &str, city: &str) -> (s:
    Statement)
    ensures
        s@ == insert_view(table_name@, id as int, name@, gender@, city@),
{
    let mut sql = String::from_str("INSERT INTO ");
    sql.append(table_name);
    sql.append(" (id, name, gender, city) VALUES (?, ?, ?, ?)");
    let mut params: Vec<SqlValue> = Vec::new();
    params.push(SqlValue::Integer(id));
    params.push(SqlValue::Text(name.to_owned()));
    params.push(SqlValue::Text(gender.to_owned()));
    params.push(SqlValue::Text(city.to_owned()));
    let s = Statement { sql, params };
    assert(s@.params =~= insert_view(table_name@, id as int, name@, gender@, city@).params);
    s
}

/// Builds the delete of the row of `table_name` with key `id`.
pub fn delete_statement(table_name: &str, id: i32) -> (s: Statement)
    ensures
        s@ == delete_view(table_name@, id as int),
{
    let mut sql = String::from_str("DELETE FROM ");
    sql.append(table_name);
    sql.append(" WHERE id = ?");
    let mut params: Vec<SqlValue> = Vec::new();
    params.push(SqlValue::Integer(id));
    let s = Statement { sql, params };
    assert(s@.params =~= delete_view(table_name@, id as int).params);
    s
}

/// The views of a list of texts.
pub open spec fn texts_of(parts: Seq<&str>) -> Seq<Seq<char>> {
    parts.map_values(|p: &str| p@)
}

/// Writes `parts` one after the other with `separator` between neighbours.
pub fn join(parts: &Vec<&str>, separator: &str) -> (out: String)
    ensures
        out@ == joined(texts_of(parts@), separator@),
{
    let mut out = String::new();
    let mut i: usize = 0;
    while i < parts.len()
        invariant
            i <= parts.len(),
            out@ == joined(texts_of(parts@).subrange(0, i as int), separator@),
        decreases parts.len() - i,
    {
        let ghost before = texts_of(parts@).subrange(0, i as int);
        let ghost after = texts_of(parts@).subrange(0, i + 1);
        if i > 0 {
            out.append(separator);
        }
        out.append(parts[i]);
        proof {
            assert(after.drop_last() =~= before);
            assert(after.last() == parts@[i as int]@);
            assert(out@ =~= joined(after, separator@));
        }
        i += 1;
    }
    assert(texts_of(parts@).subrange(0, i as int) =~= texts_of(parts@));
    out
}

/// Builds the update of the row of `table_name` with key `id`. A column is
/// assigned if and only if a new value is given for it; the values are bound
/// in the order name, gender, city, and the key last. Without any new value
/// there is no statement.
pub fn update_statement(
    table_name: &str,
    id: i32,
    new_name: Option<&str>,
    new_gender: Option<&str>,
    new_city: Option<&str>,
) -> (res: Option<Statement>)
    ensures
        res is Some <==> new_name is Some || new_gender is Some || new_city is Some,
        match res {
            Some(s) => Some(s@) == update_view(
                table_name@,
                id as int,
                text_of(new_name),
                text_of(new_gender),
                text_of(new_city),
            ),
            None => update_view(
                table_name@,
                id as int,
                text_of(new_name),
                text_of(new_gender),
                text_of(new_city),
            ) is None,
        },
{
    let mut updates: Vec<&str> = Vec::new();
    let mut params: Vec<SqlValue> = Vec::new();
    let ghost mut given: Seq<(Seq<char>, Seq<char>)> = Seq::empty();
    if let Some(name) = new_name {
        updates.push("name = ?");
        params.push(SqlValue::Text(name.to_owned()));
        proof {
            given = given.push(("name"@, name@));
        }
    }
    if let Some(gender) = new_gender {
        updates.push("gender = ?");
        params.push(SqlValue::Text(gender.to_owned()));
        proof {
            given = given.push(("gender"@, gender@));
        }
    }
    if let Some(city) = new_city {
        updates.push("city = ?");
        params.push(SqlValue::Text(city.to_owned()));
        proof {
            given = given.push(("city"@, city@));
        }
    }
    proof {
        lemma_placeholder_texts();
        assert(given =~= assignments(text_of(new_name), text_of(new_gender), text_of(new_city)));
        assert(texts_of(updates@) =~= given.map_values(
            |a: (Seq<char>, Seq<char>)| placeholder_for(a.0),
        ));
        assert(params@.map_values(|p: SqlValue| p@) =~= given.map_values(
            |a: (Seq<char>, Seq<char>)| SqlValueView::Text(a.1),
        ));
    }
    if updates.len() == 0 {
        return None;
    }
    let mut sql = String::from_str("UPDATE ");
    sql.append(table_name);
    sql.append(" SET ");
    let clause = join(&updates, ", ");
    sql.append(clause.as_str());
    sql.append(" WHERE id = ?");
    params.push(SqlValue::Integer(id));
    let s = Statement { sql, params };
    proof {
        assert(s@.params =~= update_of(table_name@, id as int, given).params);
        assert(s@.sql =~= update_of(table_name@, id as int, given).sql);
    }
    Some(s)
}

/// The columns that `given` assigns, in its order.
pub open spec fn columns_of(given: Seq<(Seq<char>, Seq<char>)>) -> Seq<Seq<char>> {
    given.map_values(|a: (Seq<char>, Seq<char>)| a.0)
}

/// An update assigns a column if and only if a new value is given for it:
/// a column without one is not among those that the statement sets.
pub proof fn lemma_update_assigns_what_is_given(
    name: Option<Seq<char>>,
    gender: Option<Seq<char>>,
    city: Option<Seq<char>>,
)
    ensures
        columns_of(assignments(name, gender, city)).contains("name"@) <==> name is Some,
        columns_of(assignments(name, gender, city)).contains("gender"@) <==> gender is Some,
        columns_of(assignments(name, gender, city)).contains("city"@) <==> city is Some,
{
    reveal_strlit("name");
    reveal_strlit("gender");
    reveal_strlit("city");
    assert("name"@ != "gender"@ && "name"@ != "city"@ && "gender"@ != "city"@) by {
        assert("name"@.len() == 4 && "gender"@.len() == 6);
        assert("name"@[0] == 'n' && "city"@[0] == 'c');
    }
    let given = assignments(name, gender, city);
    let columns = columns_of(given);
    let names = assignment("name"@, name);
    let genders = assignment("gender"@, gender);
    let cities = assignment("city"@, city);
    assert forall|i: int| 0 <= i < columns.len() implies (columns[i] == "name"@ && name is Some)
        || (columns[i] == "gender"@ && gender is Some) || (columns[i] == "city"@ && city is Some) by {
        if i < names.len() {
            assert(given[i] == names[i]);
        } else if i < names.len() + genders.len() {
            assert(given[i] == genders[i - names.len()]);
        } else {
            assert(given[i] == cities[i - names.len() - genders.len()]);
        }
    }
    if name is Some {
        assert(given[0] == names[0]);
        assert(columns[0] == "name"@);
    }
    if gender is Some {
        assert(given[names.len() as int] == genders[0]);
        assert(columns[names.len() as int] == "gender"@);
    }
    if city is Some {
        assert(given[(names.len() + genders.len()) as int] == cities[0]);
        assert(columns[(names.len() + genders.len()) as int] == "city"@);
    }
}

/// An update that gives a new city and nothing else is the statement
/// `UPDATE <table> SET city = ? WHERE id = ?` with the city and the key
/// bound: it names neither the name nor the gender.
pub proof fn lemma_update_of_city_alone(table: Seq<char>, id: int, city: Seq<char>)
    ensures
        update_view(table, id, None, None, Some(city)) == Some(
            StatementView {
                sql: "UPDATE "@ + table + " SET city = ? WHERE id = ?"@,
                params: seq![SqlValueView::Text(city), SqlValueView::Integer(id)],
            },
        ),
{
    let given = assignments(None, None, Some(city));
    assert(given =~= seq![("city"@, city)]);
    let parts = given.map_values(|a: (Seq<char>, Seq<char>)| placeholder_for(a.0));
    assert(parts.len() == 1 && parts[0] == placeholder_for("city"@));
    assert(joined(parts, ", "@) == "city"@ + " = ?"@);
    reveal_strlit(" SET ");
    reveal_strlit("city");
    reveal_strlit(" = ?");
    reveal_strlit(" WHERE id = ?");
    reveal_strlit(" SET city = ? WHERE id = ?");
    assert(" SET "@ + ("city"@ + " = ?"@) + " WHERE id = ?"@ =~= " SET city = ? WHERE id = ?"@);
    let built = update_of(table, id, given);
    assert(built.sql =~= "UPDATE "@ + table + (" SET "@ + ("city"@ + " = ?"@) + " WHERE id = ?"@));
    assert(built.sql =~= "UPDATE "@ + table + " SET city = ? WHERE id = ?"@);
    assert(built.params =~= seq![SqlValueView::Text(city), SqlValueView::Integer(id)]);
}

/// The three placeholder texts are their columns followed by ` = ?`.
proof fn lemma_placeholder_texts()
    ensures
        "name = ?"@ == placeholder_for("name"@),
        "gender = ?"@ == placeholder_for("gender"@),
        "city = ?"@ == placeholder_for("city"@),
{
    reveal_strlit("name = ?");
    reveal_strlit("gender = ?");
    reveal_strlit("city = ?");
    reveal_strlit("name");
    reveal_strlit("gender");
    reveal_strlit("city");
    reveal_strlit(" = ?");
    assert("name = ?"@ =~= "name"@ + " = ?"@);
    assert("gender = ?"@ =~= "gender"@ + " = ?"@);
    assert("city = ?"@ =~= "city"@ + " = ?"@);
}

} // verus!
