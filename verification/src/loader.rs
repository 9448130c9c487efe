//! Loading a table from CSV data: a header line, then one record per person
//! with the key, the name, the gender and the city in that order.
//!
//! Splitting the bytes into records is the `csv` crate's work. Everything
//! after that is the store's: which records are persons, in which order they
//! go to the engine, and which failure ends the load.

use crate::decimal::{parse_i32, parsed_i32};
use crate::person::{people_view, Person, PersonView};
use crate::report::{loaded_line, loaded_view};
use crate::statement::insert_statement;
use crate::store::{run, StoreError};
use vstd::prelude::*;

verus! {

/// What the `csv` crate reads out of `data`: the fields of the records that
/// follow the header, up to the first record that it refuses, and its words
/// for that refusal where there is one.
pub uninterp spec fn csv_reading(data: Seq<u8>) -> (Seq<Seq<Seq<char>>>, Option<Seq<char>>);

/// Reads `data` with a `csv::Reader` that `csv::ReaderBuilder` makes with
/// its defaults and the header line switched on, and walks
/// `Reader::records` to its end or to its first error. The result is the
/// fields of the records before that point, as `String`s, and the error's
/// `Display` text. Reading bytes in memory depends on nothing but the
/// bytes, which is all that the contract claims: the result is
/// `csv_reading` of them.
#[verifier::external_body]
pub(crate) fn read_records(data: &[u8]) -> (out: (Vec<Vec<String>>, Option<String>))
    ensures
        out.0.deep_view() == csv_reading(data@).0,
        out.1.deep_view() == csv_reading(data@).1,
{
    let mut reader = csv::ReaderBuilder::new().has_headers(true).from_reader(data);
    let mut records: Vec<Vec<String>> = Vec::new();
    for item in reader.records() {
        match item {
            Ok(record) => records.push(record.iter().map(String::from).collect()),
            Err(error) => return (records, Some(error.to_string())),
        }
    }
    (records, None)
}

/// Why a record is no person.
#[derive(Debug, Clone, Copy, PartialEq, Eq, Structural)]
pub enum RecordError {
    /// It has fewer than four fields.
    MissingColumn,
    /// Its first field is no decimal number that fits in an `i32`.
    InvalidId,
}

/// The person that a record's fields denote: the first field read as the
/// key, the next three taken as they are, any further field ignored. The key
/// is looked at first, so a record that is short and has a bad key is
/// reported for its key.
pub open spec fn person_of(fields: Seq<Seq<char>>) -> Result<PersonView, RecordError> {
    if fields.len() == 0 {
        Err(RecordError::MissingColumn)
    } else if parsed_i32(fields[0]) is None {
        Err(RecordError::InvalidId)
    } else if fields.len() < 4 {
        Err(RecordError::MissingColumn)
    } else {
        Ok(
            PersonView {
                id: parsed_i32(fields[0])->0 as int,
                name: fields[1],
                gender: fields[2],
                city: fields[3],
            },
        )
    }
}

/// Whether each of the first `count` records is a person.
pub open spec fn well_formed_until(records: Seq<Seq<Seq<char>>>, count: int) -> bool {
    forall|i: int| 0 <= i < count ==> (#[trigger] person_of(records[i])) is Ok
}

/// The persons of the first `count` records. Meaningful where each of them
/// is one.
pub open spec fn persons_until(records: Seq<Seq<Seq<char>>>, count: int) -> Seq<PersonView> {
    Seq::new(count as nat, |i: int| person_of(records[i])->Ok_0)
}

/// Whether `row` is the first record that is no person.
pub open spec fn first_malformed(records: Seq<Seq<Seq<char>>>, row: int) -> bool {
    &&& 0 <= row < records.len()
    &&& well_formed_until(records, row)
    &&& person_of(records[row]) is Err
}

/// Turns the fields of one record into a person, or says why they are none.
pub fn person_from_record(fields: &Vec<String>) -> (res: Result<Person, RecordError>)
    ensures
        match res {
            Ok(p) => person_of(fields.deep_view()) == Ok::<PersonView, RecordError>(p@),
            Err(e) => person_of(fields.deep_view()) == Err::<PersonView, RecordError>(e),
        },
{
    let ghost view = fields.deep_view();
    if fields.len() == 0 {
        return Err(RecordError::MissingColumn);
    }
    assert(view[0] == fields@[0]@);
    let id = match parse_i32(fields[0].as_str()) {
        Some(id) => id,
        None => {
            return Err(RecordError::InvalidId);
        },
    };
    if fields.len() < 4 {
        return Err(RecordError::MissingColumn);
    }
    assert(view[1] == fields@[1]@);
    assert(view[2] == fields@[2]@);
    assert(view[3] == fields@[3]@);
    Ok(Person { id, name: fields[1].clone(), gender: fields[2].clone(), city: fields[3].clone() })
}

/// Turns records into persons, in their order, up to the first record that
/// is none. The result is those persons and, where a record stopped the
/// walk, its index and what is wrong with it.
pub fn people_from_records(records: &Vec<Vec<String>>) -> (res: (
    Vec<Person>,
    Option<(usize, RecordError)>,
))
    ensures
        well_formed_until(records.deep_view(), res.0@.len() as int),
        people_view(res.0@) == persons_until(records.deep_view(), res.0@.len() as int),
        match res.1 {
            None => res.0@.len() == records@.len(),
            Some((row, e)) => row == res.0@.len() && first_malformed(records.deep_view(), row as int)
                && person_of(records.deep_view()[row as int]) == Err::<PersonView, RecordError>(e),
        },
{
    let ghost view = records.deep_view();
    let mut people: Vec<Person> = Vec::new();
    let mut i: usize = 0;
    while i < records.len()
        invariant
            i <= records.len(),
            view == records.deep_view(),
            people@.len() == i,
            well_formed_until(view, i as int),
            people_view(people@) == persons_until(view, i as int),
        decreases records.len() - i,
    {
        assert(view[i as int] == records@[i as int].deep_view());
        match person_from_record(&records[i]) {
            Ok(person) => {
                let ghost before = people@;
                people.push(person);
                proof {
                    assert(people_view(people@) =~= persons_until(view, i + 1)) by {
                        assert forall|k: int| 0 <= k < i + 1 implies people_view(people@)[k]
                            == persons_until(view, i + 1)[k] by {
                            if k < i {
                                assert(people_view(before)[k] == persons_until(view, i as int)[k]);
                            }
                        }
                    }
                }
            },
            Err(e) => {
                return (people, Some((i, e)));
            },
        }
        i += 1;
    }
    (people, None)
}

/// Data in which every record is a person gives one person for each record,
/// and the person of a record has the record's first field, read as a
/// number, for its key and the next three fields for its name, gender and
/// city.
pub proof fn lemma_persons_follow_fields(records: Seq<Seq<Seq<char>>>, i: int)
    requires
        well_formed_until(records, records.len() as int),
        0 <= i < records.len(),
    ensures
        persons_until(records, records.len() as int).len() == records.len(),
        records[i].len() >= 4,
        parsed_i32(records[i][0]) is Some,
        persons_until(records, records.len() as int)[i] == (PersonView {
            id: parsed_i32(records[i][0])->0 as int,
            name: records[i][1],
            gender: records[i][2],
            city: records[i][3],
        }),
{
    assert(person_of(records[i]) is Ok);
}

/// Why a load ended early.
#[derive(Debug, Clone, PartialEq, Eq)]
pub enum LoadError {
    /// The data is no CSV that the reader accepts; the text is the reader's.
    Csv(String),
    /// The record with this index, counted from 0 behind the header, has
    /// fewer than four fields.
    MissingColumn { row: usize },
    /// The first field of the record with this index is no key.
    InvalidId { row: usize },
    /// The engine refused an insert.
    Store(StoreError),
}

/// Whether `res` is a result that `reading` allows for a load. Where the
/// first record is a person there is an insert, and the engine may refuse
/// it. Every other result is what the data makes it: the first record that
/// is no person ends the load with its index and its fault; without such a
/// record a refusal of the reader, which lies behind every record read, ends
/// it; without either the load goes through and reports `report`.
pub open spec fn follows_data(
    reading: (Seq<Seq<Seq<char>>>, Option<Seq<char>>),
    report: Seq<char>,
    res: Result<String, LoadError>,
) -> bool {
    let records = reading.0;
    match res {
        Ok(line) => well_formed_until(records, records.len() as int) && reading.1 is None && line@
            == report,
        Err(LoadError::MissingColumn { row }) => first_malformed(records, row as int) && person_of(
            records[row as int],
        ) == Err::<PersonView, RecordError>(RecordError::MissingColumn),
        Err(LoadError::InvalidId { row }) => first_malformed(records, row as int) && person_of(
            records[row as int],
        ) == Err::<PersonView, RecordError>(RecordError::InvalidId),
        Err(LoadError::Csv(text)) => well_formed_until(records, records.len() as int) && reading.1
            == Some(text@),
        Err(LoadError::Store(e)) => records.len() > 0 && person_of(records[0]) is Ok && !(e
            is NotFound),
    }
}

/// Well-formed data loads: where every record is a person and the reader
/// refuses nothing, a load either reports success or was stopped by the
/// engine.
pub proof fn lemma_well_formed_data_loads(
    reading: (Seq<Seq<Seq<char>>>, Option<Seq<char>>),
    report: Seq<char>,
    res: Result<String, LoadError>,
)
    requires
        follows_data(reading, report, res),
        well_formed_until(reading.0, reading.0.len() as int),
        reading.1 is None,
    ensures
        match res {
            Ok(line) => line@ == report,
            Err(e) => e is Store,
        },
{
    match res {
        Err(LoadError::MissingColumn { row }) => {
            assert(person_of(reading.0[row as int]) is Ok);
        },
        Err(LoadError::InvalidId { row }) => {
            assert(person_of(reading.0[row as int]) is Ok);
        },
        _ => {},
    }
}

/// The end of a load whose rows the engine has all accepted: the failure
/// that the data holds, or the report.
pub fn finish_load(
    malformed: Option<(usize, RecordError)>,
    refusal: Option<String>,
    line: String,
) -> (res: Result<String, LoadError>)
    ensures
        res == match malformed {
            Some((row, RecordError::MissingColumn)) => Err::<String, LoadError>(
                LoadError::MissingColumn { row },
            ),
            Some((row, RecordError::InvalidId)) => Err(LoadError::InvalidId { row }),
            None => match refusal {
                Some(text) => Err(LoadError::Csv(text)),
                None => Ok(line),
            },
        },
{
    match malformed {
        Some((row, RecordError::MissingColumn)) => Err(LoadError::MissingColumn { row }),
        Some((row, RecordError::InvalidId)) => Err(LoadError::InvalidId { row }),
        None => match refusal {
            Some(text) => Err(LoadError::Csv(text)),
            None => Ok(line),
        },
    }
}

/// Inserts `people` into `table_name`, one statement for each and in their
/// order, and stops at the first that the engine refuses.
pub fn insert_all(conn: &rusqlite::Connection, table_name: &str, people: &Vec<Person>) -> (res:
    Result<usize, StoreError>)
    ensures
        match res {
            Ok(count) => count == people@.len(),
            Err(e) => people@.len() > 0 && !(e is NotFound),
        },
{
    let mut i: usize = 0;
    while i < people.len()
        invariant
            i <= people.len(),
        decreases people.len() - i,
    {
        let person = &people[i];
        let statement = insert_statement(
            table_name,
            person.id,
            person.name.as_str(),
            person.gender.as_str(),
            person.city.as_str(),
        );
        match run(conn, &statement) {
            Ok(_) => {},
            Err(e) => {
                return Err(e);
            },
        }
        i += 1;
    }
    Ok(i)
}

/// Loads the CSV `data` into the table `table_name`, which must be there:
/// the first line is the header and is skipped, each record behind it is
/// inserted as one person with a statement of its own. The first record that
/// is no person, the first insert that the engine refuses, or the reader's
/// refusal ends the load; the rows inserted up to then stay. `file_path` is
/// where the data came from and only shows in the report.
///
/// Unless the engine refuses an insert, the result depends on the data
/// alone, as `follows_data` says; data without a person in its first record
/// never reaches the engine.
pub fn load_data_from_csv(
    conn: &rusqlite::Connection,
    table_name: &str,
    file_path: &str,
    data: &[u8],
) -> (res: Result<String, LoadError>)
    ensures
        follows_data(csv_reading(data@), loaded_view(file_path@, table_name@), res),
{
    let (records, refusal) = read_records(data);
    let (people, malformed) = people_from_records(&records);
    match insert_all(conn, table_name, &people) {
        Ok(_) => {},
        Err(e) => {
            return Err(LoadError::Store(e));
        },
    }
    finish_load(malformed, refusal, loaded_line(file_path, table_name))
}

} // verus!
