//! Records in comma-separated form, written out again as JSON or YAML:
//! every record becomes an object that maps the names of the first record
//! to its own fields.

use vstd::prelude::*;
use crate::error::TextError;
use crate::format::OutputFormat;

verus! {

/// The records that `input` holds in comma-separated form, the first of
/// them being the one that names the fields; or nothing, where `input` is
/// no such data.
pub uninterp spec fn csv_table(input: Seq<u8>) -> Option<Seq<Seq<Seq<char>>>>;

/// The objects `records`, one for each sequence of pairs of a name and a
/// value, written as a JSON array with line breaks and indentation; or
/// nothing, where the writer gives no text for them.
pub uninterp spec fn json_pretty(records: Seq<Seq<(Seq<char>, Seq<char>)>>) -> Option<Seq<char>>;

/// The objects `records`, one for each sequence of pairs of a name and a
/// value, written as a YAML sequence; or nothing, where the writer gives
/// no text for them.
pub uninterp spec fn yaml_text(records: Seq<Seq<(Seq<char>, Seq<char>)>>) -> Option<Seq<char>>;

/// Calls `csv::Reader::from_reader`, then `headers` once and `records`
/// to the end.
///
/// Trusted: whether the data is taken, and the records it then gives,
/// depend on the data alone. The first row handed back is the one that
/// names the fields, so there is always at least one row.
#[verifier::external_body]
fn read_table(input: &[u8]) -> (r: Option<Vec<Vec<String>>>)
    ensures
        r is Some <==> csv_table(input@) is Some,
        r matches Some(rows) ==> csv_table(input@) == Some(rows.deep_view()) && rows@.len() >= 1,
{
    let mut reader = ::csv::Reader::from_reader(input);
    let names = reader.headers().ok()?.iter().map(String::from).collect::<Vec<String>>();
    let mut rows = vec![names];
    for record in reader.records() {
        rows.push(record.ok()?.iter().map(String::from).collect());
    }
    Some(rows)
}

/// Collects each record into a `serde_json::Value` and calls
/// `serde_json::to_string_pretty` on the array of them.
///
/// Trusted: whether the call gives a text, and the text it then gives,
/// depend on the records alone.
#[verifier::external_body]
fn render_json(records: &Vec<Vec<(String, String)>>) -> (r: Option<String>)
    ensures
        r is Some <==> json_pretty(records.deep_view()) is Some,
        r matches Some(text) ==> json_pretty(records.deep_view()) == Some(text@),
{
    let values: Vec<::serde_json::Value> = records.iter().map(
        |record| record.iter().cloned().collect(),
    ).collect();
    ::serde_json::to_string_pretty(&values).ok()
}

/// Collects each record into a `serde_json::Value` and calls
/// `serde_yaml::to_string` on the array of them.
///
/// Trusted: whether the call gives a text, and the text it then gives,
/// depend on the records alone.
#[verifier::external_body]
fn render_yaml(records: &Vec<Vec<(String, String)>>) -> (r: Option<String>)
    ensures
        r is Some <==> yaml_text(records.deep_view()) is Some,
        r matches Some(text) ==> yaml_text(records.deep_view()) == Some(text@),
{
    let values: Vec<::serde_json::Value> = records.iter().map(
        |record| record.iter().cloned().collect(),
    ).collect();
    ::serde_yaml::to_string(&values).ok()
}

/// The fields of `record`, each paired with the name at its position. A
/// field without a name, or a name without a field, is left out.
pub open spec fn named_fields(names: Seq<Seq<char>>, record: Seq<Seq<char>>) -> Seq<
    (Seq<char>, Seq<char>),
> {
    Seq::new(
        if names.len() <= record.len() {
            names.len()
        } else {
            record.len()
        },
        |i: int| (names[i], record[i]),
    )
}

/// The records of a table, each as pairs of a name and a value: every row
/// after the first, paired with the first.
pub open spec fn named_records(rows: Seq<Seq<Seq<char>>>) -> Seq<Seq<(Seq<char>, Seq<char>)>> {
    if rows.len() == 0 {
        Seq::empty()
    } else {
        Seq::new((rows.len() - 1) as nat, |i: int| named_fields(rows[0], rows[i + 1]))
    }
}

/// What rendering `records` in `format` gives, if the writer gives a
/// text.
pub open spec fn rendered(format: OutputFormat, records: Seq<Seq<(Seq<char>, Seq<char>)>>) -> Option<
    Seq<char>,
> {
    match format {
        OutputFormat::Json => json_pretty(records),
        OutputFormat::Yaml => yaml_text(records),
    }
}

/// Pairs the fields of one record with the names of the fields.
pub fn name_fields(names: &Vec<String>, record: &Vec<String>) -> (pairs: Vec<(String, String)>)
    ensures
        pairs.deep_view() == named_fields(names.deep_view(), record.deep_view()),
{
    let count = if names.len() <= record.len() {
        names.len()
    } else {
        record.len()
    };
    let mut pairs: Vec<(String, String)> = Vec::new();
    let mut i: usize = 0;
    while i < count
        invariant
            i <= count,
            count <= names@.len(),
            count <= record@.len(),
            pairs@.len() == i,
            forall|j: int| 0 <= j < i ==> (#[trigger] pairs@[j]).0@ == names@[j]@ && pairs@[j].1@
                == record@[j]@,
        decreases count - i,
    {
        pairs.push((names[i].clone(), record[i].clone()));
        i = i + 1;
    }
    proof {
        let wanted = named_fields(names.deep_view(), record.deep_view());
        assert(pairs.deep_view().len() == wanted.len());
        assert forall|j: int| 0 <= j < wanted.len() implies pairs.deep_view()[j] == wanted[j] by {
            assert(pairs.deep_view()[j] == pairs@[j].deep_view());
            assert(names.deep_view()[j] == names@[j]@);
            assert(record.deep_view()[j] == record@[j]@);
        }
        assert(pairs.deep_view() =~= wanted);
    }
    pairs
}

/// Pairs every record of a table with the names in its first row.
pub fn name_records(rows: &Vec<Vec<String>>) -> (records: Vec<Vec<(String, String)>>)
    ensures
        records.deep_view() == named_records(rows.deep_view()),
{
    let mut records: Vec<Vec<(String, String)>> = Vec::new();
    if rows.len() == 0 {
        assert(records.deep_view() =~= named_records(rows.deep_view()));
        return records;
    }
    let mut i: usize = 1;
    while i < rows.len()
        invariant
            1 <= i <= rows@.len(),
            records@.len() == i - 1,
            forall|j: int|
                0 <= j < i - 1 ==> (#[trigger] records@[j]).deep_view() == named_fields(
                    rows@[0].deep_view(),
                    rows@[j + 1].deep_view(),
                ),
        decreases rows@.len() - i,
    {
        records.push(name_fields(&rows[0], &rows[i]));
        i = i + 1;
    }
    proof {
        let wanted = named_records(rows.deep_view());
        assert(records.deep_view().len() == wanted.len());
        assert forall|j: int| 0 <= j < wanted.len() implies records.deep_view()[j]
            == wanted[j] by {
            assert(records.deep_view()[j] == records@[j].deep_view());
            assert(rows.deep_view()[0] == rows@[0].deep_view());
            assert(rows.deep_view()[j + 1] == rows@[j + 1].deep_view());
        }
        assert(records.deep_view() =~= wanted);
    }
    records
}

/// What converting the data `input` to `format` gives: the text of its
/// named records, or the error of data that cannot be read or of records
/// that the writer gives no text for.
pub open spec fn convert_spec(input: Seq<u8>, format: OutputFormat) -> Result<Seq<char>, TextError> {
    match csv_table(input) {
        None => Err(TextError::InvalidRecords),
        Some(rows) => match rendered(format, named_records(rows)) {
            Some(text) => Ok(text),
            None => Err(TextError::RenderFailed),
        },
    }
}

/// Writes named records in the given syntax.
pub fn render(records: &Vec<Vec<(String, String)>>, format: OutputFormat) -> (r: Result<
    String,
    TextError,
>)
    ensures
        match rendered(format, records.deep_view()) {
            Some(text) => r matches Ok(written) && written@ == text,
            None => r == Err::<String, TextError>(TextError::RenderFailed),
        },
{
    let text = match format {
        OutputFormat::Json => render_json(records),
        OutputFormat::Yaml => render_yaml(records),
    };
    match text {
        Some(text) => Ok(text),
        None => Err(TextError::RenderFailed),
    }
}

/// Converts comma-separated records to the given syntax.
///
/// Data that cannot be read as records is an error. Data that can is
/// paired with the names of its first record and written out.
pub fn process_csv(input: &[u8], format: OutputFormat) -> (r: Result<String, TextError>)
    ensures
        match convert_spec(input@, format) {
            Ok(text) => r matches Ok(written) && written@ == text,
            Err(e) => r == Err::<String, TextError>(e),
        },
{
    match read_table(input) {
        None => Err(TextError::InvalidRecords),
        Some(rows) => render(&name_records(&rows), format),
    }
}

} // verus!
