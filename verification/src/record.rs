//! A ready-made record type: a named integer value, the store's own
//! implementation of the `Persist` capability. Its documents are TOML tables
//! with an `id` string and a `value` integer, encoded and decoded by the
//! `toml` crate.

use vstd::prelude::*;
use crate::pathname::{check_path_safe, is_path_safe};
use crate::store::Persist;

verus! {

/// A named integer value. The identity names this record's file; the payload
/// is what the file stores beside it.
pub struct Record {
    /// The identity: stable, path safe, names this record's file.
    pub id: String,
    /// The payload.
    pub value: i64,
}

/// The model of a `Record`: its fields as mathematical values.
pub struct RecordModel {
    pub id: Seq<char>,
    pub value: i64,
}

impl View for Record {
    type V = RecordModel;

    open spec fn view(&self) -> RecordModel {
        RecordModel { id: self.id@, value: self.value }
    }
}

/// The document the `toml` crate writes for a record with the given fields.
pub uninterp spec fn record_doc(id: Seq<char>, value: i64) -> Seq<char>;

/// What decoding a document as a record yields: the `id` string and `value`
/// integer of the table the text denotes, or nothing where the text is not a
/// well-formed table carrying those two entries.
pub uninterp spec fn record_parse(s: Seq<char>) -> Option<(Seq<char>, i64)>;

/// Relies on `toml::to_string_pretty`: serializing a table of two scalar
/// entries (`id` a string, `value` an integer) always succeeds, the output is
/// a function of the two fields alone, and `toml::from_str` reads the same
/// two fields back from that output.
#[verifier::external_body]
fn encode_record_fields(id: &str, value: i64) -> (r: String)
    ensures
        r@ == record_doc(id@, value),
        record_parse(r@) == Some((id@, value)),
{
    let mut table = toml::Table::new();
    table.insert("id".to_owned(), toml::Value::String(id.to_owned()));
    table.insert("value".to_owned(), toml::Value::Integer(value));
    toml::to_string_pretty(&table).unwrap()
}

/// Relies on `toml::from_str::<toml::Table>` and the `toml::Value` accessors:
/// what a document decodes to is a function of its text alone.
#[verifier::external_body]
fn decode_record_fields(s: &str) -> (r: Option<(String, i64)>)
    ensures
        match r {
            Some(p) => record_parse(s@) == Some((p.0@, p.1)),
            None => record_parse(s@) is None,
        },
{
    let table: toml::Table = match toml::from_str(s) {
        Ok(t) => t,
        Err(_) => return None,
    };
    let id = match table.get("id").and_then(|v| v.as_str()) {
        Some(x) => x.to_owned(),
        None => return None,
    };
    let value = match table.get("value").and_then(|v| v.as_integer()) {
        Some(x) => x,
        None => return None,
    };
    Some((id, value))
}

impl Record {
    /// Makes a record, rejecting an identity that is not path safe.
    pub fn new(id: String, value: i64) -> (r: Option<Record>)
        ensures
            match r {
                Some(rec) => rec.inv() && rec@ == (RecordModel { id: id@, value }),
                None => !is_path_safe(id@),
            },
    {
        if check_path_safe(id.as_str()) {
            Some(Record { id, value })
        } else {
            None
        }
    }
}

impl Persist for Record {
    open spec fn inv(&self) -> bool {
        is_path_safe(self.id@)
    }

    open spec fn serial(&self) -> Seq<char> {
        record_doc(self.id@, self.value)
    }

    open spec fn parse_spec(s: Seq<char>) -> Option<RecordModel> {
        match record_parse(s) {
            Some(p) => if is_path_safe(p.0) {
                Some(RecordModel { id: p.0, value: p.1 })
            } else {
                None
            },
            None => None,
        }
    }

    open spec fn spec_name(&self) -> Seq<char> {
        self.id@
    }

    open spec fn spec_dir_name() -> Seq<char> {
        "records"@
    }

    fn name(&self) -> (r: String) {
        self.id.clone()
    }

    fn dir_name() -> (r: String) {
        "records".to_owned()
    }

    fn to_toml(&self) -> (r: String) {
        encode_record_fields(self.id.as_str(), self.value)
    }

    fn from_toml(s: &str) -> (r: Option<Record>) {
        match decode_record_fields(s) {
            Some((id, value)) => {
                if check_path_safe(id.as_str()) {
                    Some(Record { id, value })
                } else {
                    None
                }
            },
            None => None,
        }
    }
}

} // verus!
