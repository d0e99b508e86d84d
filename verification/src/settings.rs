//! A ready-made singleton type: a small configuration value, the store's own
//! implementation of the `SingletonPersist` capability. Its documents are
//! TOML tables with a `label` string and a `volume` integer, encoded and
//! decoded by the `toml` crate.

use vstd::prelude::*;
use crate::pathname::{is_path_safe, is_reserved_char};
use crate::singleton::SingletonPersist;

verus! {

/// A configuration value: at most one persisted instance per directory.
pub struct Settings {
    /// A free-form text field.
    pub label: String,
    /// An integer field.
    pub volume: i64,
}

/// The model of a `Settings` value: its fields as mathematical values.
pub struct SettingsModel {
    pub label: Seq<char>,
    pub volume: i64,
}

impl View for Settings {
    type V = SettingsModel;

    open spec fn view(&self) -> SettingsModel {
        SettingsModel { label: self.label@, volume: self.volume }
    }
}

/// The document the `toml` crate writes for a settings value with the given
/// fields.
pub uninterp spec fn settings_doc(label: Seq<char>, volume: i64) -> Seq<char>;

/// What decoding a document as a settings value yields: the `label` string
/// and `volume` integer of the table the text denotes, or nothing where the
/// text is not a well-formed table carrying those two entries.
pub uninterp spec fn settings_parse(s: Seq<char>) -> Option<(Seq<char>, i64)>;

/// Relies on `toml::to_string_pretty`: serializing a table of two scalar
/// entries (`label` a string, `volume` an integer) always succeeds, the
/// output is a function of the two fields alone, and `toml::from_str` reads
/// the same two fields back from that output.
#[verifier::external_body]
fn encode_settings_fields(label: &str, volume: i64) -> (r: String)
    ensures
        r@ == settings_doc(label@, volume),
        settings_parse(r@) == Some((label@, volume)),
{
    let mut table = toml::Table::new();
    table.insert("label".to_owned(), toml::Value::String(label.to_owned()));
    table.insert("volume".to_owned(), toml::Value::Integer(volume));
    toml::to_string_pretty(&table).unwrap()
}

/// Relies on `toml::from_str::<toml::Table>` and the `toml::Value` accessors:
/// what a document decodes to is a function of its text alone.
#[verifier::external_body]
fn decode_settings_fields(s: &str) -> (r: Option<(String, i64)>)
    ensures
        match r {
            Some(p) => settings_parse(s@) == Some((p.0@, p.1)),
            None => settings_parse(s@) is None,
        },
{
    let table: toml::Table = match toml::from_str(s) {
        Ok(t) => t,
        Err(_) => return None,
    };
    let label = match table.get("label").and_then(|v| v.as_str()) {
        Some(x) => x.to_owned(),
        None => return None,
    };
    let volume = match table.get("volume").and_then(|v| v.as_integer()) {
        Some(x) => x,
        None => return None,
    };
    Some((label, volume))
}

/// The type-level name of the settings singleton is path safe.
proof fn lemma_settings_name_safe()
    ensures
        is_path_safe("settings"@),
{
    reveal_strlit("settings");
    let s = "settings"@;
    assert(s[0] == 's' && s[1] == 'e' && s[2] == 't' && s[3] == 't' && s[4] == 'i' && s[5] == 'n'
        && s[6] == 'g' && s[7] == 's');
    assert forall|i: int| 0 <= i < s.len() implies !is_reserved_char(#[trigger] s[i]) by {}
}

impl Default for Settings {
    /// The baseline configuration: an empty label at volume zero.
    fn default() -> (r: Settings)
        ensures
            r.inv(),
            r@ == Settings::default_model(),
    {
        Settings { label: String::new(), volume: 0 }
    }
}

impl SingletonPersist for Settings {
    open spec fn inv(&self) -> bool {
        true
    }

    open spec fn serial(&self) -> Seq<char> {
        settings_doc(self.label@, self.volume)
    }

    open spec fn parse_spec(s: Seq<char>) -> Option<SettingsModel> {
        match settings_parse(s) {
            Some(p) => Some(SettingsModel { label: p.0, volume: p.1 }),
            None => None,
        }
    }

    open spec fn spec_name() -> Seq<char> {
        "settings"@
    }

    open spec fn spec_dir_name() -> Seq<char> {
        "config"@
    }

    open spec fn default_model() -> SettingsModel {
        SettingsModel { label: Seq::empty(), volume: 0 }
    }

    fn name() -> (r: String) {
        proof {
            lemma_settings_name_safe();
        }
        "settings".to_owned()
    }

    fn dir_name() -> (r: String) {
        "config".to_owned()
    }

    fn fresh() -> (r: Settings) {
        Settings::default()
    }

    fn to_toml(&self) -> (r: String) {
        encode_settings_fields(self.label.as_str(), self.volume)
    }

    fn from_toml(s: &str) -> (r: Option<Settings>) {
        match decode_settings_fields(s) {
            Some((label, volume)) => Some(Settings { label, volume }),
            None => None,
        }
    }
}

} // verus!
