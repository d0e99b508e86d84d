//! The singleton store: at most one persisted value per type, with a choice
//! of policy when the file is missing at load time.

use vstd::prelude::*;
use crate::pathname::{DirPolicy, is_path_safe, join_path, joined_path, resolve_dir, resolved_dir};

verus! {

/// An at-most-one-per-type persisted value, such as a configuration. A type
/// opts in by fixing one name and one directory name for the whole type, by
/// encoding and decoding itself, and by producing a baseline value for first
/// use; the store derives the file path and the load decision from those.
pub trait SingletonPersist: View + Sized {
    /// The value is internally consistent.
    spec fn inv(&self) -> bool;

    /// The document this value serializes to.
    spec fn serial(&self) -> Seq<char>;

    /// What decoding a document yields, at the model level: `None` exactly on
    /// the documents the type rejects.
    spec fn parse_spec(s: Seq<char>) -> Option<Self::V>;

    /// The type-level name, at the spec level.
    spec fn spec_name() -> Seq<char>;

    /// The directory name of this type, at the spec level.
    spec fn spec_dir_name() -> Seq<char>;

    /// The model of the baseline value a first load materializes.
    spec fn default_model() -> Self::V;

    /// The fixed, path-safe name of the type: there is one file per type, and
    /// it is named after this.
    fn name() -> (r: String)
        ensures
            r@ == Self::spec_name(),
            is_path_safe(r@),
    ;

    /// The directory name this type's one file lives under.
    fn dir_name() -> (r: String)
        ensures
            r@ == Self::spec_dir_name(),
    ;

    /// The baseline value: what a first load persists and returns when no
    /// file exists yet.
    fn fresh() -> (r: Self)
        ensures
            r.inv(),
            r@ == Self::default_model(),
    ;

    /// Serializes the value to its document. The document decodes back to
    /// this very value: a save followed by a load loses nothing.
    fn to_toml(&self) -> (r: String)
        requires
            self.inv(),
        ensures
            r@ == self.serial(),
            Self::parse_spec(r@) == Some(self@),
    ;

    /// Decodes a document; `None` exactly on the documents the type rejects.
    /// For a singleton a rejected document is fatal to the load: there is no
    /// other file to fall back on.
    fn from_toml(s: &str) -> (r: Option<Self>)
        ensures
            match r {
                Some(v) => Self::parse_spec(s@) == Some(v@) && v.inv(),
                None => Self::parse_spec(s@) is None,
            },
    ;

    /// The file the singleton lives at: `<resolved directory>/<name>.toml`,
    /// one path per type, a pure function of the directory and the name.
    fn path(policy: &DirPolicy) -> (r: String)
        ensures
            r@ == joined_path(resolved_dir(*policy, Self::spec_dir_name()), Self::spec_name()),
    {
        let dir_name = Self::dir_name();
        let dir = resolve_dir(policy, dir_name.as_str());
        let name = Self::name();
        join_path(dir.as_str(), name.as_str())
    }
}

/// What a singleton load does when its file is missing.
pub enum MissingPolicy {
    /// Materialize the baseline value: persist it, then read it back, so the
    /// file exists from then on.
    DefaultOnMissing,
    /// Fail the load outright.
    Strict,
}

/// The step a singleton load takes, decided before any file is touched.
pub enum LoadPlan<T> {
    /// The file exists: read it and decode it, writing nothing. A rejected
    /// document is fatal.
    ReadExisting,
    /// The file is missing under the defaulting policy: write `doc` at the
    /// singleton's path, then proceed as if the file had existed. `value` is
    /// the baseline the document encodes, and what the read-back returns.
    CreateDefault { doc: String, value: T },
    /// The file is missing under the strict policy: the load fails.
    Fail,
}

/// Decides what a singleton load does, from the policy and from whether the
/// file exists. Only a missing file under the defaulting policy writes
/// anything, and what it writes decodes to exactly the baseline value.
pub fn plan_load<T: SingletonPersist>(policy: &MissingPolicy, file_exists: bool) -> (r: LoadPlan<
    T,
>)
    ensures
        file_exists ==> r is ReadExisting,
        !file_exists && policy is DefaultOnMissing ==> match r {
            LoadPlan::CreateDefault { doc, value } => value.inv() && value@ == T::default_model()
                && doc@ == value.serial() && T::parse_spec(doc@) == Some(T::default_model()),
            _ => false,
        },
        !file_exists && policy is Strict ==> r is Fail,
{
    if file_exists {
        LoadPlan::ReadExisting
    } else {
        match policy {
            MissingPolicy::DefaultOnMissing => {
                let value = T::fresh();
                let doc = value.to_toml();
                LoadPlan::CreateDefault { doc, value }
            },
            MissingPolicy::Strict => LoadPlan::Fail,
        }
    }
}

/// Law: a load is idempotent. Once the file exists — and after any load under
/// the defaulting policy it does — a further load with no intervening save
/// writes nothing (`plan_load` answers `ReadExisting`), and two loads that
/// decoded the one untouched document return equal values: decoding is a pure
/// function of the document.
pub proof fn lemma_load_idempotent<T: SingletonPersist>(doc: Seq<char>, first: T::V, second: T::V)
    requires
        T::parse_spec(doc) == Some(first),
        T::parse_spec(doc) == Some(second),
    ensures
        first == second,
{
}

} // verus!
