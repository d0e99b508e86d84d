//! The record store: multi-instance, named values, one file per instance,
//! save-one / load-all.

use vstd::prelude::*;
use crate::pathname::{
    DirPolicy, has_toml_extension, is_path_safe, is_toml_file, join_path, joined_path, resolve_dir,
    resolved_dir,
};

verus! {

/// A multi-instance, named record. A type opts in by naming each instance, by
/// naming the directory all its instances live under, and by encoding and
/// decoding itself to and from its document; the store derives the file path
/// and the bulk-load pipeline from those.
///
/// `Self::V` is the model of a value: decoding is stated against models, so
/// that a loaded value is pinned field for field.
pub trait Persist: View + Sized {
    /// The value is internally consistent; in particular its identity is path
    /// safe.
    spec fn inv(&self) -> bool;

    /// The document this value serializes to.
    spec fn serial(&self) -> Seq<char>;

    /// What decoding a document yields, at the model level: `None` exactly on
    /// the documents the type rejects.
    spec fn parse_spec(s: Seq<char>) -> Option<Self::V>;

    /// The identity of this instance, at the spec level.
    spec fn spec_name(&self) -> Seq<char>;

    /// The directory name of this type, at the spec level.
    spec fn spec_dir_name() -> Seq<char>;

    /// The stable, path-safe identity of this instance: its file is named
    /// after it, so two instances with the same identity share one file.
    fn name(&self) -> (r: String)
        requires
            self.inv(),
        ensures
            r@ == self.spec_name(),
            is_path_safe(r@),
    ;

    /// The directory name all records of this type live under.
    fn dir_name() -> (r: String)
        ensures
            r@ == Self::spec_dir_name(),
    ;

    /// Serializes the value to its document. The document decodes back to
    /// this very value: a save followed by a load loses nothing.
    fn to_toml(&self) -> (r: String)
        requires
            self.inv(),
        ensures
            r@ == self.serial(),
            Self::parse_spec(r@) == Some(self@),
    ;

    /// Decodes a document; `None` exactly on the documents the type rejects.
    fn from_toml(s: &str) -> (r: Option<Self>)
        ensures
            match r {
                Some(v) => Self::parse_spec(s@) == Some(v@) && v.inv(),
                None => Self::parse_spec(s@) is None,
            },
    ;

    /// The file this record lives at: `<resolved directory>/<identity>.toml`,
    /// a pure function of the resolved directory and the identity.
    fn path(&self, policy: &DirPolicy) -> (r: String)
        requires
            self.inv(),
        ensures
            r@ == joined_path(resolved_dir(*policy, Self::spec_dir_name()), self.spec_name()),
    {
        let dir_name = Self::dir_name();
        let dir = resolve_dir(policy, dir_name.as_str());
        let name = self.name();
        join_path(dir.as_str(), name.as_str())
    }
}

/// The predicate the bulk load filters a directory listing with.
pub open spec fn toml_name_pred() -> spec_fn(Seq<char>) -> bool {
    |n: Seq<char>| has_toml_extension(n)
}

/// The names among a directory listing that a bulk load goes on to read:
/// exactly those whose extension is `toml`, in listing order.
pub open spec fn toml_named(names: Seq<Seq<char>>) -> Seq<Seq<char>> {
    names.filter(toml_name_pred())
}

/// Filters a directory listing down to the file names a bulk load reads.
/// Files with any other extension are ignored entirely.
pub fn select_toml_files(names: &Vec<String>) -> (r: Vec<String>)
    ensures
        r.deep_view() == toml_named(names.deep_view()),
{
    let mut out: Vec<String> = Vec::new();
    let mut i: usize = 0;
    while i < names.len()
        invariant
            i <= names.len(),
            out.deep_view() =~= names.deep_view().take(i as int).filter(toml_name_pred()),
        decreases names.len() - i,
    {
        let ghost prefix = names.deep_view().take(i as int);
        let ghost next = names.deep_view().take(i as int + 1);
        proof {
            reveal(Seq::filter);
            assert(next.drop_last() =~= prefix);
            assert(next.last() == names.deep_view()[i as int]);
        }
        if is_toml_file(names[i].as_str()) {
            out.push(names[i].clone());
        }
        i += 1;
        proof {
            assert(out.deep_view() =~= next.filter(toml_name_pred()));
        }
    }
    proof {
        assert(names.deep_view().take(names@.len() as int) =~= names.deep_view());
    }
    out
}

/// The decoding a bulk load applies to each document.
pub open spec fn parse_fn<T: Persist>() -> spec_fn(Seq<char>) -> Option<T::V> {
    |s: Seq<char>| T::parse_spec(s)
}

/// The models of the values a bulk decode yields: one per document the type
/// accepts, in document order; a rejected document contributes nothing and
/// aborts nothing.
pub open spec fn decoded_models<T: Persist>(docs: Seq<Seq<char>>) -> Seq<T::V> {
    docs.filter_map(parse_fn::<T>())
}

/// The spec-level models of a vector of loaded values.
pub open spec fn models_of<T: Persist>(s: Seq<T>) -> Seq<T::V> {
    s.map_values(|t: T| t@)
}

/// Decodes every document a bulk load has read, dropping exactly the ones the
/// type rejects and keeping the rest in order.
pub fn decode_entries<T: Persist>(contents: &Vec<String>) -> (r: Vec<T>)
    ensures
        models_of(r@) == decoded_models::<T>(contents.deep_view()),
        forall|k: int| 0 <= k < r@.len() ==> (#[trigger] r@[k]).inv(),
{
    let mut out: Vec<T> = Vec::new();
    let mut i: usize = 0;
    while i < contents.len()
        invariant
            i <= contents.len(),
            models_of(out@) =~= decoded_models::<T>(contents.deep_view().take(i as int)),
            forall|k: int| 0 <= k < out@.len() ==> (#[trigger] out@[k]).inv(),
        decreases contents.len() - i,
    {
        proof {
            contents.deep_view().lemma_filter_map_take_succ(parse_fn::<T>(), i as int);
            assert(contents.deep_view()[i as int] == contents@[i as int]@);
        }
        let ghost prior = out@;
        match T::from_toml(contents[i].as_str()) {
            Some(v) => {
                out.push(v);
                proof {
                    assert(models_of(out@) =~= models_of(prior).push(v@));
                }
            },
            None => {},
        }
        i += 1;
        proof {
            assert(models_of(out@) =~= decoded_models::<T>(
                contents.deep_view().take(i as int),
            ));
        }
    }
    proof {
        assert(contents.deep_view().take(contents@.len() as int) =~= contents.deep_view());
    }
    out
}

/// Law: a bulk load is complete minus corruption. Over any documents, the
/// decode yields exactly one value per document the type accepts; the
/// malformed rest are dropped without failing the load.
pub proof fn lemma_load_all_completeness<T: Persist>(docs: Seq<Seq<char>>)
    ensures
        decoded_models::<T>(docs).len() == docs.filter(
            |s: Seq<char>| T::parse_spec(s) is Some,
        ).len(),
    decreases docs.len(),
{
    reveal(Seq::filter);
    if docs.len() > 0 {
        lemma_load_all_completeness::<T>(docs.drop_last());
    }
}

/// Law: files without the `toml` extension never contribute to a bulk load,
/// whatever they hold: a listing of such names selects nothing.
pub proof fn lemma_non_toml_ignored(names: Seq<Seq<char>>)
    requires
        forall|i: int| 0 <= i < names.len() ==> !has_toml_extension(#[trigger] names[i]),
    ensures
        toml_named(names).len() == 0,
{
    assert(names.all(|n: Seq<char>| !toml_name_pred()(n)));
    names.lemma_all_neg_filter_empty(toml_name_pred());
}

/// Any document a bulk decode accepts contributes its value: the decoded
/// models contain the parse of every accepted document.
pub proof fn lemma_decode_keeps<T: Persist>(docs: Seq<Seq<char>>, i: int, m: T::V)
    requires
        0 <= i < docs.len(),
        T::parse_spec(docs[i]) == Some(m),
    ensures
        decoded_models::<T>(docs).contains(m),
    decreases docs.len(),
{
    let f = parse_fn::<T>();
    let prior = docs.drop_last().filter_map(f);
    if i == docs.len() - 1 {
        assert(docs.filter_map(f) == prior + seq![m]);
        assert(docs.filter_map(f)[prior.len() as int] == m);
    } else {
        lemma_decode_keeps::<T>(docs.drop_last(), i, m);
        let j = choose|j: int| 0 <= j < prior.len() && prior[j] == m;
        assert(docs.filter_map(f)[j] == m);
    }
}

/// Law: a save is seen by the next bulk load. If the directory listing holds
/// the file name a value was saved under — and the name a save writes always
/// carries the `toml` extension — and that file's content is a document the
/// type accepts as the model `m`, then the bulk load of that listing and
/// those contents yields `m`.
pub proof fn lemma_saved_value_is_loaded<T: Persist>(
    names: Seq<Seq<char>>,
    contents_of: spec_fn(Seq<char>) -> Seq<char>,
    fname: Seq<char>,
    m: T::V,
)
    requires
        names.contains(fname),
        has_toml_extension(fname),
        T::parse_spec(contents_of(fname)) == Some(m),
    ensures
        decoded_models::<T>(toml_named(names).map_values(contents_of)).contains(m),
{
    names.filter_lemma(toml_name_pred());
    let i = choose|i: int| 0 <= i < names.len() && names[i] == fname;
    assert(toml_name_pred()(names[i]));
    assert(toml_named(names).contains(fname));
    let j = choose|j: int| 0 <= j < toml_named(names).len() && toml_named(names)[j] == fname;
    let docs = toml_named(names).map_values(contents_of);
    assert(docs[j] == contents_of(fname));
    lemma_decode_keeps::<T>(docs, j, m);
}

/// Law: the path is deterministic in the identity and the directory. Two
/// records of one type with equal identities collide at the identical path,
/// so the later of two saves overwrites the earlier one's file.
pub proof fn lemma_path_determinism<T: Persist>(a: T, b: T, policy: DirPolicy)
    requires
        a.spec_name() == b.spec_name(),
    ensures
        joined_path(resolved_dir(policy, T::spec_dir_name()), a.spec_name()) == joined_path(
            resolved_dir(policy, T::spec_dir_name()),
            b.spec_name(),
        ),
{
}

} // verus!
