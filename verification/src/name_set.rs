//! The set of changed property names, kept in a `rustc_hash::FxHashSet<String>`.
use vstd::prelude::*;
use rustc_hash::FxBuildHasher;
use rustc_hash::FxHashSet;

verus! {

/// `rustc_hash::FxBuildHasher`, the hasher builder of `FxHashSet`; its contents are not read.
#[verifier::external_type_specification]
#[verifier::external_body]
pub struct ExFxBuildHasher(FxBuildHasher);

/// The names that an `FxHashSet<String>` holds, each as the characters of the string.
pub uninterp spec fn name_set_contents(set: FxHashSet<String>) -> Set<Seq<char>>;

/// `FxHashSet::<String>::default()`: by std's documentation of `HashSet`'s
/// `Default`, a set that holds no name.
#[verifier::external_body]
pub(crate) fn name_set_new() -> (set: FxHashSet<String>)
    ensures
        name_set_contents(set) == Set::<Seq<char>>::empty(),
{
    FxHashSet::default()
}

/// `HashSet::insert` on an `FxHashSet<String>`: by std's documentation, the set
/// afterwards holds the names it held and `name`; the returned flag is dropped.
#[verifier::external_body]
pub(crate) fn name_set_insert(set: &mut FxHashSet<String>, name: String)
    ensures
        name_set_contents(*final(set)) == name_set_contents(*old(set)).insert(name@),
{
    set.insert(name);
}

/// `HashSet::contains` on an `FxHashSet<String>`: by std's documentation, whether
/// the set holds a string equal to `name`.
#[verifier::external_body]
pub(crate) fn name_set_contains(set: &FxHashSet<String>, name: &String) -> (r: bool)
    ensures
        r == name_set_contents(*set).contains(name@),
{
    set.contains(name)
}

/// `HashSet::is_empty` on an `FxHashSet<String>`: by std's documentation, whether
/// the set holds no name.
#[verifier::external_body]
pub(crate) fn name_set_is_empty(set: &FxHashSet<String>) -> (r: bool)
    ensures
        r == (name_set_contents(*set) == Set::<Seq<char>>::empty()),
{
    set.is_empty()
}

} // verus!
