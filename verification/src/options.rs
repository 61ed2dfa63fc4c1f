use vstd::prelude::*;
use vstd::std_specs::cmp::PartialEqSpec;

verus! {

/// Options of the `useReadonlyClassProperties` rule.
#[derive(Debug, Clone, Copy, PartialEq, Eq, Structural)]
pub struct ReadonlyClassPropertiesOptions {
    /// If `true`, then check all class property members; if `false`, only private members.
    pub check_all_properties: bool,
}

impl Default for ReadonlyClassPropertiesOptions {
    fn default() -> (r: Self)
        ensures
            !r.check_all_properties,
    {
        ReadonlyClassPropertiesOptions { check_all_properties: false }
    }
}

/// Whether `value` equals the default value of its type.
pub fn is_default<T: Default + Eq>(value: &T) -> (r: bool)
    ensures
        exists|d: T|
            #[trigger] call_ensures(T::default, (), d) && (T::obeys_eq_spec() ==> r == value.eq_spec(&d)),
{
    let d = T::default();
    let r = value.eq(&d);
    assert(call_ensures(T::default, (), d) && (T::obeys_eq_spec() ==> r == value.eq_spec(&d)));
    r
}

} // verus!
