//! The display memory has side effects the compiler cannot see, so every
//! cell access must be a volatile read or write. These are the only places
//! where the driver leans on the `volatile` crate; everything else is
//! verified against the contracts stated here.

use vstd::prelude::*;

verus! {

#[verifier::external_type_specification]
#[verifier::external_body]
#[verifier::reject_recursive_types(T)]
pub struct ExVolatile<T: Copy>(volatile::Volatile<T>);

/// The two-byte cell value a volatile wrapper currently holds.
pub uninterp spec fn vol_value(v: volatile::Volatile<u16>) -> u16;

/// Relies on volatile::Volatile::new: wraps the given value, which later
/// volatile reads return.
#[verifier::external_body]
pub(crate) fn vol_new(x: u16) -> (v: volatile::Volatile<u16>)
    ensures
        vol_value(v) == x,
{
    volatile::Volatile::new(x)
}

/// Relies on volatile::Volatile::read: a volatile load of the held value.
#[verifier::external_body]
pub(crate) fn vol_read(v: &volatile::Volatile<u16>) -> (x: u16)
    ensures
        x == vol_value(*v),
{
    v.read()
}

/// Relies on volatile::Volatile::write: a volatile store of the given value.
#[verifier::external_body]
pub(crate) fn vol_write(v: &mut volatile::Volatile<u16>, x: u16)
    ensures
        vol_value(*final(v)) == x,
{
    v.write(x)
}

} // verus!
