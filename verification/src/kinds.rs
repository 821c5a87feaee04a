//! The kinds of values that can be passed to a remote call, and how each
//! becomes an argument.

use crate::remote::{Arg, ArgView};
use vstd::std_specs::convert::IntoSpec;
use vstd::prelude::*;

verus! {

/// The unsigned number that stands for a signed one in a register: the same
/// bits.
pub open spec fn as_unsigned(value: i64) -> u64 {
    if value >= 0 {
        value as u64
    } else {
        (value + 0x1_0000_0000_0000_0000) as u64
    }
}

/// The unsigned number that stands for a signed one in a register.
pub fn to_unsigned(value: i64) -> (bits: u64)
    ensures
        bits == as_unsigned(value),
{
    if value >= 0 {
        value as u64
    } else {
        let rest: u64 = (value + 0x4000_0000_0000_0000 + 0x4000_0000_0000_0000) as u64;
        rest + 0x8000_0000_0000_0000
    }
}

/// Values that widen to an unsigned number.
pub trait UnsizedKind: Into<u64> + Sized {
    /// The argument that passes the value.
    fn into_arg(self) -> (arg: Arg)
        ensures
            arg is Numeric,
            <Self as IntoSpec<u64>>::obeys_into_spec() ==> arg@ == ArgView::Numeric(
                <Self as IntoSpec<u64>>::into_spec(self),
            ),
    {
        Arg::Numeric(self.into())
    }
}

impl<T: Into<u64>> UnsizedKind for T {

}

/// Values that widen to a signed number.
pub trait SizedKind: Into<i64> + Sized {
    /// The argument that passes the value, with the bits that the value has
    /// in a register.
    fn into_arg(self) -> (arg: Arg)
        ensures
            arg is Numeric,
            <Self as IntoSpec<i64>>::obeys_into_spec() ==> arg@ == ArgView::Numeric(
                as_unsigned(<Self as IntoSpec<i64>>::into_spec(self)),
            ),
    {
        Arg::Numeric(to_unsigned(self.into()))
    }
}

impl<T: Into<i64>> SizedKind for T {

}

/// Values that widen to a size.
pub trait SizeKind: Into<usize> + Sized {
    /// The argument that passes the value.
    fn into_arg(self) -> (arg: Arg)
        ensures
            arg is Numeric,
            <Self as IntoSpec<usize>>::obeys_into_spec() ==> arg@ == ArgView::Numeric(
                <Self as IntoSpec<usize>>::into_spec(self) as u64,
            ),
    {
        let size: usize = self.into();
        Arg::Numeric(size as u64)
    }
}

impl<T: Into<usize>> SizeKind for T {

}

/// Values that are bytes.
pub trait SliceKind<'a>: Into<&'a [u8]> + Sized {
    /// The argument that passes the bytes by the address at which they are
    /// placed in the target.
    fn into_arg(self) -> (arg: Arg)
        ensures
            arg is Slice,
            <Self as IntoSpec<&'a [u8]>>::obeys_into_spec() ==> arg@ == ArgView::Slice(
                <Self as IntoSpec<&'a [u8]>>::into_spec(self)@,
            ),
    {
        let bytes: &[u8] = self.into();
        Arg::Slice(vstd::slice::slice_to_vec(bytes))
    }
}

impl<'a, T: Into<&'a [u8]>> SliceKind<'a> for T {

}

} // verus!
