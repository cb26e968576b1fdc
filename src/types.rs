use vstd::prelude::*;

verus! {

#[allow(non_camel_case_types)]
pub type byte = i8;

#[allow(non_camel_case_types)]
pub type short = i16;

#[allow(non_camel_case_types)]
pub type int32 = i32;

#[allow(non_camel_case_types)]
pub type long = i64;

#[allow(non_camel_case_types)]
pub type u_byte = u8;

#[allow(non_camel_case_types)]
pub type u_short = u16;

#[allow(non_camel_case_types)]
pub type u_int = u32;

#[allow(non_camel_case_types)]
pub type u_long = u64;

} // verus!
