//! Operators on expressions: `a + b`, `a - b`, ..., `a >> b` and `!a` build
//! the operations of Verilog, with a signal or a number on the right; and the
//! conversions of numbers and borrowed expressions into expressions.
//!
//! The results are stated by each operator's own `ensures`; the general
//! specification of the operator traits is not used for expressions.

use vstd::prelude::*;
use crate::ast::{E, EV, clone_box};
use crate::expr::{
    bin, _Add, _Sub, _Mul, _Div, _Mod, _Or, _And, _Xor, _LSH, _RSH,
};

verus! {

impl core::ops::Add<Box<E>> for Box<E> {
    type Output = Box<E>;

    /// `self + other`.
    fn add(self, other: Box<E>) -> (r: Box<E>)
        ensures
            r@ == bin("add"@, self@, other@),
    {
        _Add(self, other)
    }
}

impl vstd::std_specs::ops::AddSpecImpl<Box<E>> for Box<E> {
    open spec fn obeys_add_spec() -> bool {
        false
    }

    open spec fn add_req(self, rhs: Box<E>) -> bool {
        true
    }

    open spec fn add_spec(self, rhs: Box<E>) -> Box<E> {
        arbitrary()
    }
}

impl core::ops::Add<i32> for Box<E> {
    type Output = Box<E>;

    /// `self + other`.
    fn add(self, other: i32) -> (r: Box<E>)
        ensures
            r@ == bin("add"@, self@, EV::Num(other)),
    {
        _Add(self, Box::new(E::Num(other)))
    }
}

impl vstd::std_specs::ops::AddSpecImpl<i32> for Box<E> {
    open spec fn obeys_add_spec() -> bool {
        false
    }

    open spec fn add_req(self, rhs: i32) -> bool {
        true
    }

    open spec fn add_spec(self, rhs: i32) -> Box<E> {
        arbitrary()
    }
}

impl<'a> core::ops::Add<Box<E>> for &'a Box<E> {
    type Output = Box<E>;

    /// `self + other`.
    fn add(self, other: Box<E>) -> (r: Box<E>)
        ensures
            r@ == bin("add"@, self@, other@),
    {
        _Add(clone_box(self), other)
    }
}

impl<'a> vstd::std_specs::ops::AddSpecImpl<Box<E>> for &'a Box<E> {
    open spec fn obeys_add_spec() -> bool {
        false
    }

    open spec fn add_req(self, rhs: Box<E>) -> bool {
        true
    }

    open spec fn add_spec(self, rhs: Box<E>) -> Box<E> {
        arbitrary()
    }
}

impl<'a> core::ops::Add<i32> for &'a Box<E> {
    type Output = Box<E>;

    /// `self + other`.
    fn add(self, other: i32) -> (r: Box<E>)
        ensures
            r@ == bin("add"@, self@, EV::Num(other)),
    {
        _Add(clone_box(self), Box::new(E::Num(other)))
    }
}

impl<'a> vstd::std_specs::ops::AddSpecImpl<i32> for &'a Box<E> {
    open spec fn obeys_add_spec() -> bool {
        false
    }

    open spec fn add_req(self, rhs: i32) -> bool {
        true
    }

    open spec fn add_spec(self, rhs: i32) -> Box<E> {
        arbitrary()
    }
}

impl core::ops::Sub<Box<E>> for Box<E> {
    type Output = Box<E>;

    /// `self - other`.
    fn sub(self, other: Box<E>) -> (r: Box<E>)
        ensures
            r@ == bin("sub"@, self@, other@),
    {
        _Sub(self, other)
    }
}

impl vstd::std_specs::ops::SubSpecImpl<Box<E>> for Box<E> {
    open spec fn obeys_sub_spec() -> bool {
        false
    }

    open spec fn sub_req(self, rhs: Box<E>) -> bool {
        true
    }

    open spec fn sub_spec(self, rhs: Box<E>) -> Box<E> {
        arbitrary()
    }
}

impl core::ops::Sub<i32> for Box<E> {
    type Output = Box<E>;

    /// `self - other`.
    fn sub(self, other: i32) -> (r: Box<E>)
        ensures
            r@ == bin("sub"@, self@, EV::Num(other)),
    {
        _Sub(self, Box::new(E::Num(other)))
    }
}

impl vstd::std_specs::ops::SubSpecImpl<i32> for Box<E> {
    open spec fn obeys_sub_spec() -> bool {
        false
    }

    open spec fn sub_req(self, rhs: i32) -> bool {
        true
    }

    open spec fn sub_spec(self, rhs: i32) -> Box<E> {
        arbitrary()
    }
}

impl<'a> core::ops::Sub<Box<E>> for &'a Box<E> {
    type Output = Box<E>;

    /// `self - other`.
    fn sub(self, other: Box<E>) -> (r: Box<E>)
        ensures
            r@ == bin("sub"@, self@, other@),
    {
        _Sub(clone_box(self), other)
    }
}

impl<'a> vstd::std_specs::ops::SubSpecImpl<Box<E>> for &'a Box<E> {
    open spec fn obeys_sub_spec() -> bool {
        false
    }

    open spec fn sub_req(self, rhs: Box<E>) -> bool {
        true
    }

    open spec fn sub_spec(self, rhs: Box<E>) -> Box<E> {
        arbitrary()
    }
}

impl<'a> core::ops::Sub<i32> for &'a Box<E> {
    type Output = Box<E>;

    /// `self - other`.
    fn sub(self, other: i32) -> (r: Box<E>)
        ensures
            r@ == bin("sub"@, self@, EV::Num(other)),
    {
        _Sub(clone_box(self), Box::new(E::Num(other)))
    }
}

impl<'a> vstd::std_specs::ops::SubSpecImpl<i32> for &'a Box<E> {
    open spec fn obeys_sub_spec() -> bool {
        false
    }

    open spec fn sub_req(self, rhs: i32) -> bool {
        true
    }

    open spec fn sub_spec(self, rhs: i32) -> Box<E> {
        arbitrary()
    }
}

impl core::ops::Mul<Box<E>> for Box<E> {
    type Output = Box<E>;

    /// `self * other`.
    fn mul(self, other: Box<E>) -> (r: Box<E>)
        ensures
            r@ == bin("mul"@, self@, other@),
    {
        _Mul(self, other)
    }
}

impl vstd::std_specs::ops::MulSpecImpl<Box<E>> for Box<E> {
    open spec fn obeys_mul_spec() -> bool {
        false
    }

    open spec fn mul_req(self, rhs: Box<E>) -> bool {
        true
    }

    open spec fn mul_spec(self, rhs: Box<E>) -> Box<E> {
        arbitrary()
    }
}

impl core::ops::Mul<i32> for Box<E> {
    type Output = Box<E>;

    /// `self * other`.
    fn mul(self, other: i32) -> (r: Box<E>)
        ensures
            r@ == bin("mul"@, self@, EV::Num(other)),
    {
        _Mul(self, Box::new(E::Num(other)))
    }
}

impl vstd::std_specs::ops::MulSpecImpl<i32> for Box<E> {
    open spec fn obeys_mul_spec() -> bool {
        false
    }

    open spec fn mul_req(self, rhs: i32) -> bool {
        true
    }

    open spec fn mul_spec(self, rhs: i32) -> Box<E> {
        arbitrary()
    }
}

impl<'a> core::ops::Mul<Box<E>> for &'a Box<E> {
    type Output = Box<E>;

    /// `self * other`.
    fn mul(self, other: Box<E>) -> (r: Box<E>)
        ensures
            r@ == bin("mul"@, self@, other@),
    {
        _Mul(clone_box(self), other)
    }
}

impl<'a> vstd::std_specs::ops::MulSpecImpl<Box<E>> for &'a Box<E> {
    open spec fn obeys_mul_spec() -> bool {
        false
    }

    open spec fn mul_req(self, rhs: Box<E>) -> bool {
        true
    }

    open spec fn mul_spec(self, rhs: Box<E>) -> Box<E> {
        arbitrary()
    }
}

impl<'a> core::ops::Mul<i32> for &'a Box<E> {
    type Output = Box<E>;

    /// `self * other`.
    fn mul(self, other: i32) -> (r: Box<E>)
        ensures
            r@ == bin("mul"@, self@, EV::Num(other)),
    {
        _Mul(clone_box(self), Box::new(E::Num(other)))
    }
}

impl<'a> vstd::std_specs::ops::MulSpecImpl<i32> for &'a Box<E> {
    open spec fn obeys_mul_spec() -> bool {
        false
    }

    open spec fn mul_req(self, rhs: i32) -> bool {
        true
    }

    open spec fn mul_spec(self, rhs: i32) -> Box<E> {
        arbitrary()
    }
}

impl core::ops::Div<Box<E>> for Box<E> {
    type Output = Box<E>;

    /// `self / other`.
    fn div(self, other: Box<E>) -> (r: Box<E>)
        ensures
            r@ == bin("div"@, self@, other@),
    {
        _Div(self, other)
    }
}

impl vstd::std_specs::ops::DivSpecImpl<Box<E>> for Box<E> {
    open spec fn obeys_div_spec() -> bool {
        false
    }

    open spec fn div_req(self, rhs: Box<E>) -> bool {
        true
    }

    open spec fn div_spec(self, rhs: Box<E>) -> Box<E> {
        arbitrary()
    }
}

impl core::ops::Div<i32> for Box<E> {
    type Output = Box<E>;

    /// `self / other`.
    fn div(self, other: i32) -> (r: Box<E>)
        ensures
            r@ == bin("div"@, self@, EV::Num(other)),
    {
        _Div(self, Box::new(E::Num(other)))
    }
}

impl vstd::std_specs::ops::DivSpecImpl<i32> for Box<E> {
    open spec fn obeys_div_spec() -> bool {
        false
    }

    open spec fn div_req(self, rhs: i32) -> bool {
        true
    }

    open spec fn div_spec(self, rhs: i32) -> Box<E> {
        arbitrary()
    }
}

impl<'a> core::ops::Div<Box<E>> for &'a Box<E> {
    type Output = Box<E>;

    /// `self / other`.
    fn div(self, other: Box<E>) -> (r: Box<E>)
        ensures
            r@ == bin("div"@, self@, other@),
    {
        _Div(clone_box(self), other)
    }
}

impl<'a> vstd::std_specs::ops::DivSpecImpl<Box<E>> for &'a Box<E> {
    open spec fn obeys_div_spec() -> bool {
        false
    }

    open spec fn div_req(self, rhs: Box<E>) -> bool {
        true
    }

    open spec fn div_spec(self, rhs: Box<E>) -> Box<E> {
        arbitrary()
    }
}

impl<'a> core::ops::Div<i32> for &'a Box<E> {
    type Output = Box<E>;

    /// `self / other`.
    fn div(self, other: i32) -> (r: Box<E>)
        ensures
            r@ == bin("div"@, self@, EV::Num(other)),
    {
        _Div(clone_box(self), Box::new(E::Num(other)))
    }
}

impl<'a> vstd::std_specs::ops::DivSpecImpl<i32> for &'a Box<E> {
    open spec fn obeys_div_spec() -> bool {
        false
    }

    open spec fn div_req(self, rhs: i32) -> bool {
        true
    }

    open spec fn div_spec(self, rhs: i32) -> Box<E> {
        arbitrary()
    }
}

impl core::ops::Rem<Box<E>> for Box<E> {
    type Output = Box<E>;

    /// `self % other`.
    fn rem(self, other: Box<E>) -> (r: Box<E>)
        ensures
            r@ == bin("mod"@, self@, other@),
    {
        _Mod(self, other)
    }
}

impl vstd::std_specs::ops::RemSpecImpl<Box<E>> for Box<E> {
    open spec fn obeys_rem_spec() -> bool {
        false
    }

    open spec fn rem_req(self, rhs: Box<E>) -> bool {
        true
    }

    open spec fn rem_spec(self, rhs: Box<E>) -> Box<E> {
        arbitrary()
    }
}

impl core::ops::Rem<i32> for Box<E> {
    type Output = Box<E>;

    /// `self % other`.
    fn rem(self, other: i32) -> (r: Box<E>)
        ensures
            r@ == bin("mod"@, self@, EV::Num(other)),
    {
        _Mod(self, Box::new(E::Num(other)))
    }
}

impl vstd::std_specs::ops::RemSpecImpl<i32> for Box<E> {
    open spec fn obeys_rem_spec() -> bool {
        false
    }

    open spec fn rem_req(self, rhs: i32) -> bool {
        true
    }

    open spec fn rem_spec(self, rhs: i32) -> Box<E> {
        arbitrary()
    }
}

impl<'a> core::ops::Rem<Box<E>> for &'a Box<E> {
    type Output = Box<E>;

    /// `self % other`.
    fn rem(self, other: Box<E>) -> (r: Box<E>)
        ensures
            r@ == bin("mod"@, self@, other@),
    {
        _Mod(clone_box(self), other)
    }
}

impl<'a> vstd::std_specs::ops::RemSpecImpl<Box<E>> for &'a Box<E> {
    open spec fn obeys_rem_spec() -> bool {
        false
    }

    open spec fn rem_req(self, rhs: Box<E>) -> bool {
        true
    }

    open spec fn rem_spec(self, rhs: Box<E>) -> Box<E> {
        arbitrary()
    }
}

impl<'a> core::ops::Rem<i32> for &'a Box<E> {
    type Output = Box<E>;

    /// `self % other`.
    fn rem(self, other: i32) -> (r: Box<E>)
        ensures
            r@ == bin("mod"@, self@, EV::Num(other)),
    {
        _Mod(clone_box(self), Box::new(E::Num(other)))
    }
}

impl<'a> vstd::std_specs::ops::RemSpecImpl<i32> for &'a Box<E> {
    open spec fn obeys_rem_spec() -> bool {
        false
    }

    open spec fn rem_req(self, rhs: i32) -> bool {
        true
    }

    open spec fn rem_spec(self, rhs: i32) -> Box<E> {
        arbitrary()
    }
}

impl core::ops::BitOr<Box<E>> for Box<E> {
    type Output = Box<E>;

    /// `self | other`.
    fn bitor(self, other: Box<E>) -> (r: Box<E>)
        ensures
            r@ == bin("or"@, self@, other@),
    {
        _Or(self, other)
    }
}

impl vstd::std_specs::ops::BitOrSpecImpl<Box<E>> for Box<E> {
    open spec fn obeys_bitor_spec() -> bool {
        false
    }

    open spec fn bitor_req(self, rhs: Box<E>) -> bool {
        true
    }

    open spec fn bitor_spec(self, rhs: Box<E>) -> Box<E> {
        arbitrary()
    }
}

impl core::ops::BitOr<i32> for Box<E> {
    type Output = Box<E>;

    /// `self | other`.
    fn bitor(self, other: i32) -> (r: Box<E>)
        ensures
            r@ == bin("or"@, self@, EV::Num(other)),
    {
        _Or(self, Box::new(E::Num(other)))
    }
}

impl vstd::std_specs::ops::BitOrSpecImpl<i32> for Box<E> {
    open spec fn obeys_bitor_spec() -> bool {
        false
    }

    open spec fn bitor_req(self, rhs: i32) -> bool {
        true
    }

    open spec fn bitor_spec(self, rhs: i32) -> Box<E> {
        arbitrary()
    }
}

impl<'a> core::ops::BitOr<Box<E>> for &'a Box<E> {
    type Output = Box<E>;

    /// `self | other`.
    fn bitor(self, other: Box<E>) -> (r: Box<E>)
        ensures
            r@ == bin("or"@, self@, other@),
    {
        _Or(clone_box(self), other)
    }
}

impl<'a> vstd::std_specs::ops::BitOrSpecImpl<Box<E>> for &'a Box<E> {
    open spec fn obeys_bitor_spec() -> bool {
        false
    }

    open spec fn bitor_req(self, rhs: Box<E>) -> bool {
        true
    }

    open spec fn bitor_spec(self, rhs: Box<E>) -> Box<E> {
        arbitrary()
    }
}

impl<'a> core::ops::BitOr<i32> for &'a Box<E> {
    type Output = Box<E>;

    /// `self | other`.
    fn bitor(self, other: i32) -> (r: Box<E>)
        ensures
            r@ == bin("or"@, self@, EV::Num(other)),
    {
        _Or(clone_box(self), Box::new(E::Num(other)))
    }
}

impl<'a> vstd::std_specs::ops::BitOrSpecImpl<i32> for &'a Box<E> {
    open spec fn obeys_bitor_spec() -> bool {
        false
    }

    open spec fn bitor_req(self, rhs: i32) -> bool {
        true
    }

    open spec fn bitor_spec(self, rhs: i32) -> Box<E> {
        arbitrary()
    }
}

impl core::ops::BitAnd<Box<E>> for Box<E> {
    type Output = Box<E>;

    /// `self & other`.
    fn bitand(self, other: Box<E>) -> (r: Box<E>)
        ensures
            r@ == bin("and"@, self@, other@),
    {
        _And(self, other)
    }
}

impl vstd::std_specs::ops::BitAndSpecImpl<Box<E>> for Box<E> {
    open spec fn obeys_bitand_spec() -> bool {
        false
    }

    open spec fn bitand_req(self, rhs: Box<E>) -> bool {
        true
    }

    open spec fn bitand_spec(self, rhs: Box<E>) -> Box<E> {
        arbitrary()
    }
}

impl core::ops::BitAnd<i32> for Box<E> {
    type Output = Box<E>;

    /// `self & other`.
    fn bitand(self, other: i32) -> (r: Box<E>)
        ensures
            r@ == bin("and"@, self@, EV::Num(other)),
    {
        _And(self, Box::new(E::Num(other)))
    }
}

impl vstd::std_specs::ops::BitAndSpecImpl<i32> for Box<E> {
    open spec fn obeys_bitand_spec() -> bool {
        false
    }

    open spec fn bitand_req(self, rhs: i32) -> bool {
        true
    }

    open spec fn bitand_spec(self, rhs: i32) -> Box<E> {
        arbitrary()
    }
}

impl<'a> core::ops::BitAnd<Box<E>> for &'a Box<E> {
    type Output = Box<E>;

    /// `self & other`.
    fn bitand(self, other: Box<E>) -> (r: Box<E>)
        ensures
            r@ == bin("and"@, self@, other@),
    {
        _And(clone_box(self), other)
    }
}

impl<'a> vstd::std_specs::ops::BitAndSpecImpl<Box<E>> for &'a Box<E> {
    open spec fn obeys_bitand_spec() -> bool {
        false
    }

    open spec fn bitand_req(self, rhs: Box<E>) -> bool {
        true
    }

    open spec fn bitand_spec(self, rhs: Box<E>) -> Box<E> {
        arbitrary()
    }
}

impl<'a> core::ops::BitAnd<i32> for &'a Box<E> {
    type Output = Box<E>;

    /// `self & other`.
    fn bitand(self, other: i32) -> (r: Box<E>)
        ensures
            r@ == bin("and"@, self@, EV::Num(other)),
    {
        _And(clone_box(self), Box::new(E::Num(other)))
    }
}

impl<'a> vstd::std_specs::ops::BitAndSpecImpl<i32> for &'a Box<E> {
    open spec fn obeys_bitand_spec() -> bool {
        false
    }

    open spec fn bitand_req(self, rhs: i32) -> bool {
        true
    }

    open spec fn bitand_spec(self, rhs: i32) -> Box<E> {
        arbitrary()
    }
}

impl core::ops::BitXor<Box<E>> for Box<E> {
    type Output = Box<E>;

    /// `self ^ other`.
    fn bitxor(self, other: Box<E>) -> (r: Box<E>)
        ensures
            r@ == bin("xor"@, self@, other@),
    {
        _Xor(self, other)
    }
}

impl vstd::std_specs::ops::BitXorSpecImpl<Box<E>> for Box<E> {
    open spec fn obeys_bitxor_spec() -> bool {
        false
    }

    open spec fn bitxor_req(self, rhs: Box<E>) -> bool {
        true
    }

    open spec fn bitxor_spec(self, rhs: Box<E>) -> Box<E> {
        arbitrary()
    }
}

impl core::ops::BitXor<i32> for Box<E> {
    type Output = Box<E>;

    /// `self ^ other`.
    fn bitxor(self, other: i32) -> (r: Box<E>)
        ensures
            r@ == bin("xor"@, self@, EV::Num(other)),
    {
        _Xor(self, Box::new(E::Num(other)))
    }
}

impl vstd::std_specs::ops::BitXorSpecImpl<i32> for Box<E> {
    open spec fn obeys_bitxor_spec() -> bool {
        false
    }

    open spec fn bitxor_req(self, rhs: i32) -> bool {
        true
    }

    open spec fn bitxor_spec(self, rhs: i32) -> Box<E> {
        arbitrary()
    }
}

impl<'a> core::ops::BitXor<Box<E>> for &'a Box<E> {
    type Output = Box<E>;

    /// `self ^ other`.
    fn bitxor(self, other: Box<E>) -> (r: Box<E>)
        ensures
            r@ == bin("xor"@, self@, other@),
    {
        _Xor(clone_box(self), other)
    }
}

impl<'a> vstd::std_specs::ops::BitXorSpecImpl<Box<E>> for &'a Box<E> {
    open spec fn obeys_bitxor_spec() -> bool {
        false
    }

    open spec fn bitxor_req(self, rhs: Box<E>) -> bool {
        true
    }

    open spec fn bitxor_spec(self, rhs: Box<E>) -> Box<E> {
        arbitrary()
    }
}

impl<'a> core::ops::BitXor<i32> for &'a Box<E> {
    type Output = Box<E>;

    /// `self ^ other`.
    fn bitxor(self, other: i32) -> (r: Box<E>)
        ensures
            r@ == bin("xor"@, self@, EV::Num(other)),
    {
        _Xor(clone_box(self), Box::new(E::Num(other)))
    }
}

impl<'a> vstd::std_specs::ops::BitXorSpecImpl<i32> for &'a Box<E> {
    open spec fn obeys_bitxor_spec() -> bool {
        false
    }

    open spec fn bitxor_req(self, rhs: i32) -> bool {
        true
    }

    open spec fn bitxor_spec(self, rhs: i32) -> Box<E> {
        arbitrary()
    }
}

impl core::ops::Shl<Box<E>> for Box<E> {
    type Output = Box<E>;

    /// `self << other`.
    fn shl(self, other: Box<E>) -> (r: Box<E>)
        ensures
            r@ == bin("lshift"@, self@, other@),
    {
        _LSH(self, other)
    }
}

impl vstd::std_specs::ops::ShlSpecImpl<Box<E>> for Box<E> {
    open spec fn obeys_shl_spec() -> bool {
        false
    }

    open spec fn shl_req(self, rhs: Box<E>) -> bool {
        true
    }

    open spec fn shl_spec(self, rhs: Box<E>) -> Box<E> {
        arbitrary()
    }
}

impl core::ops::Shl<i32> for Box<E> {
    type Output = Box<E>;

    /// `self << other`.
    fn shl(self, other: i32) -> (r: Box<E>)
        ensures
            r@ == bin("lshift"@, self@, EV::Num(other)),
    {
        _LSH(self, Box::new(E::Num(other)))
    }
}

impl vstd::std_specs::ops::ShlSpecImpl<i32> for Box<E> {
    open spec fn obeys_shl_spec() -> bool {
        false
    }

    open spec fn shl_req(self, rhs: i32) -> bool {
        true
    }

    open spec fn shl_spec(self, rhs: i32) -> Box<E> {
        arbitrary()
    }
}

impl<'a> core::ops::Shl<Box<E>> for &'a Box<E> {
    type Output = Box<E>;

    /// `self << other`.
    fn shl(self, other: Box<E>) -> (r: Box<E>)
        ensures
            r@ == bin("lshift"@, self@, other@),
    {
        _LSH(clone_box(self), other)
    }
}

impl<'a> vstd::std_specs::ops::ShlSpecImpl<Box<E>> for &'a Box<E> {
    open spec fn obeys_shl_spec() -> bool {
        false
    }

    open spec fn shl_req(self, rhs: Box<E>) -> bool {
        true
    }

    open spec fn shl_spec(self, rhs: Box<E>) -> Box<E> {
        arbitrary()
    }
}

impl<'a> core::ops::Shl<i32> for &'a Box<E> {
    type Output = Box<E>;

    /// `self << other`.
    fn shl(self, other: i32) -> (r: Box<E>)
        ensures
            r@ == bin("lshift"@, self@, EV::Num(other)),
    {
        _LSH(clone_box(self), Box::new(E::Num(other)))
    }
}

impl<'a> vstd::std_specs::ops::ShlSpecImpl<i32> for &'a Box<E> {
    open spec fn obeys_shl_spec() -> bool {
        false
    }

    open spec fn shl_req(self, rhs: i32) -> bool {
        true
    }

    open spec fn shl_spec(self, rhs: i32) -> Box<E> {
        arbitrary()
    }
}

impl core::ops::Shr<Box<E>> for Box<E> {
    type Output = Box<E>;

    /// `self >> other`.
    fn shr(self, other: Box<E>) -> (r: Box<E>)
        ensures
            r@ == bin("rshift"@, self@, other@),
    {
        _RSH(self, other)
    }
}

impl vstd::std_specs::ops::ShrSpecImpl<Box<E>> for Box<E> {
    open spec fn obeys_shr_spec() -> bool {
        false
    }

    open spec fn shr_req(self, rhs: Box<E>) -> bool {
        true
    }

    open spec fn shr_spec(self, rhs: Box<E>) -> Box<E> {
        arbitrary()
    }
}

impl core::ops::Shr<i32> for Box<E> {
    type Output = Box<E>;

    /// `self >> other`.
    fn shr(self, other: i32) -> (r: Box<E>)
        ensures
            r@ == bin("rshift"@, self@, EV::Num(other)),
    {
        _RSH(self, Box::new(E::Num(other)))
    }
}

impl vstd::std_specs::ops::ShrSpecImpl<i32> for Box<E> {
    open spec fn obeys_shr_spec() -> bool {
        false
    }

    open spec fn shr_req(self, rhs: i32) -> bool {
        true
    }

    open spec fn shr_spec(self, rhs: i32) -> Box<E> {
        arbitrary()
    }
}

impl<'a> core::ops::Shr<Box<E>> for &'a Box<E> {
    type Output = Box<E>;

    /// `self >> other`.
    fn shr(self, other: Box<E>) -> (r: Box<E>)
        ensures
            r@ == bin("rshift"@, self@, other@),
    {
        _RSH(clone_box(self), other)
    }
}

impl<'a> vstd::std_specs::ops::ShrSpecImpl<Box<E>> for &'a Box<E> {
    open spec fn obeys_shr_spec() -> bool {
        false
    }

    open spec fn shr_req(self, rhs: Box<E>) -> bool {
        true
    }

    open spec fn shr_spec(self, rhs: Box<E>) -> Box<E> {
        arbitrary()
    }
}

impl<'a> core::ops::Shr<i32> for &'a Box<E> {
    type Output = Box<E>;

    /// `self >> other`.
    fn shr(self, other: i32) -> (r: Box<E>)
        ensures
            r@ == bin("rshift"@, self@, EV::Num(other)),
    {
        _RSH(clone_box(self), Box::new(E::Num(other)))
    }
}

impl<'a> vstd::std_specs::ops::ShrSpecImpl<i32> for &'a Box<E> {
    open spec fn obeys_shr_spec() -> bool {
        false
    }

    open spec fn shr_req(self, rhs: i32) -> bool {
        true
    }

    open spec fn shr_spec(self, rhs: i32) -> Box<E> {
        arbitrary()
    }
}

impl core::ops::Not for Box<E> {
    type Output = Box<E>;

    /// `~self`.
    fn not(self) -> (r: Box<E>)
        ensures
            r@ == EV::No(Box::new(self@)),
    {
        Box::new(E::No(self))
    }
}

impl vstd::std_specs::ops::NotSpecImpl for Box<E> {
    open spec fn obeys_not_spec() -> bool {
        false
    }

    open spec fn not_req(self) -> bool {
        true
    }

    open spec fn not_spec(self) -> Box<E> {
        arbitrary()
    }
}

impl From<i32> for Box<E> {
    /// The number `i`.
    fn from(i: i32) -> (r: Box<E>) {
        Box::new(E::Num(i))
    }
}

impl vstd::std_specs::convert::FromSpecImpl<i32> for Box<E> {
    open spec fn obeys_from_spec() -> bool {
        true
    }

    open spec fn from_spec(i: i32) -> Box<E> {
        Box::new(E::Num(i))
    }
}

impl<'a> From<&'a i32> for Box<E> {
    /// The number `*i`.
    fn from(i: &'a i32) -> (r: Box<E>) {
        Box::new(E::Num(*i))
    }
}

impl<'a> vstd::std_specs::convert::FromSpecImpl<&'a i32> for Box<E> {
    open spec fn obeys_from_spec() -> bool {
        true
    }

    open spec fn from_spec(i: &'a i32) -> Box<E> {
        Box::new(E::Num(*i))
    }
}

impl<'a> From<&'a Box<E>> for Box<E> {
    /// A copy of `x`.
    fn from(x: &'a Box<E>) -> (r: Box<E>)
        ensures
            r@ == x@,
    {
        clone_box(x)
    }
}

impl<'a> vstd::std_specs::convert::FromSpecImpl<&'a Box<E>> for Box<E> {
    open spec fn obeys_from_spec() -> bool {
        false
    }

    open spec fn from_spec(x: &'a Box<E>) -> Box<E> {
        arbitrary()
    }
}

impl<'a> From<&'a mut Box<E>> for Box<E> {
    /// A copy of `x`.
    fn from(x: &'a mut Box<E>) -> (r: Box<E>)
        ensures
            r@ == old(x)@,
            *final(x) == *old(x),
    {
        clone_box(x)
    }
}

impl<'a> vstd::std_specs::convert::FromSpecImpl<&'a mut Box<E>> for Box<E> {
    open spec fn obeys_from_spec() -> bool {
        false
    }

    open spec fn from_spec(x: &'a mut Box<E>) -> Box<E> {
        arbitrary()
    }
}

} // verus!
