//! Maps that store only entries with nonzero values.
//!
//! Every other key holds zero. Most numeric types' [Default] value is zero as well, but these
//! types say so by their name.

use vstd::prelude::*;

use crate::{Commonality, TotalBTreeMap, TotalHashMap};

verus! {

/// A hash map that stores only entries with nonzero values; every other key holds zero.
pub type NonZeroHashMap<K, V> = TotalHashMap<K, V, ZeroCommonality>;

/// An ordered map that stores only entries with nonzero values; every other key holds zero.
pub type NonZeroBTreeMap<K, V> = TotalBTreeMap<K, V, ZeroCommonality>;

/// A [commonality](Commonality) whose common value is the number zero, as `num_traits::Zero`
/// gives it.
#[derive(Debug, Clone, Copy, PartialEq, Eq, Hash)]
pub struct ZeroCommonality(());

impl Commonality<u8> for ZeroCommonality {
    open spec fn spec_is_common(value: u8) -> bool {
        value == 0
    }

    fn common() -> (r: u8) {
        zero_u8()
    }

    fn is_common(value: &u8) -> (r: bool) {
        is_zero_u8(value)
    }
}

/// Relies on `num_traits::Zero::zero` for `u8`, which is `0`.
#[verifier::external_body]
fn zero_u8() -> (r: u8)
    ensures
        r == 0,
{
    <u8 as num_traits::Zero>::zero()
}

/// Relies on `num_traits::Zero::is_zero` for `u8`, which compares with `0`.
#[verifier::external_body]
fn is_zero_u8(value: &u8) -> (r: bool)
    ensures
        r == (*value == 0),
{
    num_traits::Zero::is_zero(value)
}

impl Commonality<u16> for ZeroCommonality {
    open spec fn spec_is_common(value: u16) -> bool {
        value == 0
    }

    fn common() -> (r: u16) {
        zero_u16()
    }

    fn is_common(value: &u16) -> (r: bool) {
        is_zero_u16(value)
    }
}

/// Relies on `num_traits::Zero::zero` for `u16`, which is `0`.
#[verifier::external_body]
fn zero_u16() -> (r: u16)
    ensures
        r == 0,
{
    <u16 as num_traits::Zero>::zero()
}

/// Relies on `num_traits::Zero::is_zero` for `u16`, which compares with `0`.
#[verifier::external_body]
fn is_zero_u16(value: &u16) -> (r: bool)
    ensures
        r == (*value == 0),
{
    num_traits::Zero::is_zero(value)
}

impl Commonality<u32> for ZeroCommonality {
    open spec fn spec_is_common(value: u32) -> bool {
        value == 0
    }

    fn common() -> (r: u32) {
        zero_u32()
    }

    fn is_common(value: &u32) -> (r: bool) {
        is_zero_u32(value)
    }
}

/// Relies on `num_traits::Zero::zero` for `u32`, which is `0`.
#[verifier::external_body]
fn zero_u32() -> (r: u32)
    ensures
        r == 0,
{
    <u32 as num_traits::Zero>::zero()
}

/// Relies on `num_traits::Zero::is_zero` for `u32`, which compares with `0`.
#[verifier::external_body]
fn is_zero_u32(value: &u32) -> (r: bool)
    ensures
        r == (*value == 0),
{
    num_traits::Zero::is_zero(value)
}

impl Commonality<u64> for ZeroCommonality {
    open spec fn spec_is_common(value: u64) -> bool {
        value == 0
    }

    fn common() -> (r: u64) {
        zero_u64()
    }

    fn is_common(value: &u64) -> (r: bool) {
        is_zero_u64(value)
    }
}

/// Relies on `num_traits::Zero::zero` for `u64`, which is `0`.
#[verifier::external_body]
fn zero_u64() -> (r: u64)
    ensures
        r == 0,
{
    <u64 as num_traits::Zero>::zero()
}

/// Relies on `num_traits::Zero::is_zero` for `u64`, which compares with `0`.
#[verifier::external_body]
fn is_zero_u64(value: &u64) -> (r: bool)
    ensures
        r == (*value == 0),
{
    num_traits::Zero::is_zero(value)
}

impl Commonality<u128> for ZeroCommonality {
    open spec fn spec_is_common(value: u128) -> bool {
        value == 0
    }

    fn common() -> (r: u128) {
        zero_u128()
    }

    fn is_common(value: &u128) -> (r: bool) {
        is_zero_u128(value)
    }
}

/// Relies on `num_traits::Zero::zero` for `u128`, which is `0`.
#[verifier::external_body]
fn zero_u128() -> (r: u128)
    ensures
        r == 0,
{
    <u128 as num_traits::Zero>::zero()
}

/// Relies on `num_traits::Zero::is_zero` for `u128`, which compares with `0`.
#[verifier::external_body]
fn is_zero_u128(value: &u128) -> (r: bool)
    ensures
        r == (*value == 0),
{
    num_traits::Zero::is_zero(value)
}

impl Commonality<usize> for ZeroCommonality {
    open spec fn spec_is_common(value: usize) -> bool {
        value == 0
    }

    fn common() -> (r: usize) {
        zero_usize()
    }

    fn is_common(value: &usize) -> (r: bool) {
        is_zero_usize(value)
    }
}

/// Relies on `num_traits::Zero::zero` for `usize`, which is `0`.
#[verifier::external_body]
fn zero_usize() -> (r: usize)
    ensures
        r == 0,
{
    <usize as num_traits::Zero>::zero()
}

/// Relies on `num_traits::Zero::is_zero` for `usize`, which compares with `0`.
#[verifier::external_body]
fn is_zero_usize(value: &usize) -> (r: bool)
    ensures
        r == (*value == 0),
{
    num_traits::Zero::is_zero(value)
}

impl Commonality<i8> for ZeroCommonality {
    open spec fn spec_is_common(value: i8) -> bool {
        value == 0
    }

    fn common() -> (r: i8) {
        zero_i8()
    }

    fn is_common(value: &i8) -> (r: bool) {
        is_zero_i8(value)
    }
}

/// Relies on `num_traits::Zero::zero` for `i8`, which is `0`.
#[verifier::external_body]
fn zero_i8() -> (r: i8)
    ensures
        r == 0,
{
    <i8 as num_traits::Zero>::zero()
}

/// Relies on `num_traits::Zero::is_zero` for `i8`, which compares with `0`.
#[verifier::external_body]
fn is_zero_i8(value: &i8) -> (r: bool)
    ensures
        r == (*value == 0),
{
    num_traits::Zero::is_zero(value)
}

impl Commonality<i16> for ZeroCommonality {
    open spec fn spec_is_common(value: i16) -> bool {
        value == 0
    }

    fn common() -> (r: i16) {
        zero_i16()
    }

    fn is_common(value: &i16) -> (r: bool) {
        is_zero_i16(value)
    }
}

/// Relies on `num_traits::Zero::zero` for `i16`, which is `0`.
#[verifier::external_body]
fn zero_i16() -> (r: i16)
    ensures
        r == 0,
{
    <i16 as num_traits::Zero>::zero()
}

/// Relies on `num_traits::Zero::is_zero` for `i16`, which compares with `0`.
#[verifier::external_body]
fn is_zero_i16(value: &i16) -> (r: bool)
    ensures
        r == (*value == 0),
{
    num_traits::Zero::is_zero(value)
}

impl Commonality<i32> for ZeroCommonality {
    open spec fn spec_is_common(value: i32) -> bool {
        value == 0
    }

    fn common() -> (r: i32) {
        zero_i32()
    }

    fn is_common(value: &i32) -> (r: bool) {
        is_zero_i32(value)
    }
}

/// Relies on `num_traits::Zero::zero` for `i32`, which is `0`.
#[verifier::external_body]
fn zero_i32() -> (r: i32)
    ensures
        r == 0,
{
    <i32 as num_traits::Zero>::zero()
}

/// Relies on `num_traits::Zero::is_zero` for `i32`, which compares with `0`.
#[verifier::external_body]
fn is_zero_i32(value: &i32) -> (r: bool)
    ensures
        r == (*value == 0),
{
    num_traits::Zero::is_zero(value)
}

impl Commonality<i64> for ZeroCommonality {
    open spec fn spec_is_common(value: i64) -> bool {
        value == 0
    }

    fn common() -> (r: i64) {
        zero_i64()
    }

    fn is_common(value: &i64) -> (r: bool) {
        is_zero_i64(value)
    }
}

/// Relies on `num_traits::Zero::zero` for `i64`, which is `0`.
#[verifier::external_body]
fn zero_i64() -> (r: i64)
    ensures
        r == 0,
{
    <i64 as num_traits::Zero>::zero()
}

/// Relies on `num_traits::Zero::is_zero` for `i64`, which compares with `0`.
#[verifier::external_body]
fn is_zero_i64(value: &i64) -> (r: bool)
    ensures
        r == (*value == 0),
{
    num_traits::Zero::is_zero(value)
}

impl Commonality<i128> for ZeroCommonality {
    open spec fn spec_is_common(value: i128) -> bool {
        value == 0
    }

    fn common() -> (r: i128) {
        zero_i128()
    }

    fn is_common(value: &i128) -> (r: bool) {
        is_zero_i128(value)
    }
}

/// Relies on `num_traits::Zero::zero` for `i128`, which is `0`.
#[verifier::external_body]
fn zero_i128() -> (r: i128)
    ensures
        r == 0,
{
    <i128 as num_traits::Zero>::zero()
}

/// Relies on `num_traits::Zero::is_zero` for `i128`, which compares with `0`.
#[verifier::external_body]
fn is_zero_i128(value: &i128) -> (r: bool)
    ensures
        r == (*value == 0),
{
    num_traits::Zero::is_zero(value)
}

impl Commonality<isize> for ZeroCommonality {
    open spec fn spec_is_common(value: isize) -> bool {
        value == 0
    }

    fn common() -> (r: isize) {
        zero_isize()
    }

    fn is_common(value: &isize) -> (r: bool) {
        is_zero_isize(value)
    }
}

/// Relies on `num_traits::Zero::zero` for `isize`, which is `0`.
#[verifier::external_body]
fn zero_isize() -> (r: isize)
    ensures
        r == 0,
{
    <isize as num_traits::Zero>::zero()
}

/// Relies on `num_traits::Zero::is_zero` for `isize`, which compares with `0`.
#[verifier::external_body]
fn is_zero_isize(value: &isize) -> (r: bool)
    ensures
        r == (*value == 0),
{
    num_traits::Zero::is_zero(value)
}

} // verus!
