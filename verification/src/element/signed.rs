//! The signed machine integers as elements.
//!
//! Arithmetic is the machine's own. Conversions to and from the wide integers
//! go through num and random draws through rand; what is believed of those
//! calls is written on the function that makes each of them.

use super::Element;
use vstd::prelude::*;

verus! {

/// num's `FromPrimitive::from_isize` for `i8`: the same number where `i8` can hold
/// it, nothing otherwise.
#[verifier::external_body]
fn i8_from_isize(n: isize) -> (r: Option<i8>)
    ensures
        r is Some <==> i8::MIN <= n <= i8::MAX,
        r matches Some(e) ==> e == n,
{
    <i8 as num::FromPrimitive>::from_isize(n)
}

/// num's `ToPrimitive::to_isize` for `i8`: the same number where `isize` can hold
/// it, nothing otherwise.
#[verifier::external_body]
fn i8_to_isize(e: i8) -> (r: Option<isize>)
    ensures
        r is Some <==> isize::MIN <= e <= isize::MAX,
        r matches Some(n) ==> n == e,
{
    num::ToPrimitive::to_isize(&e)
}

/// num's `ToPrimitive::to_usize` for `i8`: the same number where `usize` can hold
/// it, nothing otherwise.
#[verifier::external_body]
fn i8_to_usize(e: i8) -> (r: Option<usize>)
    ensures
        r is Some <==> 0 <= e <= usize::MAX,
        r matches Some(n) ==> n == e,
{
    num::ToPrimitive::to_usize(&e)
}

/// rand's `random` for `i8`: a draw from the thread's generator, of which nothing
/// is known beforehand.
#[verifier::external_body]
fn i8_random() -> i8 {
    rand::random::<i8>()
}

impl Element for i8 {
    open spec fn value(self) -> int {
        self as int
    }

    open spec fn representable(v: int) -> bool {
        i8::MIN <= v <= i8::MAX
    }

    proof fn lemma_value_representable(self) {
    }

    proof fn lemma_value_injective(a: Self, b: Self) {
    }

    proof fn lemma_zero_and_one_representable() {
    }

    fn zero() -> (r: Self) {
        0
    }

    fn random() -> (r: Self) {
        i8_random()
    }

    fn from_isize(n: isize) -> (r: Option<Self>) {
        i8_from_isize(n)
    }

    fn to_isize(self) -> (r: Option<isize>) {
        i8_to_isize(self)
    }

    fn to_usize(self) -> (r: Option<usize>) {
        i8_to_usize(self)
    }

    fn plus(self, rhs: Self) -> (r: Self) {
        self + rhs
    }

    fn minus(self, rhs: Self) -> (r: Self) {
        self - rhs
    }

    fn times(self, rhs: Self) -> (r: Self) {
        self * rhs
    }

    fn same(self, rhs: Self) -> (r: bool) {
        self == rhs
    }
}

/// num's `FromPrimitive::from_isize` for `i16`: the same number where `i16` can hold
/// it, nothing otherwise.
#[verifier::external_body]
fn i16_from_isize(n: isize) -> (r: Option<i16>)
    ensures
        r is Some <==> i16::MIN <= n <= i16::MAX,
        r matches Some(e) ==> e == n,
{
    <i16 as num::FromPrimitive>::from_isize(n)
}

/// num's `ToPrimitive::to_isize` for `i16`: the same number where `isize` can hold
/// it, nothing otherwise.
#[verifier::external_body]
fn i16_to_isize(e: i16) -> (r: Option<isize>)
    ensures
        r is Some <==> isize::MIN <= e <= isize::MAX,
        r matches Some(n) ==> n == e,
{
    num::ToPrimitive::to_isize(&e)
}

/// num's `ToPrimitive::to_usize` for `i16`: the same number where `usize` can hold
/// it, nothing otherwise.
#[verifier::external_body]
fn i16_to_usize(e: i16) -> (r: Option<usize>)
    ensures
        r is Some <==> 0 <= e <= usize::MAX,
        r matches Some(n) ==> n == e,
{
    num::ToPrimitive::to_usize(&e)
}

/// rand's `random` for `i16`: a draw from the thread's generator, of which nothing
/// is known beforehand.
#[verifier::external_body]
fn i16_random() -> i16 {
    rand::random::<i16>()
}

impl Element for i16 {
    open spec fn value(self) -> int {
        self as int
    }

    open spec fn representable(v: int) -> bool {
        i16::MIN <= v <= i16::MAX
    }

    proof fn lemma_value_representable(self) {
    }

    proof fn lemma_value_injective(a: Self, b: Self) {
    }

    proof fn lemma_zero_and_one_representable() {
    }

    fn zero() -> (r: Self) {
        0
    }

    fn random() -> (r: Self) {
        i16_random()
    }

    fn from_isize(n: isize) -> (r: Option<Self>) {
        i16_from_isize(n)
    }

    fn to_isize(self) -> (r: Option<isize>) {
        i16_to_isize(self)
    }

    fn to_usize(self) -> (r: Option<usize>) {
        i16_to_usize(self)
    }

    fn plus(self, rhs: Self) -> (r: Self) {
        self + rhs
    }

    fn minus(self, rhs: Self) -> (r: Self) {
        self - rhs
    }

    fn times(self, rhs: Self) -> (r: Self) {
        self * rhs
    }

    fn same(self, rhs: Self) -> (r: bool) {
        self == rhs
    }
}

/// num's `FromPrimitive::from_isize` for `i32`: the same number where `i32` can hold
/// it, nothing otherwise.
#[verifier::external_body]
fn i32_from_isize(n: isize) -> (r: Option<i32>)
    ensures
        r is Some <==> i32::MIN <= n <= i32::MAX,
        r matches Some(e) ==> e == n,
{
    <i32 as num::FromPrimitive>::from_isize(n)
}

/// num's `ToPrimitive::to_isize` for `i32`: the same number where `isize` can hold
/// it, nothing otherwise.
#[verifier::external_body]
fn i32_to_isize(e: i32) -> (r: Option<isize>)
    ensures
        r is Some <==> isize::MIN <= e <= isize::MAX,
        r matches Some(n) ==> n == e,
{
    num::ToPrimitive::to_isize(&e)
}

/// num's `ToPrimitive::to_usize` for `i32`: the same number where `usize` can hold
/// it, nothing otherwise.
#[verifier::external_body]
fn i32_to_usize(e: i32) -> (r: Option<usize>)
    ensures
        r is Some <==> 0 <= e <= usize::MAX,
        r matches Some(n) ==> n == e,
{
    num::ToPrimitive::to_usize(&e)
}

/// rand's `random` for `i32`: a draw from the thread's generator, of which nothing
/// is known beforehand.
#[verifier::external_body]
fn i32_random() -> i32 {
    rand::random::<i32>()
}

impl Element for i32 {
    open spec fn value(self) -> int {
        self as int
    }

    open spec fn representable(v: int) -> bool {
        i32::MIN <= v <= i32::MAX
    }

    proof fn lemma_value_representable(self) {
    }

    proof fn lemma_value_injective(a: Self, b: Self) {
    }

    proof fn lemma_zero_and_one_representable() {
    }

    fn zero() -> (r: Self) {
        0
    }

    fn random() -> (r: Self) {
        i32_random()
    }

    fn from_isize(n: isize) -> (r: Option<Self>) {
        i32_from_isize(n)
    }

    fn to_isize(self) -> (r: Option<isize>) {
        i32_to_isize(self)
    }

    fn to_usize(self) -> (r: Option<usize>) {
        i32_to_usize(self)
    }

    fn plus(self, rhs: Self) -> (r: Self) {
        self + rhs
    }

    fn minus(self, rhs: Self) -> (r: Self) {
        self - rhs
    }

    fn times(self, rhs: Self) -> (r: Self) {
        self * rhs
    }

    fn same(self, rhs: Self) -> (r: bool) {
        self == rhs
    }
}

/// num's `FromPrimitive::from_isize` for `i64`: the same number where `i64` can hold
/// it, nothing otherwise.
#[verifier::external_body]
fn i64_from_isize(n: isize) -> (r: Option<i64>)
    ensures
        r is Some <==> i64::MIN <= n <= i64::MAX,
        r matches Some(e) ==> e == n,
{
    <i64 as num::FromPrimitive>::from_isize(n)
}

/// num's `ToPrimitive::to_isize` for `i64`: the same number where `isize` can hold
/// it, nothing otherwise.
#[verifier::external_body]
fn i64_to_isize(e: i64) -> (r: Option<isize>)
    ensures
        r is Some <==> isize::MIN <= e <= isize::MAX,
        r matches Some(n) ==> n == e,
{
    num::ToPrimitive::to_isize(&e)
}

/// num's `ToPrimitive::to_usize` for `i64`: the same number where `usize` can hold
/// it, nothing otherwise.
#[verifier::external_body]
fn i64_to_usize(e: i64) -> (r: Option<usize>)
    ensures
        r is Some <==> 0 <= e <= usize::MAX,
        r matches Some(n) ==> n == e,
{
    num::ToPrimitive::to_usize(&e)
}

/// rand's `random` for `i64`: a draw from the thread's generator, of which nothing
/// is known beforehand.
#[verifier::external_body]
fn i64_random() -> i64 {
    rand::random::<i64>()
}

impl Element for i64 {
    open spec fn value(self) -> int {
        self as int
    }

    open spec fn representable(v: int) -> bool {
        i64::MIN <= v <= i64::MAX
    }

    proof fn lemma_value_representable(self) {
    }

    proof fn lemma_value_injective(a: Self, b: Self) {
    }

    proof fn lemma_zero_and_one_representable() {
    }

    fn zero() -> (r: Self) {
        0
    }

    fn random() -> (r: Self) {
        i64_random()
    }

    fn from_isize(n: isize) -> (r: Option<Self>) {
        i64_from_isize(n)
    }

    fn to_isize(self) -> (r: Option<isize>) {
        i64_to_isize(self)
    }

    fn to_usize(self) -> (r: Option<usize>) {
        i64_to_usize(self)
    }

    fn plus(self, rhs: Self) -> (r: Self) {
        self + rhs
    }

    fn minus(self, rhs: Self) -> (r: Self) {
        self - rhs
    }

    fn times(self, rhs: Self) -> (r: Self) {
        self * rhs
    }

    fn same(self, rhs: Self) -> (r: bool) {
        self == rhs
    }
}

/// num's `FromPrimitive::from_isize` for `isize`: the same number where `isize` can hold
/// it, nothing otherwise.
#[verifier::external_body]
fn isize_from_isize(n: isize) -> (r: Option<isize>)
    ensures
        r is Some <==> isize::MIN <= n <= isize::MAX,
        r matches Some(e) ==> e == n,
{
    <isize as num::FromPrimitive>::from_isize(n)
}

/// num's `ToPrimitive::to_isize` for `isize`: the same number where `isize` can hold
/// it, nothing otherwise.
#[verifier::external_body]
fn isize_to_isize(e: isize) -> (r: Option<isize>)
    ensures
        r is Some <==> isize::MIN <= e <= isize::MAX,
        r matches Some(n) ==> n == e,
{
    num::ToPrimitive::to_isize(&e)
}

/// num's `ToPrimitive::to_usize` for `isize`: the same number where `usize` can hold
/// it, nothing otherwise.
#[verifier::external_body]
fn isize_to_usize(e: isize) -> (r: Option<usize>)
    ensures
        r is Some <==> 0 <= e <= usize::MAX,
        r matches Some(n) ==> n == e,
{
    num::ToPrimitive::to_usize(&e)
}

/// rand's `random` for `isize`: a draw from the thread's generator, of which nothing
/// is known beforehand.
#[verifier::external_body]
fn isize_random() -> isize {
    rand::random::<isize>()
}

impl Element for isize {
    open spec fn value(self) -> int {
        self as int
    }

    open spec fn representable(v: int) -> bool {
        isize::MIN <= v <= isize::MAX
    }

    proof fn lemma_value_representable(self) {
    }

    proof fn lemma_value_injective(a: Self, b: Self) {
    }

    proof fn lemma_zero_and_one_representable() {
    }

    fn zero() -> (r: Self) {
        0
    }

    fn random() -> (r: Self) {
        isize_random()
    }

    fn from_isize(n: isize) -> (r: Option<Self>) {
        isize_from_isize(n)
    }

    fn to_isize(self) -> (r: Option<isize>) {
        isize_to_isize(self)
    }

    fn to_usize(self) -> (r: Option<usize>) {
        isize_to_usize(self)
    }

    fn plus(self, rhs: Self) -> (r: Self) {
        self + rhs
    }

    fn minus(self, rhs: Self) -> (r: Self) {
        self - rhs
    }

    fn times(self, rhs: Self) -> (r: Self) {
        self * rhs
    }

    fn same(self, rhs: Self) -> (r: bool) {
        self == rhs
    }
}

} // verus!
