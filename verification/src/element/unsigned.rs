//! The unsigned machine integers as elements.
//!
//! Arithmetic is the machine's own. Conversions to and from the wide integers
//! go through num and random draws through rand; what is believed of those
//! calls is written on the function that makes each of them.

use super::Element;
use vstd::prelude::*;

verus! {

/// num's `FromPrimitive::from_isize` for `u8`: the same number where `u8` can hold
/// it, nothing otherwise.
#[verifier::external_body]
fn u8_from_isize(n: isize) -> (r: Option<u8>)
    ensures
        r is Some <==> 0 <= n <= u8::MAX,
        r matches Some(e) ==> e == n,
{
    <u8 as num::FromPrimitive>::from_isize(n)
}

/// num's `ToPrimitive::to_isize` for `u8`: the same number where `isize` can hold
/// it, nothing otherwise.
#[verifier::external_body]
fn u8_to_isize(e: u8) -> (r: Option<isize>)
    ensures
        r is Some <==> isize::MIN <= e <= isize::MAX,
        r matches Some(n) ==> n == e,
{
    num::ToPrimitive::to_isize(&e)
}

/// num's `ToPrimitive::to_usize` for `u8`: the same number where `usize` can hold
/// it, nothing otherwise.
#[verifier::external_body]
fn u8_to_usize(e: u8) -> (r: Option<usize>)
    ensures
        r is Some <==> 0 <= e <= usize::MAX,
        r matches Some(n) ==> n == e,
{
    num::ToPrimitive::to_usize(&e)
}

/// rand's `random` for `u8`: a draw from the thread's generator, of which nothing
/// is known beforehand.
#[verifier::external_body]
fn u8_random() -> u8 {
    rand::random::<u8>()
}

impl Element for u8 {
    open spec fn value(self) -> int {
        self as int
    }

    open spec fn representable(v: int) -> bool {
        0 <= v <= u8::MAX
    }

    proof fn lemma_value_representable(self) {
    }

    proof fn lemma_value_injective(a: Self, b: Self) {
    }

    proof fn lemma_zero_and_one_representable() {
    }

    fn zero() -> (r: Self) {
        0
    }

    fn random() -> (r: Self) {
        u8_random()
    }

    fn from_isize(n: isize) -> (r: Option<Self>) {
        u8_from_isize(n)
    }

    fn to_isize(self) -> (r: Option<isize>) {
        u8_to_isize(self)
    }

    fn to_usize(self) -> (r: Option<usize>) {
        u8_to_usize(self)
    }

    fn plus(self, rhs: Self) -> (r: Self) {
        self + rhs
    }

    fn minus(self, rhs: Self) -> (r: Self) {
        self - rhs
    }

    fn times(self, rhs: Self) -> (r: Self) {
        self * rhs
    }

    fn same(self, rhs: Self) -> (r: bool) {
        self == rhs
    }
}

/// num's `FromPrimitive::from_isize` for `u16`: the same number where `u16` can hold
/// it, nothing otherwise.
#[verifier::external_body]
fn u16_from_isize(n: isize) -> (r: Option<u16>)
    ensures
        r is Some <==> 0 <= n <= u16::MAX,
        r matches Some(e) ==> e == n,
{
    <u16 as num::FromPrimitive>::from_isize(n)
}

/// num's `ToPrimitive::to_isize` for `u16`: the same number where `isize` can hold
/// it, nothing otherwise.
#[verifier::external_body]
fn u16_to_isize(e: u16) -> (r: Option<isize>)
    ensures
        r is Some <==> isize::MIN <= e <= isize::MAX,
        r matches Some(n) ==> n == e,
{
    num::ToPrimitive::to_isize(&e)
}

/// num's `ToPrimitive::to_usize` for `u16`: the same number where `usize` can hold
/// it, nothing otherwise.
#[verifier::external_body]
fn u16_to_usize(e: u16) -> (r: Option<usize>)
    ensures
        r is Some <==> 0 <= e <= usize::MAX,
        r matches Some(n) ==> n == e,
{
    num::ToPrimitive::to_usize(&e)
}

/// rand's `random` for `u16`: a draw from the thread's generator, of which nothing
/// is known beforehand.
#[verifier::external_body]
fn u16_random() -> u16 {
    rand::random::<u16>()
}

impl Element for u16 {
    open spec fn value(self) -> int {
        self as int
    }

    open spec fn representable(v: int) -> bool {
        0 <= v <= u16::MAX
    }

    proof fn lemma_value_representable(self) {
    }

    proof fn lemma_value_injective(a: Self, b: Self) {
    }

    proof fn lemma_zero_and_one_representable() {
    }

    fn zero() -> (r: Self) {
        0
    }

    fn random() -> (r: Self) {
        u16_random()
    }

    fn from_isize(n: isize) -> (r: Option<Self>) {
        u16_from_isize(n)
    }

    fn to_isize(self) -> (r: Option<isize>) {
        u16_to_isize(self)
    }

    fn to_usize(self) -> (r: Option<usize>) {
        u16_to_usize(self)
    }

    fn plus(self, rhs: Self) -> (r: Self) {
        self + rhs
    }

    fn minus(self, rhs: Self) -> (r: Self) {
        self - rhs
    }

    fn times(self, rhs: Self) -> (r: Self) {
        self * rhs
    }

    fn same(self, rhs: Self) -> (r: bool) {
        self == rhs
    }
}

/// num's `FromPrimitive::from_isize` for `u32`: the same number where `u32` can hold
/// it, nothing otherwise.
#[verifier::external_body]
fn u32_from_isize(n: isize) -> (r: Option<u32>)
    ensures
        r is Some <==> 0 <= n <= u32::MAX,
        r matches Some(e) ==> e == n,
{
    <u32 as num::FromPrimitive>::from_isize(n)
}

/// num's `ToPrimitive::to_isize` for `u32`: the same number where `isize` can hold
/// it, nothing otherwise.
#[verifier::external_body]
fn u32_to_isize(e: u32) -> (r: Option<isize>)
    ensures
        r is Some <==> isize::MIN <= e <= isize::MAX,
        r matches Some(n) ==> n == e,
{
    num::ToPrimitive::to_isize(&e)
}

/// num's `ToPrimitive::to_usize` for `u32`: the same number where `usize` can hold
/// it, nothing otherwise.
#[verifier::external_body]
fn u32_to_usize(e: u32) -> (r: Option<usize>)
    ensures
        r is Some <==> 0 <= e <= usize::MAX,
        r matches Some(n) ==> n == e,
{
    num::ToPrimitive::to_usize(&e)
}

/// rand's `random` for `u32`: a draw from the thread's generator, of which nothing
/// is known beforehand.
#[verifier::external_body]
fn u32_random() -> u32 {
    rand::random::<u32>()
}

impl Element for u32 {
    open spec fn value(self) -> int {
        self as int
    }

    open spec fn representable(v: int) -> bool {
        0 <= v <= u32::MAX
    }

    proof fn lemma_value_representable(self) {
    }

    proof fn lemma_value_injective(a: Self, b: Self) {
    }

    proof fn lemma_zero_and_one_representable() {
    }

    fn zero() -> (r: Self) {
        0
    }

    fn random() -> (r: Self) {
        u32_random()
    }

    fn from_isize(n: isize) -> (r: Option<Self>) {
        u32_from_isize(n)
    }

    fn to_isize(self) -> (r: Option<isize>) {
        u32_to_isize(self)
    }

    fn to_usize(self) -> (r: Option<usize>) {
        u32_to_usize(self)
    }

    fn plus(self, rhs: Self) -> (r: Self) {
        self + rhs
    }

    fn minus(self, rhs: Self) -> (r: Self) {
        self - rhs
    }

    fn times(self, rhs: Self) -> (r: Self) {
        self * rhs
    }

    fn same(self, rhs: Self) -> (r: bool) {
        self == rhs
    }
}

/// num's `FromPrimitive::from_isize` for `u64`: the same number where `u64` can hold
/// it, nothing otherwise.
#[verifier::external_body]
fn u64_from_isize(n: isize) -> (r: Option<u64>)
    ensures
        r is Some <==> 0 <= n <= u64::MAX,
        r matches Some(e) ==> e == n,
{
    <u64 as num::FromPrimitive>::from_isize(n)
}

/// num's `ToPrimitive::to_isize` for `u64`: the same number where `isize` can hold
/// it, nothing otherwise.
#[verifier::external_body]
fn u64_to_isize(e: u64) -> (r: Option<isize>)
    ensures
        r is Some <==> isize::MIN <= e <= isize::MAX,
        r matches Some(n) ==> n == e,
{
    num::ToPrimitive::to_isize(&e)
}

/// num's `ToPrimitive::to_usize` for `u64`: the same number where `usize` can hold
/// it, nothing otherwise.
#[verifier::external_body]
fn u64_to_usize(e: u64) -> (r: Option<usize>)
    ensures
        r is Some <==> 0 <= e <= usize::MAX,
        r matches Some(n) ==> n == e,
{
    num::ToPrimitive::to_usize(&e)
}

/// rand's `random` for `u64`: a draw from the thread's generator, of which nothing
/// is known beforehand.
#[verifier::external_body]
fn u64_random() -> u64 {
    rand::random::<u64>()
}

impl Element for u64 {
    open spec fn value(self) -> int {
        self as int
    }

    open spec fn representable(v: int) -> bool {
        0 <= v <= u64::MAX
    }

    proof fn lemma_value_representable(self) {
    }

    proof fn lemma_value_injective(a: Self, b: Self) {
    }

    proof fn lemma_zero_and_one_representable() {
    }

    fn zero() -> (r: Self) {
        0
    }

    fn random() -> (r: Self) {
        u64_random()
    }

    fn from_isize(n: isize) -> (r: Option<Self>) {
        u64_from_isize(n)
    }

    fn to_isize(self) -> (r: Option<isize>) {
        u64_to_isize(self)
    }

    fn to_usize(self) -> (r: Option<usize>) {
        u64_to_usize(self)
    }

    fn plus(self, rhs: Self) -> (r: Self) {
        self + rhs
    }

    fn minus(self, rhs: Self) -> (r: Self) {
        self - rhs
    }

    fn times(self, rhs: Self) -> (r: Self) {
        self * rhs
    }

    fn same(self, rhs: Self) -> (r: bool) {
        self == rhs
    }
}

/// num's `FromPrimitive::from_isize` for `usize`: the same number where `usize` can hold
/// it, nothing otherwise.
#[verifier::external_body]
fn usize_from_isize(n: isize) -> (r: Option<usize>)
    ensures
        r is Some <==> 0 <= n <= usize::MAX,
        r matches Some(e) ==> e == n,
{
    <usize as num::FromPrimitive>::from_isize(n)
}

/// num's `ToPrimitive::to_isize` for `usize`: the same number where `isize` can hold
/// it, nothing otherwise.
#[verifier::external_body]
fn usize_to_isize(e: usize) -> (r: Option<isize>)
    ensures
        r is Some <==> isize::MIN <= e <= isize::MAX,
        r matches Some(n) ==> n == e,
{
    num::ToPrimitive::to_isize(&e)
}

/// num's `ToPrimitive::to_usize` for `usize`: the same number where `usize` can hold
/// it, nothing otherwise.
#[verifier::external_body]
fn usize_to_usize(e: usize) -> (r: Option<usize>)
    ensures
        r is Some <==> 0 <= e <= usize::MAX,
        r matches Some(n) ==> n == e,
{
    num::ToPrimitive::to_usize(&e)
}

/// rand's `random` for `usize`: a draw from the thread's generator, of which nothing
/// is known beforehand.
#[verifier::external_body]
fn usize_random() -> usize {
    rand::random::<usize>()
}

impl Element for usize {
    open spec fn value(self) -> int {
        self as int
    }

    open spec fn representable(v: int) -> bool {
        0 <= v <= usize::MAX
    }

    proof fn lemma_value_representable(self) {
    }

    proof fn lemma_value_injective(a: Self, b: Self) {
    }

    proof fn lemma_zero_and_one_representable() {
    }

    fn zero() -> (r: Self) {
        0
    }

    fn random() -> (r: Self) {
        usize_random()
    }

    fn from_isize(n: isize) -> (r: Option<Self>) {
        usize_from_isize(n)
    }

    fn to_isize(self) -> (r: Option<isize>) {
        usize_to_isize(self)
    }

    fn to_usize(self) -> (r: Option<usize>) {
        usize_to_usize(self)
    }

    fn plus(self, rhs: Self) -> (r: Self) {
        self + rhs
    }

    fn minus(self, rhs: Self) -> (r: Self) {
        self - rhs
    }

    fn times(self, rhs: Self) -> (r: Self) {
        self * rhs
    }

    fn same(self, rhs: Self) -> (r: bool) {
        self == rhs
    }
}

} // verus!
