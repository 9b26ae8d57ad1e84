//! A sample sandboxed program: it reads a seed, derives a depth from it, walks the naive
//! Fibonacci recursion to that depth and greets with what it found.

use sha2::Digest;
use vstd::prelude::*;
use vstd::string::{StringSliceAdditionalSpecFns, StrSliceExecFns};

verus! {

/// The `n`-th Fibonacci number.
pub open spec fn fib_value(n: nat) -> nat
    decreases n,
{
    if n <= 1 {
        n
    } else {
        fib_value((n - 1) as nat) + fib_value((n - 2) as nat)
    }
}

/// The number of calls that the naive recursion makes to compute the `n`-th Fibonacci number,
/// the outermost call included.
pub open spec fn fib_visits(n: nat) -> nat
    decreases n,
{
    if n <= 1 {
        1
    } else {
        1 + fib_visits((n - 1) as nat) + fib_visits((n - 2) as nat)
    }
}

/// A Fibonacci number is never larger than the number of calls that computing it takes.
pub proof fn lemma_fib_value_le_visits(n: nat)
    ensures
        fib_value(n) <= fib_visits(n),
    decreases n,
{
    if n > 1 {
        lemma_fib_value_le_visits((n - 1) as nat);
        lemma_fib_value_le_visits((n - 2) as nat);
    }
}

/// The naive recursion to depth 45 makes 3672623805 calls, and to a smaller depth no more: up
/// to there the count of calls fits in 32 bits.
pub proof fn lemma_fib_visits_bound(n: nat)
    requires
        n <= 45,
    ensures
        fib_visits(n) <= 3672623805,
{
    reveal_with_fuel(fib_visits, 3);
    reveal_with_fuel(fib_value, 3);
    assert(fib_visits(3) == 5 && fib_value(3) == 2);
    assert(fib_visits(5) == 15 && fib_value(5) == 5);
    assert(fib_visits(7) == 41 && fib_value(7) == 13);
    assert(fib_visits(9) == 109 && fib_value(9) == 34);
    assert(fib_visits(11) == 287 && fib_value(11) == 89);
    assert(fib_visits(13) == 753 && fib_value(13) == 233);
    assert(fib_visits(15) == 1973 && fib_value(15) == 610);
    assert(fib_visits(17) == 5167 && fib_value(17) == 1597);
    assert(fib_visits(19) == 13529 && fib_value(19) == 4181);
    assert(fib_visits(21) == 35421 && fib_value(21) == 10946);
    assert(fib_visits(23) == 92735 && fib_value(23) == 28657);
    assert(fib_visits(25) == 242785 && fib_value(25) == 75025);
    assert(fib_visits(27) == 635621 && fib_value(27) == 196418);
    assert(fib_visits(29) == 1664079 && fib_value(29) == 514229);
    assert(fib_visits(31) == 4356617 && fib_value(31) == 1346269);
    assert(fib_visits(33) == 11405773 && fib_value(33) == 3524578);
    assert(fib_visits(35) == 29860703 && fib_value(35) == 9227465);
    assert(fib_visits(37) == 78176337 && fib_value(37) == 24157817);
    assert(fib_visits(39) == 204668309 && fib_value(39) == 63245986);
    assert(fib_visits(41) == 535828591 && fib_value(41) == 165580141);
    assert(fib_visits(43) == 1402817465 && fib_value(43) == 433494437);
    assert(fib_visits(45) == 3672623805 && fib_value(45) == 1134903170);
}

/// The `n`-th Fibonacci number by the naive recursion, and the number of calls it took. Depth 45
/// is the largest for which the number of calls fits in 32 bits.
pub fn fib(n: u32) -> (result: (u32, u32))
    requires
        n <= 45,
    ensures
        result.0 == fib_value(n as nat),
        result.1 == fib_visits(n as nat),
    decreases n,
{
    proof {
        lemma_fib_visits_bound(n as nat);
    }
    let result: u32;
    let mut visits: u32 = 1;
    if n <= 1 {
        result = n;
    } else {
        proof {
            lemma_fib_value_le_visits(n as nat);
        }
        let left = fib(n - 1);
        let right = fib(n - 2);
        result = left.0 + right.0;
        visits += left.1 + right.1;
    }
    (result, visits)
}

/// The SHA-256 digest of a byte string.
pub uninterp spec fn sha256_digest(data: Seq<u8>) -> Seq<u8>;

/// `sha2::Sha256::digest`: the SHA-256 digest of `data`, which has 32 bytes.
#[verifier::external_body]
fn sha256(data: &[u8]) -> (digest: Vec<u8>)
    ensures
        digest@ == sha256_digest(data@),
        digest@.len() == 32,
{
    sha2::Sha256::digest(data).to_vec()
}

/// All bytes of a string combined with exclusive or; 0 for the empty string.
pub open spec fn xor_fold(bytes: Seq<u8>) -> u8
    decreases bytes.len(),
{
    if bytes.len() == 0 {
        0
    } else {
        xor_fold(bytes.drop_last()) ^ bytes.last()
    }
}

/// Combines all bytes of a string with exclusive or.
pub fn fold_xor(bytes: &[u8]) -> (folded: u8)
    ensures
        folded == xor_fold(bytes@),
{
    let mut acc: u8 = 0;
    let mut i: usize = 0;
    while i < bytes.len()
        invariant
            i <= bytes.len(),
            acc == xor_fold(bytes@.take(i as int)),
        decreases bytes.len() - i,
    {
        proof {
            assert(bytes@.take(i + 1).drop_last() == bytes@.take(i as int));
        }
        acc = acc ^ bytes[i];
        i += 1;
    }
    proof {
        assert(bytes@.take(i as int) == bytes@);
    }
    acc
}

/// The byte that a seed stands for: its SHA-256 digest, folded with exclusive or.
pub open spec fn seed_byte(seed: Seq<u8>) -> u8 {
    xor_fold(sha256_digest(seed))
}

/// A byte that depends on every bit of `s`: its SHA-256 digest, folded with exclusive or.
pub fn random_byte(s: &[u8]) -> (byte: u8)
    ensures
        byte == seed_byte(s@),
{
    let digest = sha256(s);
    fold_xor(digest.as_slice())
}

/// How deep the program recurses for a seed: between 10 and 19.
pub open spec fn fib_depth(seed: Seq<u8>) -> nat {
    (seed_byte(seed) % 10 + 10) as nat
}

/// A number in decimal, as ASCII digits without leading zeros.
pub open spec fn decimal(n: nat) -> Seq<u8>
    decreases n,
{
    if n < 10 {
        seq![(48 + n) as u8]
    } else {
        decimal(n / 10).push((48 + n % 10) as u8)
    }
}

/// A number below 2^32 has at most ten decimal digits.
pub proof fn lemma_decimal_len(n: nat)
    requires
        n <= u32::MAX,
    ensures
        1 <= decimal(n).len() <= 10,
{
    reveal_with_fuel(decimal, 11);
}

/// The bytes that a text buffer holds.
pub uninterp spec fn buffer_bytes(buffer: heapless::String<256>) -> Seq<u8>;

#[verifier::external_type_specification]
#[verifier::external_body]
pub struct ExBuffer<const N: usize>(heapless::String<N>);

/// `heapless::String::new`: an empty buffer.
#[verifier::external_body]
fn new_buffer() -> (buffer: heapless::String<256>)
    ensures
        buffer_bytes(buffer) == Seq::<u8>::empty(),
{
    heapless::String::new()
}

/// `heapless::String::clear`: the buffer is empty afterwards.
#[verifier::external_body]
fn clear_buffer(buffer: &mut heapless::String<256>)
    ensures
        buffer_bytes(*final(buffer)) == Seq::<u8>::empty(),
{
    buffer.clear()
}

/// `heapless::String::push_str`: appends the text's bytes if all of them fit into the buffer's
/// 256 bytes, and otherwise fails and leaves the buffer as it was.
#[verifier::external_body]
fn push_text(buffer: &mut heapless::String<256>, text: &str) -> (pushed: Result<(), ()>)
    ensures
        pushed is Ok <==> buffer_bytes(*old(buffer)).len() + text.spec_bytes().len() <= 256,
        pushed is Ok ==> buffer_bytes(*final(buffer)) == buffer_bytes(*old(buffer))
            + text.spec_bytes(),
        pushed is Err ==> buffer_bytes(*final(buffer)) == buffer_bytes(*old(buffer)),
{
    buffer.push_str(text)
}

/// `heapless::String::push` of an ASCII character: appends its one byte if the buffer holds
/// fewer than 256 bytes, and otherwise fails and leaves the buffer as it was.
#[verifier::external_body]
fn push_ascii(buffer: &mut heapless::String<256>, byte: u8) -> (pushed: Result<(), ()>)
    requires
        byte < 128,
    ensures
        pushed is Ok <==> buffer_bytes(*old(buffer)).len() < 256,
        pushed is Ok ==> buffer_bytes(*final(buffer)) == buffer_bytes(*old(buffer)).push(byte),
        pushed is Err ==> buffer_bytes(*final(buffer)) == buffer_bytes(*old(buffer)),
{
    buffer.push(byte as char)
}

/// `heapless::String::as_str`, copied out: the bytes that the buffer holds.
#[verifier::external_body]
fn buffer_contents(buffer: &heapless::String<256>) -> (bytes: Vec<u8>)
    ensures
        bytes@ == buffer_bytes(*buffer),
{
    buffer.as_str().as_bytes().to_vec()
}

/// Appends a number in decimal to the buffer. It fails if and only if the digits do not all
/// fit; the buffer may then hold some of them.
fn push_decimal(buffer: &mut heapless::String<256>, n: u32) -> (pushed: Result<(), ()>)
    ensures
        pushed is Ok <==> buffer_bytes(*old(buffer)).len() + decimal(n as nat).len() <= 256,
        pushed is Ok ==> buffer_bytes(*final(buffer)) == buffer_bytes(*old(buffer)) + decimal(
            n as nat,
        ),
    decreases n,
{
    if n >= 10 {
        match push_decimal(buffer, n / 10) {
            Ok(()) => {},
            Err(()) => {
                return Err(());
            },
        }
    }
    let digit: u8 = 48 + (n % 10) as u8;
    push_ascii(buffer, digit)
}

/// The most bytes of its input that the program reads as its seed.
pub const SEED_LIMIT: u32 = 100;

/// The program's greeting for a depth and what the recursion found there.
pub open spec fn greeting(depth: nat, value: nat, visits: nat) -> Seq<u8> {
    "Hello, world! fib(".spec_bytes() + decimal(depth) + ") = ".spec_bytes() + decimal(value)
        + ", n_visits = ".spec_bytes() + decimal(visits)
}

/// The line that the program ends with.
pub open spec fn farewell() -> Seq<u8> {
    "Hello from sb_hello!".spec_bytes()
}

/// The greeting for a seed: the depth that the seed stands for, the Fibonacci number of that
/// depth and the number of calls that the naive recursion takes for it.
pub open spec fn greeting_for(seed: Seq<u8>) -> Seq<u8> {
    greeting(fib_depth(seed), fib_value(fib_depth(seed)), fib_visits(fib_depth(seed)))
}

/// The program, given the seed that it read from its input, which is the first
/// [`SEED_LIMIT`] bytes of it at most: its exit code and the outputs it emits, in order.
///
/// The exit code is always 0, and there are always two outputs: the greeting for the seed, then
/// the farewell. The greeting is assembled in a buffer of 256 bytes, which it never outgrows.
pub fn process_run(what: &[u8]) -> (run: (u32, Vec<Vec<u8>>))
    ensures
        run.0 == 0,
        run.1@.len() == 2,
        run.1@[0]@ == greeting_for(what@),
        run.1@[1]@ == farewell(),
{
    let fib_depth: u8 = (random_byte(what) % 10) + 10;
    let fib_result = fib(fib_depth as u32);
    let mut output: Vec<Vec<u8>> = Vec::new();
    let mut buffer = new_buffer();
    clear_buffer(&mut buffer);
    proof {
        lemma_decimal_len(fib_depth as nat);
        lemma_decimal_len(fib_result.0 as nat);
        lemma_decimal_len(fib_result.1 as nat);
        lemma_literal_lengths();
    }
    let fits = push_text(&mut buffer, "Hello, world! fib(").is_ok() && push_decimal(
        &mut buffer,
        fib_depth as u32,
    ).is_ok() && push_text(&mut buffer, ") = ").is_ok() && push_decimal(
        &mut buffer,
        fib_result.0,
    ).is_ok() && push_text(&mut buffer, ", n_visits = ").is_ok() && push_decimal(
        &mut buffer,
        fib_result.1,
    ).is_ok();
    if !fits {
        return (1, output);
    }
    output.push(buffer_contents(&buffer));
    output.push("Hello from sb_hello!".as_bytes_vec());
    (0, output)
}

/// The fixed parts of the greeting have 18, 4 and 13 bytes.
proof fn lemma_literal_lengths()
    ensures
        "Hello, world! fib(".spec_bytes().len() == 18,
        ") = ".spec_bytes().len() == 4,
        ", n_visits = ".spec_bytes().len() == 13,
{
    broadcast use vstd::string::is_ascii_spec_bytes;

    reveal_strlit("Hello, world! fib(");
    reveal_strlit(") = ");
    reveal_strlit(", n_visits = ");
    assert(vstd::string::is_ascii("Hello, world! fib("));
    assert(vstd::string::is_ascii(") = "));
    assert(vstd::string::is_ascii(", n_visits = "));
}

} // verus!
