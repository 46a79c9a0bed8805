//! The demo runner: a fixed transcript of labelled expression results and a
//! bounded counting loop.

use vstd::prelude::*;

use crate::render::{
    base_digits, base_u32, bool_str, bool_text, dec_digits, dec_i32, dec_u32, dec_u64,
    padded_base_u32, signed_dec_digits, zero_padded,
};

verus! {

/// The views of a sequence of built strings.
pub open spec fn line_views(lines: Seq<String>) -> Seq<Seq<char>> {
    lines.map_values(|s: String| s@)
}

/// The full transcript of the demo: every output line, in order, as a
/// sequence of characters.
pub open spec fn transcript() -> Seq<Seq<char>> {
    seq![
        "1 + 2 = "@ + dec_digits((1u32 + 2) as nat),
        "1 - 2 = "@ + signed_dec_digits(1i32 - 2),
        "1 + 2 = "@ + dec_digits((1u64 + 2) as nat),
        "true AND false is "@ + bool_text(true && false),
        "true OR false is "@ + bool_text(true || false),
        "NOT true is "@ + bool_text(!true),
        "0011 AND 0101 is "@ + zero_padded(base_digits((0b0011u32 & 0b0101u32) as nat, 2), 4),
        "0011 OR 0101 is "@ + zero_padded(base_digits((0b0011u32 | 0b0101u32) as nat, 2), 4),
        "0011 XOR 0101 is "@ + zero_padded(base_digits((0b0011u32 ^ 0b0101u32) as nat, 2), 4),
        "1 << 5 is "@ + dec_digits((1u32 << 5u32) as nat),
        "0x80 >> 2 is 0x"@ + base_digits((0x80u32 >> 2u32) as nat, 16),
        "octal: "@ + dec_digits(0o4u32 as nat) + " + "@ + dec_digits(0o6u32 as nat) + " = "@
            + base_digits((0o4u32 + 0o6u32) as nat, 8),
        "One million is written as "@ + dec_digits(1_000_000u32 as nat),
        "just a "@ + "string"@,
        "three"@,
        "OK, that's enough"@,
    ]
}

/// A vector of `n` zero-initialized 32-bit integers.
pub fn zeros(n: usize) -> (r: Vec<i32>)
    ensures
        r@.len() == n,
        forall|i: int| 0 <= i < n ==> r@[i] == 0,
{
    let mut v: Vec<i32> = Vec::new();
    let mut k: usize = 0;
    while k < n
        invariant
            k <= n,
            v@.len() == k,
            forall|i: int| 0 <= i < k ==> v@[i] == 0,
        decreases n - k,
    {
        v.push(0);
        k = k + 1;
    }
    v
}

/// Runs the counting loop: the counter starts at zero and rises by one each
/// cycle; at three the loop emits "three" and skips the rest of the cycle,
/// and at five it emits "OK, that's enough" and stops.  Exactly those two
/// messages are appended to `out`, in that order, and the counter never
/// passes five.
pub fn counting_loop(out: &mut Vec<String>) -> (count: u32)
    ensures
        count == 5,
        final(out)@.len() == old(out)@.len() + 2,
        forall|i: int| 0 <= i < old(out)@.len() ==> final(out)@[i] == old(out)@[i],
        final(out)@[old(out)@.len() as int]@ == "three"@,
        final(out)@[old(out)@.len() as int + 1]@ == "OK, that's enough"@,
{
    let mut count: u32 = 0;
    loop
        invariant_except_break
            count <= 4,
            count < 3 ==> out@ == old(out)@,
            3 <= count ==> out@.len() == old(out)@.len() + 1
                && out@[old(out)@.len() as int]@ == "three"@
                && (forall|i: int| 0 <= i < old(out)@.len() ==> out@[i] == old(out)@[i]),
        ensures
            count == 5,
            out@.len() == old(out)@.len() + 2,
            forall|i: int| 0 <= i < old(out)@.len() ==> out@[i] == old(out)@[i],
            out@[old(out)@.len() as int]@ == "three"@,
            out@[old(out)@.len() as int + 1]@ == "OK, that's enough"@,
        decreases 5 - count,
    {
        count += 1;

        if count == 3 {
            out.push("three".to_owned());
            // Skip the rest of this cycle
            continue;
        }

        if count == 5 {
            out.push("OK, that's enough".to_owned());
            // Exit the loop
            break;
        }
    }
    count
}

/// Runs the whole demo and returns its output lines, which are exactly the
/// lines of `transcript`, in order.
pub fn run_demo() -> (r: Vec<String>)
    ensures
        line_views(r@) == transcript(),
{
    let mut lines: Vec<String> = Vec::new();

    let sum_u32 = dec_u32(1u32 + 2);
    lines.push("1 + 2 = ".to_owned().concat(sum_u32.as_str()));
    let diff_i32 = dec_i32(1i32 - 2);
    lines.push("1 - 2 = ".to_owned().concat(diff_i32.as_str()));
    let sum_u64 = dec_u64(1u64 + 2);
    lines.push("1 + 2 = ".to_owned().concat(sum_u64.as_str()));

    // Short-circuiting boolean logic
    lines.push("true AND false is ".to_owned().concat(bool_str(true && false)));
    lines.push("true OR false is ".to_owned().concat(bool_str(true || false)));
    lines.push("NOT true is ".to_owned().concat(bool_str(!true)));

    // Bitwise operations
    let and_bits = padded_base_u32(0b0011u32 & 0b0101u32, 2, 4);
    lines.push("0011 AND 0101 is ".to_owned().concat(and_bits.as_str()));
    let or_bits = padded_base_u32(0b0011u32 | 0b0101u32, 2, 4);
    lines.push("0011 OR 0101 is ".to_owned().concat(or_bits.as_str()));
    let xor_bits = padded_base_u32(0b0011u32 ^ 0b0101u32, 2, 4);
    lines.push("0011 XOR 0101 is ".to_owned().concat(xor_bits.as_str()));
    let shifted_left = dec_u32(1u32 << 5u32);
    lines.push("1 << 5 is ".to_owned().concat(shifted_left.as_str()));
    let shifted_right = base_u32(0x80u32 >> 2u32, 16);
    lines.push("0x80 >> 2 is 0x".to_owned().concat(shifted_right.as_str()));

    let a = 0o4u32;
    let b = 0o6u32;
    let a_text = dec_u32(a);
    let b_text = dec_u32(b);
    let oct_sum = base_u32(a + b, 8);
    lines.push(
        "octal: ".to_owned().concat(a_text.as_str()).concat(" + ").concat(b_text.as_str()).concat(
            " = ",
        ).concat(oct_sum.as_str()),
    );

    // Underscores in a literal leave no trace in the printed number
    let million = dec_u32(1_000_000u32);
    lines.push("One million is written as ".to_owned().concat(million.as_str()));

    lines.push("just a ".to_owned().concat("string"));

    let _ys = zeros(500);

    let ghost prefix: Seq<String> = lines@;
    proof {
        assert(line_views(prefix) =~= transcript().take(14));
    }
    let _count = counting_loop(&mut lines);
    proof {
        assert forall|i: int| 0 <= i < transcript().len() implies line_views(lines@)[i]
            == transcript()[i] by {
            if i < 14 {
                assert(lines@[i] == prefix[i]);
                assert(line_views(prefix)[i] == transcript().take(14)[i]);
            }
        }
        assert(line_views(lines@) =~= transcript());
    }
    lines
}

/// Determinism: the demo's output is one fixed sequence of lines, so any
/// two results that satisfy `run_demo`'s contract are equal.
pub proof fn lemma_run_demo_deterministic(a: Seq<Seq<char>>, b: Seq<Seq<char>>)
    requires
        a == transcript(),
        b == transcript(),
    ensures
        a == b,
{
}

/// A stateless helper with a single message.
pub struct FooBar {}

impl FooBar {
    /// Creates the helper; it carries no state.
    pub fn new() -> (r: FooBar)
        ensures
            r == (FooBar {  }),
    {
        FooBar {  }
    }

    /// The helper's message.
    pub fn do_smth(&self) -> (r: String)
        ensures
            r@ == "something"@,
    {
        "something".to_owned()
    }
}

} // verus!
