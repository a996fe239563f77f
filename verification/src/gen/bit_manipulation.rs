//! The `bit-ops` family (category `bit-manipulation`).
//!
//! The model implements `fn f(x: u32) -> u32` applying a seed-selected
//! two-stage bit pipeline: a mask (identity, keep-low, keep-high, clear-low,
//! set-low of width 8, 16 or 24) then a transform (rotate left or right by
//! 1..=31, reverse the bits, swap the bytes).

use vstd::prelude::*;
use crate::rng::{Rng, draw};
use crate::digest::{mint_canary, canary_text};
use crate::text::{push_str, push_u64, push_hex_fixed, push_doc_block, push_terminated, dec_nat, hex_fixed, doc_block, terminated, string_views, string_of};
use crate::gen::{GeneratedTask, Weights, cargo_toml, cargo_toml_text, task_id, task_id_text, push_prompt_tail, prompt_tail};

verus! {

/// Stage 1: how the bits are masked (`n` is the width in bits).
#[derive(Clone, Copy, Debug, PartialEq, Eq, Structural)]
pub enum Mask {
    Identity,
    KeepLow(u32),
    KeepHigh(u32),
    ClearLow(u32),
    SetLow(u32),
}

/// Stage 2: how the masked value is transformed (`k` is the rotate amount).
#[derive(Clone, Copy, Debug, PartialEq, Eq, Structural)]
pub enum Transform {
    RotateLeft(u32),
    RotateRight(u32),
    ReverseBits,
    SwapBytes,
}

pub struct Spec {
    pub mask: Mask,
    pub transform: Transform,
    pub fn_name: &'static str,
}

/// The fixed first input of the worked examples.
pub const CANONICAL: u32 = 0x9ABC_DEF1;

// ---- bit-level semantics -------------------------------------------------

pub open spec fn rotl(x: u32, k: u32) -> u32 {
    let r = k % 32;
    if r == 0 { x } else { (x << r) | (x >> ((32 - r) as u32)) }
}

pub open spec fn rotr(x: u32, k: u32) -> u32 {
    let r = k % 32;
    if r == 0 { x } else { (x >> r) | (x << ((32 - r) as u32)) }
}

pub open spec fn swap_bytes32(x: u32) -> u32 {
    ((x & 0xffu32) << 24u32) | ((x & 0xff00u32) << 8u32) | ((x >> 8u32) & 0xff00u32) | (x >> 24u32)
}

pub open spec fn bit_of(x: u32, i: u32) -> u32 {
    (x >> i) & 1u32
}

/// Bit `i` of the result is bit `31 - i` of `x`.
pub open spec fn reverse_bits32(x: u32) -> u32 {
    bit_of(x, 31) | (bit_of(x, 30) << 1u32) | (bit_of(x, 29) << 2u32) | (bit_of(x, 28) << 3u32)
        | (bit_of(x, 27) << 4u32) | (bit_of(x, 26) << 5u32) | (bit_of(x, 25) << 6u32) | (bit_of(x, 24) << 7u32)
        | (bit_of(x, 23) << 8u32) | (bit_of(x, 22) << 9u32) | (bit_of(x, 21) << 10u32) | (bit_of(x, 20) << 11u32)
        | (bit_of(x, 19) << 12u32) | (bit_of(x, 18) << 13u32) | (bit_of(x, 17) << 14u32) | (bit_of(x, 16) << 15u32)
        | (bit_of(x, 15) << 16u32) | (bit_of(x, 14) << 17u32) | (bit_of(x, 13) << 18u32) | (bit_of(x, 12) << 19u32)
        | (bit_of(x, 11) << 20u32) | (bit_of(x, 10) << 21u32) | (bit_of(x, 9) << 22u32) | (bit_of(x, 8) << 23u32)
        | (bit_of(x, 7) << 24u32) | (bit_of(x, 6) << 25u32) | (bit_of(x, 5) << 26u32) | (bit_of(x, 4) << 27u32)
        | (bit_of(x, 3) << 28u32) | (bit_of(x, 2) << 29u32) | (bit_of(x, 1) << 30u32) | (bit_of(x, 0) << 31u32)
}

/// Rotates left by `k` (what `u32::rotate_left` does): shifts left,
/// wrapping the truncated bits to the end.
fn rotate_left_u32(x: u32, k: u32) -> (r: u32)
    ensures
        r == rotl(x, k),
{
    let r = k % 32;
    if r == 0 { x } else { (x << r) | (x >> (32 - r)) }
}

/// Rotates right by `k` (what `u32::rotate_right` does): shifts right,
/// wrapping the truncated bits to the beginning.
fn rotate_right_u32(x: u32, k: u32) -> (r: u32)
    ensures
        r == rotr(x, k),
{
    let r = k % 32;
    if r == 0 { x } else { (x >> r) | (x << (32 - r)) }
}

fn bit_at(x: u32, i: u32) -> (r: u32)
    requires
        i < 32,
    ensures
        r == bit_of(x, i),
{
    (x >> i) & 1u32
}

/// Reverses the bit order (what `u32::reverse_bits` does): the least
/// significant bit becomes the most significant, and so on.
fn reverse_bits_u32(x: u32) -> (r: u32)
    ensures
        r == reverse_bits32(x),
{
    bit_at(x, 31) | (bit_at(x, 30) << 1u32) | (bit_at(x, 29) << 2u32) | (bit_at(x, 28) << 3u32)
        | (bit_at(x, 27) << 4u32) | (bit_at(x, 26) << 5u32) | (bit_at(x, 25) << 6u32) | (bit_at(x, 24) << 7u32)
        | (bit_at(x, 23) << 8u32) | (bit_at(x, 22) << 9u32) | (bit_at(x, 21) << 10u32) | (bit_at(x, 20) << 11u32)
        | (bit_at(x, 19) << 12u32) | (bit_at(x, 18) << 13u32) | (bit_at(x, 17) << 14u32) | (bit_at(x, 16) << 15u32)
        | (bit_at(x, 15) << 16u32) | (bit_at(x, 14) << 17u32) | (bit_at(x, 13) << 18u32) | (bit_at(x, 12) << 19u32)
        | (bit_at(x, 11) << 20u32) | (bit_at(x, 10) << 21u32) | (bit_at(x, 9) << 22u32) | (bit_at(x, 8) << 23u32)
        | (bit_at(x, 7) << 24u32) | (bit_at(x, 6) << 25u32) | (bit_at(x, 5) << 26u32) | (bit_at(x, 4) << 27u32)
        | (bit_at(x, 3) << 28u32) | (bit_at(x, 2) << 29u32) | (bit_at(x, 1) << 30u32) | (bit_at(x, 0) << 31u32)
}

/// Reverses the byte order (what `u32::swap_bytes` does).
fn swap_bytes_u32(x: u32) -> (r: u32)
    ensures
        r == swap_bytes32(x),
{
    ((x & 0xffu32) << 24u32) | ((x & 0xff00u32) << 8u32) | ((x >> 8u32) & 0xff00u32) | (x >> 24u32)
}

/// The shifts in a mask stay in range: widths below 32, and a keep-high
/// width of at least 1.
pub open spec fn mask_ok(mask: Mask) -> bool {
    match mask {
        Mask::Identity => true,
        Mask::KeepLow(n) => n < 32,
        Mask::KeepHigh(n) => 1 <= n <= 32,
        Mask::ClearLow(n) => n < 32,
        Mask::SetLow(n) => n < 32,
    }
}

pub open spec fn low_ones(n: u32) -> u32 {
    ((1u32 << n) - 1) as u32
}

pub open spec fn mask_spec(mask: Mask, x: u32) -> u32 {
    match mask {
        Mask::Identity => x,
        Mask::KeepLow(n) => x & low_ones(n),
        Mask::KeepHigh(n) => x & !low_ones((32 - n) as u32),
        Mask::ClearLow(n) => x & !low_ones(n),
        Mask::SetLow(n) => x | low_ones(n),
    }
}

pub open spec fn transform_spec(t: Transform, m: u32) -> u32 {
    match t {
        Transform::RotateLeft(k) => rotl(m, k),
        Transform::RotateRight(k) => rotr(m, k),
        Transform::ReverseBits => reverse_bits32(m),
        Transform::SwapBytes => swap_bytes32(m),
    }
}

/// The answer: mask, then transform.
pub open spec fn eval_spec(mask: Mask, t: Transform, x: u32) -> u32 {
    transform_spec(t, mask_spec(mask, x))
}

// ---- sampling --------------------------------------------------------------

pub open spec fn width_at(i: u64) -> u32 {
    if i == 0 { 8 } else if i == 1 { 16 } else { 24 }
}

pub open spec fn mask_of(kind: u64, n: u32) -> Mask {
    if kind == 0 { Mask::Identity }
    else if kind == 1 { Mask::KeepLow(n) }
    else if kind == 2 { Mask::KeepHigh(n) }
    else if kind == 3 { Mask::ClearLow(n) }
    else { Mask::SetLow(n) }
}

pub open spec fn transform_of(kind: u64, k: u32) -> Transform {
    if kind == 0 { Transform::RotateLeft(k) }
    else if kind == 1 { Transform::RotateRight(k) }
    else if kind == 2 { Transform::ReverseBits }
    else { Transform::SwapBytes }
}

pub open spec fn name_text(i: u64) -> Seq<char> {
    if i == 0 { "f"@ }
    else if i == 1 { "bitmix"@ }
    else if i == 2 { "munge_bits"@ }
    else if i == 3 { "rework"@ }
    else if i == 4 { "transform_bits"@ }
    else { "scramble"@ }
}

/// The mask `sample(seed)` picks: width from draw 0, kind from draw 1.
pub open spec fn sample_mask(seed: u64) -> Mask {
    mask_of(draw(seed, 1) % 5, width_at(draw(seed, 0) % 3))
}

/// The transform `sample(seed)` picks: amount from draw 2, kind from draw 3.
pub open spec fn sample_transform(seed: u64) -> Transform {
    transform_of(draw(seed, 3) % 4, (1 + draw(seed, 2) % 31) as u32)
}

/// The function name `sample(seed)` picks, from draw 4.
pub open spec fn sample_name(seed: u64) -> Seq<char> {
    name_text(draw(seed, 4) % 6)
}

fn name_at(i: u64) -> (r: &'static str)
    requires
        i < 6,
    ensures
        r@ == name_text(i),
{
    if i == 0 { "f" }
    else if i == 1 { "bitmix" }
    else if i == 2 { "munge_bits" }
    else if i == 3 { "rework" }
    else if i == 4 { "transform_bits" }
    else { "scramble" }
}

/// The spec for `seed`: every choice is a function of the seed's stream.
pub fn sample(seed: u64) -> (r: Spec)
    ensures
        r.mask == sample_mask(seed),
        r.transform == sample_transform(seed),
        r.fn_name@ == sample_name(seed),
        mask_ok(r.mask),
{
    let mut rng = Rng::new(seed);
    let w = rng.below(3);
    let n: u32 = if w == 0 { 8 } else if w == 1 { 16 } else { 24 };
    let kind = rng.below(5);
    let mask = if kind == 0 {
        Mask::Identity
    } else if kind == 1 {
        Mask::KeepLow(n)
    } else if kind == 2 {
        Mask::KeepHigh(n)
    } else if kind == 3 {
        Mask::ClearLow(n)
    } else {
        Mask::SetLow(n)
    };
    let k: u32 = 1 + rng.below(31) as u32;
    let tkind = rng.below(4);
    let transform = if tkind == 0 {
        Transform::RotateLeft(k)
    } else if tkind == 1 {
        Transform::RotateRight(k)
    } else if tkind == 2 {
        Transform::ReverseBits
    } else {
        Transform::SwapBytes
    };
    let fn_name = name_at(rng.below(6));
    Spec { mask, transform, fn_name }
}

// ---- native reference ------------------------------------------------------

pub fn apply_mask(mask: Mask, x: u32) -> (r: u32)
    requires
        mask_ok(mask),
    ensures
        r == mask_spec(mask, x),
{
    match mask {
        Mask::Identity => x,
        Mask::KeepLow(n) => {
            proof {
                assert(1u32 << n >= 1u32) by (bit_vector)
                    requires n < 32;
            }
            x & ((1u32 << n) - 1)
        },
        Mask::KeepHigh(n) => {
            proof {
                assert(1u32 << (32 - n) as u32 >= 1u32) by (bit_vector)
                    requires 1 <= n <= 32;
            }
            x & !((1u32 << (32 - n)) - 1)
        },
        Mask::ClearLow(n) => {
            proof {
                assert(1u32 << n >= 1u32) by (bit_vector)
                    requires n < 32;
            }
            x & !((1u32 << n) - 1)
        },
        Mask::SetLow(n) => {
            proof {
                assert(1u32 << n >= 1u32) by (bit_vector)
                    requires n < 32;
            }
            x | ((1u32 << n) - 1)
        },
    }
}

pub fn apply_transform(transform: Transform, m: u32) -> (r: u32)
    ensures
        r == transform_spec(transform, m),
{
    match transform {
        Transform::RotateLeft(k) => rotate_left_u32(m, k),
        Transform::RotateRight(k) => rotate_right_u32(m, k),
        Transform::ReverseBits => reverse_bits_u32(m),
        Transform::SwapBytes => swap_bytes_u32(m),
    }
}

/// The answer: mask, then transform.
pub fn eval(spec: &Spec, x: u32) -> (r: u32)
    requires
        mask_ok(spec.mask),
    ensures
        r == eval_spec(spec.mask, spec.transform, x),
{
    apply_transform(spec.transform, apply_mask(spec.mask, x))
}

// ---- emitted-source fragments ---------------------------------------------

pub open spec fn mask_expr_text(mask: Mask, op: Seq<char>) -> Seq<char> {
    match mask {
        Mask::Identity => op,
        Mask::KeepLow(n) => op + " & ((1u32 << "@ + dec_nat(n as nat) + ") - 1)"@,
        Mask::KeepHigh(n) => op + " & !((1u32 << "@ + dec_nat((32 - n) as nat) + ") - 1)"@,
        Mask::ClearLow(n) => op + " & !((1u32 << "@ + dec_nat(n as nat) + ") - 1)"@,
        Mask::SetLow(n) => op + " | ((1u32 << "@ + dec_nat(n as nat) + ") - 1)"@,
    }
}

/// The mask stage as source, over an operand expression.
pub fn mask_expr(mask: Mask, operand: &str) -> (r: String)
    requires
        mask_ok(mask),
    ensures
        r@ == mask_expr_text(mask, operand@),
{
    let mut s = string_of(operand);
    match mask {
        Mask::Identity => {},
        Mask::KeepLow(n) => {
            push_str(&mut s, " & ((1u32 << ");
            push_u64(&mut s, n as u64);
            push_str(&mut s, ") - 1)");
        },
        Mask::KeepHigh(n) => {
            push_str(&mut s, " & !((1u32 << ");
            push_u64(&mut s, (32 - n) as u64);
            push_str(&mut s, ") - 1)");
        },
        Mask::ClearLow(n) => {
            push_str(&mut s, " & !((1u32 << ");
            push_u64(&mut s, n as u64);
            push_str(&mut s, ") - 1)");
        },
        Mask::SetLow(n) => {
            push_str(&mut s, " | ((1u32 << ");
            push_u64(&mut s, n as u64);
            push_str(&mut s, ") - 1)");
        },
    }
    s
}

pub open spec fn transform_expr_text(t: Transform, op: Seq<char>) -> Seq<char> {
    match t {
        Transform::RotateLeft(k) => op + ".rotate_left("@ + dec_nat(k as nat) + ")"@,
        Transform::RotateRight(k) => op + ".rotate_right("@ + dec_nat(k as nat) + ")"@,
        Transform::ReverseBits => op + ".reverse_bits()"@,
        Transform::SwapBytes => op + ".swap_bytes()"@,
    }
}

/// The transform stage as source, over an operand expression.
pub fn transform_expr(transform: Transform, operand: &str) -> (r: String)
    ensures
        r@ == transform_expr_text(transform, operand@),
{
    let mut s = string_of(operand);
    match transform {
        Transform::RotateLeft(k) => {
            push_str(&mut s, ".rotate_left(");
            push_u64(&mut s, k as u64);
            push_str(&mut s, ")");
        },
        Transform::RotateRight(k) => {
            push_str(&mut s, ".rotate_right(");
            push_u64(&mut s, k as u64);
            push_str(&mut s, ")");
        },
        Transform::ReverseBits => push_str(&mut s, ".reverse_bits()"),
        Transform::SwapBytes => push_str(&mut s, ".swap_bytes()"),
    }
    s
}

pub open spec fn mask_prose_text(mask: Mask) -> Seq<char> {
    match mask {
        Mask::Identity => "leave all 32 bits unchanged"@,
        Mask::KeepLow(n) => "keep only the low "@ + dec_nat(n as nat) + " bits (clear the other "@
            + dec_nat((32 - n) as nat) + " )"@,
        Mask::KeepHigh(n) => "keep only the high "@ + dec_nat(n as nat) + " bits (clear the other "@
            + dec_nat((32 - n) as nat) + " )"@,
        Mask::ClearLow(n) => "clear the low "@ + dec_nat(n as nat) + " bits (leave the rest unchanged)"@,
        Mask::SetLow(n) => "set the low "@ + dec_nat(n as nat) + " bits to 1 (leave the rest unchanged)"@,
    }
}

pub fn mask_prose(mask: Mask) -> (r: String)
    requires
        mask_ok(mask),
    ensures
        r@ == mask_prose_text(mask),
{
    match mask {
        Mask::Identity => string_of("leave all 32 bits unchanged"),
        Mask::KeepLow(n) => {
            let mut s = string_of("keep only the low ");
            push_u64(&mut s, n as u64);
            push_str(&mut s, " bits (clear the other ");
            push_u64(&mut s, (32 - n) as u64);
            push_str(&mut s, " )");
            s
        },
        Mask::KeepHigh(n) => {
            let mut s = string_of("keep only the high ");
            push_u64(&mut s, n as u64);
            push_str(&mut s, " bits (clear the other ");
            push_u64(&mut s, (32 - n) as u64);
            push_str(&mut s, " )");
            s
        },
        Mask::ClearLow(n) => {
            let mut s = string_of("clear the low ");
            push_u64(&mut s, n as u64);
            push_str(&mut s, " bits (leave the rest unchanged)");
            s
        },
        Mask::SetLow(n) => {
            let mut s = string_of("set the low ");
            push_u64(&mut s, n as u64);
            push_str(&mut s, " bits to 1 (leave the rest unchanged)");
            s
        },
    }
}

pub open spec fn transform_prose_text(t: Transform) -> Seq<char> {
    match t {
        Transform::RotateLeft(k) => "rotate the 32-bit value left by "@ + dec_nat(k as nat),
        Transform::RotateRight(k) => "rotate the 32-bit value right by "@ + dec_nat(k as nat),
        Transform::ReverseBits => "reverse the order of all 32 bits"@,
        Transform::SwapBytes => "reverse the order of the 4 bytes (byte swap)"@,
    }
}

pub fn transform_prose(transform: Transform) -> (r: String)
    ensures
        r@ == transform_prose_text(transform),
{
    match transform {
        Transform::RotateLeft(k) => {
            let mut s = string_of("rotate the 32-bit value left by ");
            push_u64(&mut s, k as u64);
            s
        },
        Transform::RotateRight(k) => {
            let mut s = string_of("rotate the 32-bit value right by ");
            push_u64(&mut s, k as u64);
            s
        },
        Transform::ReverseBits => string_of("reverse the order of all 32 bits"),
        Transform::SwapBytes => string_of("reverse the order of the 4 bytes (byte swap)"),
    }
}

/// The reference implementation, headed by `head` (`pub fn <name>` for the
/// answer, `fn reference` inside the differential test).
pub open spec fn reference_text(head: Seq<char>, mask: Mask, t: Transform) -> Seq<char> {
    head + "(x: u32) -> u32 {\n    let masked = "@ + mask_expr_text(mask, "x"@) + ";\n    "@
        + transform_expr_text(t, "masked"@) + "\n}\n"@
}

fn reference_with_head(spec: &Spec, head: &str) -> (r: String)
    requires
        mask_ok(spec.mask),
    ensures
        r@ == reference_text(head@, spec.mask, spec.transform),
{
    let mut s = string_of(head);
    push_str(&mut s, "(x: u32) -> u32 {\n    let masked = ");
    let m = mask_expr(spec.mask, "x");
    push_str(&mut s, m.as_str());
    push_str(&mut s, ";\n    ");
    let t = transform_expr(spec.transform, "masked");
    push_str(&mut s, t.as_str());
    push_str(&mut s, "\n}\n");
    s
}

/// The correct reference answer.
pub fn reference_src(spec: &Spec) -> (r: String)
    requires
        mask_ok(spec.mask),
    ensures
        r@ == reference_text("pub fn "@ + spec.fn_name@, spec.mask, spec.transform),
{
    let mut head = string_of("pub fn ");
    push_str(&mut head, spec.fn_name);
    reference_with_head(spec, head.as_str())
}

// ---- worked examples -------------------------------------------------------

/// The seed of the example-input stream.
pub open spec fn example_seed(seed: u64) -> u64 {
    seed ^ 0xB17_0000_0000_0031u64
}

/// The example inputs: the canonical value, then three seed-varied values.
pub open spec fn example_inputs(seed: u64) -> Seq<u32> {
    seq![CANONICAL, draw(example_seed(seed), 0) as u32, draw(example_seed(seed), 1) as u32,
        draw(example_seed(seed), 2) as u32]
}

/// One example line (without its newline): `  0x<in>  ->  0x<out>`.
pub open spec fn example_line(x: u32, out: u32) -> Seq<char> {
    "  0x"@ + hex_fixed(x as nat, 8) + "  ->  0x"@ + hex_fixed(out as nat, 8)
}

pub open spec fn example_lines(mask: Mask, t: Transform, seed: u64) -> Seq<Seq<char>> {
    example_inputs(seed).map_values(|x: u32| example_line(x, eval_spec(mask, t, x)))
}

pub open spec fn example_cases(mask: Mask, t: Transform, seed: u64) -> Seq<(u32, u32)> {
    example_inputs(seed).map_values(|x: u32| (x, eval_spec(mask, t, x)))
}

fn example_line_string(x: u32, out: u32) -> (r: String)
    ensures
        r@ == example_line(x, out),
{
    let mut s = string_of("  0x");
    push_hex_fixed(&mut s, x as u64, 8);
    push_str(&mut s, "  ->  0x");
    push_hex_fixed(&mut s, out as u64, 8);
    s
}

/// The worked examples as lines (without newlines) and as `(input, output)`
/// cases, computed natively.
pub fn example_data(spec: &Spec, seed: u64) -> (r: (Vec<String>, Vec<(u32, u32)>))
    requires
        mask_ok(spec.mask),
    ensures
        string_views(r.0@) == example_lines(spec.mask, spec.transform, seed),
        r.1@ == example_cases(spec.mask, spec.transform, seed),
{
    let mut rng = Rng::new(seed ^ 0xB17_0000_0000_0031);
    let mut inputs: Vec<u32> = Vec::new();
    inputs.push(0x9ABC_DEF1);
    let mut i: usize = 0;
    while i < 3
        invariant
            i <= 3,
            rng.seed() == example_seed(seed),
            rng.count() == i,
            inputs@.len() == i + 1,
            forall|j: int| 0 <= j <= i ==> inputs@[j] == example_inputs(seed)[j],
        decreases 3 - i,
    {
        let v = rng.next_u64();
        inputs.push(v as u32);
        i = i + 1;
    }
    assert(inputs@ =~= example_inputs(seed));
    let mut lines: Vec<String> = Vec::new();
    let mut cases: Vec<(u32, u32)> = Vec::new();
    let mut j: usize = 0;
    while j < inputs.len()
        invariant
            j <= inputs.len(),
            mask_ok(spec.mask),
            inputs@ == example_inputs(seed),
            lines@.len() == j,
            cases@.len() == j,
            forall|q: int| 0 <= q < j ==> #[trigger] lines@[q]@ == example_lines(spec.mask, spec.transform, seed)[q],
            forall|q: int| 0 <= q < j ==> #[trigger] cases@[q] == example_cases(spec.mask, spec.transform, seed)[q],
        decreases inputs.len() - j,
    {
        let x = inputs[j];
        let out = eval(spec, x);
        lines.push(example_line_string(x, out));
        cases.push((x, out));
        j = j + 1;
    }
    assert(string_views(lines@) =~= example_lines(spec.mask, spec.transform, seed));
    assert(cases@ =~= example_cases(spec.mask, spec.transform, seed));
    (lines, cases)
}

/// Worked examples: the prose block (one line per case) and the cases.
pub fn worked_examples(spec: &Spec, seed: u64) -> (r: (String, Vec<(u32, u32)>))
    requires
        mask_ok(spec.mask),
    ensures
        r.0@ == terminated(example_lines(spec.mask, spec.transform, seed)),
        r.1@ == example_cases(spec.mask, spec.transform, seed),
{
    let (lines, cases) = example_data(spec, seed);
    let mut prose = String::new();
    push_terminated(&mut prose, &lines);
    (prose, cases)
}

// ---- the files of an instance ----------------------------------------------

pub open spec fn skeleton_text(name: Seq<char>, mask: Mask, t: Transform, seed: u64) -> Seq<char> {
    "//! Implement `"@ + name + "` below.\n//!\n"@ + doc_block(example_lines(mask, t, seed)) + "\npub fn "@
        + name + "(x: u32) -> u32 {\n    todo!()\n}\n"@
}

/// The ablated skeleton the model completes, with the worked examples as doc
/// comments.
pub fn skeleton_src(spec: &Spec, seed: u64) -> (r: String)
    requires
        mask_ok(spec.mask),
    ensures
        r@ == skeleton_text(spec.fn_name@, spec.mask, spec.transform, seed),
{
    let (lines, _) = example_data(spec, seed);
    let mut s = string_of("//! Implement `");
    push_str(&mut s, spec.fn_name);
    push_str(&mut s, "` below.\n//!\n");
    push_doc_block(&mut s, &lines);
    push_str(&mut s, "\npub fn ");
    push_str(&mut s, spec.fn_name);
    push_str(&mut s, "(x: u32) -> u32 {\n    todo!()\n}\n");
    s
}

pub open spec fn prompt_text(name: Seq<char>, mask: Mask, t: Transform, seed: u64, canary: Seq<char>) -> Seq<char> {
    "Implement the function `"@ + name + "` in `src/lib.rs`.\n\nGiven a 32-bit unsigned integer `x`, apply two steps in order and return the result:\n\n1. **Mask** \u{2014} "@
        + mask_prose_text(mask) + ".\n2. **Transform** \u{2014} "@ + transform_prose_text(t)
        + ".\n\nThe transform applies to the *masked* value from step 1.\n\nConstraints:\n- Do not use `unsafe`.\n- Every shift/rotate amount is between 1 and 31, so no shift overflows.\n\nSignature:\n```rust\npub fn "@
        + name + "(x: u32) -> u32\n```\n\nExamples (inputs and outputs in hex):\n"@
        + terminated(example_lines(mask, t, seed)) + "\n"@ + prompt_tail(canary)
}

pub fn prompt(spec: &Spec, seed: u64, canary: &str) -> (r: String)
    requires
        mask_ok(spec.mask),
    ensures
        r@ == prompt_text(spec.fn_name@, spec.mask, spec.transform, seed, canary@),
{
    let (examples, _) = worked_examples(spec, seed);
    let mut s = string_of("Implement the function `");
    push_str(&mut s, spec.fn_name);
    push_str(&mut s, "` in `src/lib.rs`.\n\nGiven a 32-bit unsigned integer `x`, apply two steps in order and return the result:\n\n1. **Mask** \u{2014} ");
    let mp = mask_prose(spec.mask);
    push_str(&mut s, mp.as_str());
    push_str(&mut s, ".\n2. **Transform** \u{2014} ");
    let tp = transform_prose(spec.transform);
    push_str(&mut s, tp.as_str());
    push_str(&mut s, ".\n\nThe transform applies to the *masked* value from step 1.\n\nConstraints:\n- Do not use `unsafe`.\n- Every shift/rotate amount is between 1 and 31, so no shift overflows.\n\nSignature:\n```rust\npub fn ");
    push_str(&mut s, spec.fn_name);
    push_str(&mut s, "(x: u32) -> u32\n```\n\nExamples (inputs and outputs in hex):\n");
    push_str(&mut s, examples.as_str());
    push_str(&mut s, "\n");
    push_prompt_tail(&mut s, canary);
    s
}

/// One hidden example test.
pub open spec fn case_test_text(name: Seq<char>, i: nat, x: u32, out: u32) -> Seq<char> {
    "#[test]\nfn ex"@ + dec_nat(i) + "() {\n    assert_eq!("@ + name + "(0x"@ + hex_fixed(x as nat, 8)
        + "), 0x"@ + hex_fixed(out as nat, 8) + ");\n}\n\n"@
}

pub open spec fn case_tests_text(name: Seq<char>, cases: Seq<(u32, u32)>) -> Seq<char>
    decreases cases.len(),
{
    if cases.len() == 0 {
        Seq::empty()
    } else {
        case_tests_text(name, cases.drop_last()) + case_test_text(
            name,
            (cases.len() - 1) as nat,
            cases.last().0,
            cases.last().1,
        )
    }
}

pub open spec fn behavior_text(name: Seq<char>, mask: Mask, t: Transform, seed: u64) -> Seq<char> {
    "use task::"@ + name + ";\n\n"@ + case_tests_text(name, example_cases(mask, t, seed))
        + "#[test]\nfn edge_zero() {\n    assert_eq!("@ + name + "(0x00000000), 0x"@
        + hex_fixed(eval_spec(mask, t, 0) as nat, 8) + ");\n}\n\n#[test]\nfn edge_ones() {\n    assert_eq!("@
        + name + "(0xffffffff), 0x"@ + hex_fixed(eval_spec(mask, t, 0xffff_ffff) as nat, 8) + ");\n}\n"@
}

/// The hidden behaviour tests: one per worked example, plus the all-zero and
/// all-one inputs.
pub fn behavior_test_src(spec: &Spec, seed: u64) -> (r: String)
    requires
        mask_ok(spec.mask),
    ensures
        r@ == behavior_text(spec.fn_name@, spec.mask, spec.transform, seed),
{
    let (_, cases) = worked_examples(spec, seed);
    let ghost cs = cases@;
    let mut s = string_of("use task::");
    push_str(&mut s, spec.fn_name);
    push_str(&mut s, ";\n\n");
    let ghost start = s@;
    let mut i: usize = 0;
    while i < cases.len()
        invariant
            i <= cases.len(),
            cs == cases@,
            s@ == start + case_tests_text(spec.fn_name@, cs.take(i as int)),
        decreases cases.len() - i,
    {
        let (x, out) = cases[i];
        push_str(&mut s, "#[test]\nfn ex");
        push_u64(&mut s, i as u64);
        push_str(&mut s, "() {\n    assert_eq!(");
        push_str(&mut s, spec.fn_name);
        push_str(&mut s, "(0x");
        push_hex_fixed(&mut s, x as u64, 8);
        push_str(&mut s, "), 0x");
        push_hex_fixed(&mut s, out as u64, 8);
        push_str(&mut s, ");\n}\n\n");
        assert(cs.take(i + 1).drop_last() =~= cs.take(i as int));
        i = i + 1;
    }
    assert(cs.take(cases.len() as int) =~= cs);
    let zero = eval(spec, 0);
    let ones = eval(spec, 0xffff_ffff);
    push_str(&mut s, "#[test]\nfn edge_zero() {\n    assert_eq!(");
    push_str(&mut s, spec.fn_name);
    push_str(&mut s, "(0x00000000), 0x");
    push_hex_fixed(&mut s, zero as u64, 8);
    push_str(&mut s, ");\n}\n\n#[test]\nfn edge_ones() {\n    assert_eq!(");
    push_str(&mut s, spec.fn_name);
    push_str(&mut s, "(0xffffffff), 0x");
    push_hex_fixed(&mut s, ones as u64, 8);
    push_str(&mut s, ");\n}\n");
    s
}

pub open spec fn differential_text(name: Seq<char>, mask: Mask, t: Transform) -> Seq<char> {
    "use task::"@ + name + ";\n\n"@ + reference_text("fn reference"@, mask, t)
        + "\n#[test]\nfn differential_vs_reference() {\n    let mut state: u64 = 0xB17_ED00_0000_0042;\n    let mut next = || {\n        state = state.wrapping_mul(6364136223846793005).wrapping_add(1442695040888963407);\n        (state >> 32) as u32\n    };\n    for _ in 0..3000 {\n        let x = next();\n        assert_eq!("@
        + name + "(x), reference(x), \"mismatch on 0x{x:08x}\");\n    }\n}\n"@
}

/// The hidden differential test: the model's answer against the reference
/// (renamed `reference`) on 3000 pseudo-random inputs.
pub fn differential_test_src(spec: &Spec) -> (r: String)
    requires
        mask_ok(spec.mask),
    ensures
        r@ == differential_text(spec.fn_name@, spec.mask, spec.transform),
{
    let mut s = string_of("use task::");
    push_str(&mut s, spec.fn_name);
    push_str(&mut s, ";\n\n");
    let reference = reference_with_head(spec, "fn reference");
    push_str(&mut s, reference.as_str());
    push_str(&mut s, "\n#[test]\nfn differential_vs_reference() {\n    let mut state: u64 = 0xB17_ED00_0000_0042;\n    let mut next = || {\n        state = state.wrapping_mul(6364136223846793005).wrapping_add(1442695040888963407);\n        (state >> 32) as u32\n    };\n    for _ in 0..3000 {\n        let x = next();\n        assert_eq!(");
    push_str(&mut s, spec.fn_name);
    push_str(&mut s, "(x), reference(x), \"mismatch on 0x{x:08x}\");\n    }\n}\n");
    s
}

/// Degenerate answer: returns the input unchanged.
pub fn identity(spec: &Spec) -> (r: String)
    ensures
        r@ == "pub fn "@ + spec.fn_name@ + "(x: u32) -> u32 { x }\n"@,
{
    let mut s = string_of("pub fn ");
    push_str(&mut s, spec.fn_name);
    push_str(&mut s, "(x: u32) -> u32 { x }\n");
    s
}

/// Degenerate answer: always zero.
pub fn const_zero(spec: &Spec) -> (r: String)
    ensures
        r@ == "pub fn "@ + spec.fn_name@ + "(x: u32) -> u32 { let _ = x; 0 }\n"@,
{
    let mut s = string_of("pub fn ");
    push_str(&mut s, spec.fn_name);
    push_str(&mut s, "(x: u32) -> u32 { let _ = x; 0 }\n");
    s
}

/// The hidden behaviour tests of the task `seed` gives.
pub closed spec fn behavior_file(seed: u64) -> Seq<char> {
    behavior_text(sample_name(seed), sample_mask(seed), sample_transform(seed), seed)
}

/// The hidden differential test of the task `seed` gives.
pub closed spec fn differential_file(seed: u64) -> Seq<char> {
    differential_text(sample_name(seed), sample_mask(seed), sample_transform(seed))
}

// ---- the family ------------------------------------------------------------

pub open spec fn mask_kind_text(mask: Mask) -> Seq<char> {
    match mask {
        Mask::Identity => "identity"@,
        Mask::KeepLow(_) => "keep_low"@,
        Mask::KeepHigh(_) => "keep_high"@,
        Mask::ClearLow(_) => "clear_low"@,
        Mask::SetLow(_) => "set_low"@,
    }
}

pub open spec fn transform_kind_text(t: Transform) -> Seq<char> {
    match t {
        Transform::RotateLeft(_) => "rotate_left"@,
        Transform::RotateRight(_) => "rotate_right"@,
        Transform::ReverseBits => "reverse_bits"@,
        Transform::SwapBytes => "swap_bytes"@,
    }
}

pub struct BitManipulationFamily;

impl BitManipulationFamily {
    pub fn id(&self) -> (r: &'static str)
        ensures
            r@ == "bit-ops"@,
    {
        "bit-ops"
    }

    pub fn category(&self) -> (r: &'static str)
        ensures
            r@ == "bit-manipulation"@,
    {
        "bit-manipulation"
    }

    /// The instance for `seed`: a pure function of the seed.
    pub fn generate(&self, seed: u64) -> (r: GeneratedTask)
        ensures
            r.id@ == task_id_text("bit-ops"@, seed),
            r.category@ == "bit-manipulation"@,
            r.canary@ == canary_text("bit-ops"@, seed),
            r.prompt@ == prompt_text(sample_name(seed), sample_mask(seed), sample_transform(seed), seed, r.canary@),
            r.answer_path@ == "src/lib.rs"@,
            r.files@.len() == 2,
            r.files@[0].0@ == "Cargo.toml"@,
            r.files@[0].1@ == cargo_toml_text(),
            r.files@[1].0@ == "src/lib.rs"@,
            r.files@[1].1@ == skeleton_text(sample_name(seed), sample_mask(seed), sample_transform(seed), seed),
            r.hidden@.len() == 2,
            r.hidden@[0].0@ == "tests/behavior.rs"@,
            r.hidden@[0].1@ == behavior_text(sample_name(seed), sample_mask(seed), sample_transform(seed), seed),
            r.hidden@[1].0@ == "tests/differential.rs"@,
            r.hidden@[1].1@ == differential_text(sample_name(seed), sample_mask(seed), sample_transform(seed)),
            r.behavior_test@ == "behavior"@,
            r.hidden@[0].1@ == behavior_file(seed),
            r.hidden@[1].1@ == differential_file(seed),
            r.differential_test@ == "differential"@,
            r.alloc_test@ == Seq::<char>::empty(),
            r.max_unsafe == Some(0u32),
            r.forbidden_paths@.len() == 0,
            !r.check_clippy,
            r.clippy_allow@.len() == 0,
            r.weights == (Weights { behavior: 70, constraint: 20, quality: 10 }),
    {
        let spec = sample(seed);
        let canary = mint_canary("bit-ops", seed);
        let mut files: Vec<(String, String)> = Vec::new();
        files.push((string_of("Cargo.toml"), cargo_toml()));
        files.push((string_of("src/lib.rs"), skeleton_src(&spec, seed)));
        let mut hidden: Vec<(String, String)> = Vec::new();
        hidden.push((string_of("tests/behavior.rs"), behavior_test_src(&spec, seed)));
        hidden.push((string_of("tests/differential.rs"), differential_test_src(&spec)));
        let prompt = prompt(&spec, seed, canary.as_str());
        GeneratedTask {
            id: task_id("bit-ops", seed),
            category: string_of("bit-manipulation"),
            prompt,
            canary,
            answer_path: string_of("src/lib.rs"),
            files,
            hidden,
            behavior_test: string_of("behavior"),
            differential_test: string_of("differential"),
            alloc_test: String::new(),
            max_unsafe: Some(0),
            forbidden_paths: Vec::new(),
            check_clippy: false,
            clippy_allow: Vec::new(),
            weights: Weights { behavior: 70, constraint: 20, quality: 10 },
        }
    }

    /// The correct reference implementation for `seed`.
    pub fn reference_code(&self, seed: u64) -> (r: String)
        ensures
            r@ == reference_text("pub fn "@ + sample_name(seed), sample_mask(seed), sample_transform(seed)),
    {
        reference_src(&sample(seed))
    }

    /// The ablated skeleton for `seed`.
    pub fn skeleton_code(&self, seed: u64) -> (r: String)
        ensures
            r@ == skeleton_text(sample_name(seed), sample_mask(seed), sample_transform(seed), seed),
    {
        skeleton_src(&sample(seed), seed)
    }

    /// Degenerate answers `(label, code)` that must fail grading.
    pub fn trivial_baselines(&self, seed: u64) -> (r: Vec<(String, String)>)
        ensures
            r@.len() == 2,
            r@[0].0@ == "identity"@,
            r@[0].1@ == "pub fn "@ + sample_name(seed) + "(x: u32) -> u32 { x }\n"@,
            r@[1].0@ == "const-zero"@,
            r@[1].1@ == "pub fn "@ + sample_name(seed) + "(x: u32) -> u32 { let _ = x; 0 }\n"@,
    {
        let spec = sample(seed);
        let mut v: Vec<(String, String)> = Vec::new();
        v.push((string_of("identity"), identity(&spec)));
        v.push((string_of("const-zero"), const_zero(&spec)));
        v
    }

    /// The structural identity of the task: the (mask kind, transform kind)
    /// pair; widths, rotate amounts and the name are excluded.
    pub fn spec_signature(&self, seed: u64) -> (r: Vec<String>)
        ensures
            r@.len() == 2,
            r@[0]@ == "mask:"@ + mask_kind_text(sample_mask(seed)),
            r@[1]@ == "transform:"@ + transform_kind_text(sample_transform(seed)),
    {
        let spec = sample(seed);
        let mask = match spec.mask {
            Mask::Identity => "identity",
            Mask::KeepLow(_) => "keep_low",
            Mask::KeepHigh(_) => "keep_high",
            Mask::ClearLow(_) => "clear_low",
            Mask::SetLow(_) => "set_low",
        };
        let transform = match spec.transform {
            Transform::RotateLeft(_) => "rotate_left",
            Transform::RotateRight(_) => "rotate_right",
            Transform::ReverseBits => "reverse_bits",
            Transform::SwapBytes => "swap_bytes",
        };
        let mut a = string_of("mask:");
        push_str(&mut a, mask);
        let mut b = string_of("transform:");
        push_str(&mut b, transform);
        let mut v: Vec<String> = Vec::new();
        v.push(a);
        v.push(b);
        v
    }
}

// ---- the canonical example catches both trivial baselines -----------------

/// The ten values any sampled mask can leave of `CANONICAL`.
pub open spec fn canonical_masked(m: u32) -> bool {
    m == 0xf1u32 || m == 0xdef1u32 || m == 0xbcdef1u32 || m == 0x9a000000u32 || m == 0x9abc0000u32
        || m == 0x9abcde00u32 || m == 0x9abcdef1u32 || m == 0x9abcdeffu32 || m == 0x9abcffffu32
        || m == 0x9affffffu32
}

proof fn lemma_canonical_masks()
    ensures
        forall|kind: u64, w: u64| #![trigger mask_of(kind, width_at(w))]
            canonical_masked(mask_spec(mask_of(kind, width_at(w)), CANONICAL)),
{
    assert(
        0x9ABCDEF1u32 & (((1u32 << 8u32) - 1u32) as u32) == 0xf1u32
        && 0x9ABCDEF1u32 & (((1u32 << 16u32) - 1u32) as u32) == 0xdef1u32
        && 0x9ABCDEF1u32 & (((1u32 << 24u32) - 1u32) as u32) == 0xbcdef1u32
        && 0x9ABCDEF1u32 & !(((1u32 << 24u32) - 1u32) as u32) == 0x9a000000u32
        && 0x9ABCDEF1u32 & !(((1u32 << 16u32) - 1u32) as u32) == 0x9abc0000u32
        && 0x9ABCDEF1u32 & !(((1u32 << 8u32) - 1u32) as u32) == 0x9abcde00u32
        && 0x9ABCDEF1u32 | (((1u32 << 8u32) - 1u32) as u32) == 0x9abcdeffu32
        && 0x9ABCDEF1u32 | (((1u32 << 16u32) - 1u32) as u32) == 0x9abcffffu32
        && 0x9ABCDEF1u32 | (((1u32 << 24u32) - 1u32) as u32) == 0x9affffffu32
    ) by (bit_vector);
}

proof fn lemma_rotations_move_canonical(m: u32, k: u32)
    requires
        canonical_masked(m),
        1 <= k <= 31,
    ensures
        rotl(m, k) != 0,
        rotl(m, k) != CANONICAL,
        rotr(m, k) != 0,
        rotr(m, k) != CANONICAL,
{
    assert(k % 32 == k);
    assert(canonical_masked(m) && 1 <= k <= 31 ==>
        (m << k) | (m >> ((32 - k) as u32)) != 0
        && (m << k) | (m >> ((32 - k) as u32)) != 0x9ABCDEF1u32
        && (m >> k) | (m << ((32 - k) as u32)) != 0
        && (m >> k) | (m << ((32 - k) as u32)) != 0x9ABCDEF1u32) by (bit_vector);
}

proof fn lemma_reverse_swap_move_canonical(m: u32)
    requires
        canonical_masked(m),
    ensures
        reverse_bits32(m) != 0,
        reverse_bits32(m) != 0x9ABCDEF1u32,
        swap_bytes32(m) != 0,
        swap_bytes32(m) != 0x9ABCDEF1u32,
{
    assert(canonical_masked(m) ==> reverse_bits32(m) != 0 && reverse_bits32(m) != 0x9ABCDEF1u32
        && swap_bytes32(m) != 0 && swap_bytes32(m) != 0x9ABCDEF1u32) by (bit_vector);
}

proof fn lemma_pipeline_moves_canonical(mask: Mask, t: Transform)
    requires
        canonical_masked(mask_spec(mask, CANONICAL)),
        t is RotateLeft ==> 1 <= t->RotateLeft_0 <= 31,
        t is RotateRight ==> 1 <= t->RotateRight_0 <= 31,
    ensures
        eval_spec(mask, t, CANONICAL) != 0,
        eval_spec(mask, t, CANONICAL) != CANONICAL,
{
    let m = mask_spec(mask, CANONICAL);
    match t {
        Transform::RotateLeft(k) => {
            lemma_rotations_move_canonical(m, k);
        },
        Transform::RotateRight(k) => {
            lemma_rotations_move_canonical(m, k);
        },
        _ => {
            lemma_reverse_swap_move_canonical(m);
        },
    }
}

/// For every seed, the canonical input `0x9ABCDEF1` maps to a result that is
/// neither `0` nor the input itself: the `const-zero` and `identity` baselines
/// both fail on the first worked example of every instance.
pub proof fn law_canonical_never_zero_or_unchanged(seed: u64)
    ensures
        eval_spec(sample_mask(seed), sample_transform(seed), CANONICAL) != 0,
        eval_spec(sample_mask(seed), sample_transform(seed), CANONICAL) != CANONICAL,
{
    lemma_canonical_masks();
    let kind = draw(seed, 1) % 5;
    let w = draw(seed, 0) % 3;
    assert(canonical_masked(mask_spec(mask_of(kind, width_at(w)), CANONICAL)));
    lemma_pipeline_moves_canonical(sample_mask(seed), sample_transform(seed));
}

} // verus!
