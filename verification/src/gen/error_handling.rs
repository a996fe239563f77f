//! The `error-handling` family (category `error-handling`).
//!
//! The model parses a slice of `&str` items as `i64`, checks each against a
//! seed-selected rule and folds them with a seed-selected combine, returning
//! `Result<i64, ParseError>`: the first item that does not parse, or the first
//! value that breaks the rule, ends the fold with an error. The constraint is
//! to propagate errors: no `.unwrap()` or `.expect()`.

use vstd::prelude::*;
use crate::rng::{Rng, draw};
use crate::digest::{mint_canary, canary_text};
use crate::text::{push_str, push_u64, push_i64, push_doc_block, push_terminated, dec_nat, dec_int, doc_block,
    terminated, string_views, string_of};
use crate::gen::{GeneratedTask, Weights, cargo_toml, cargo_toml_text, task_id, task_id_text,
    push_prompt_tail, prompt_tail};
use crate::oracle::{is_digit, digits_value};
use crate::gen::fold::{pow100, lemma_pow100_mono, lemma_pow100_8, lemma_small_step};

verus! {

/// How the accepted values are folded.
#[derive(Clone, Copy, Debug, PartialEq, Eq, Structural)]
pub enum Combine {
    Sum,
    Product,
    SumAbs,
}

/// What every parsed value must satisfy.
#[derive(Clone, Copy, Debug, PartialEq, Eq, Structural)]
pub enum Rule {
    NonNegative,
    AtMost(i64),
    NonZero,
}

pub struct Spec {
    pub combine: Combine,
    pub rule: Rule,
    pub fn_name: &'static str,
}

// ---- parsing ---------------------------------------------------------------

pub open spec fn in_i64(x: int) -> bool {
    i64::MIN <= x <= i64::MAX
}

/// The value `i64::from_str` reads from `s`: an optional `+` or `-`, then one
/// or more ASCII digits, whose value must fit in `i64`; `None` for anything
/// else.
pub open spec fn decimal_i64(s: Seq<char>) -> Option<int> {
    let d = unsigned_part(s);
    let v = if s.len() > 0 && s[0] == '-' { -digits_value(d) } else { digits_value(d) };
    if all_digits(d) && in_i64(v) { Some(v) } else { None }
}

/// `s` without its leading sign, if it has one.
pub open spec fn unsigned_part(s: Seq<char>) -> Seq<char> {
    if s.len() > 0 && (s[0] == '-' || s[0] == '+') { s.skip(1) } else { s }
}

/// One or more ASCII digits.
pub open spec fn all_digits(d: Seq<char>) -> bool {
    d.len() > 0 && forall|i: int| 0 <= i < d.len() ==> is_digit(#[trigger] d[i])
}

pub open spec fn opt_int(o: Option<i64>) -> Option<int> {
    match o {
        Some(v) => Some(v as int),
        None => None,
    }
}

/// `str::parse::<i64>`. Its documentation: the string must be an optional
/// `+` or `-` sign followed by digits only; anything else, an empty string or
/// a lone sign, and a value outside `i64` are errors. The contract states
/// exactly that, with the error turned into `None`.
#[verifier::external_body]
fn parse_i64(s: &str) -> (r: Option<i64>)
    ensures
        opt_int(r) == decimal_i64(s@),
{
    match s.parse::<i64>() {
        Ok(n) => Some(n),
        Err(_) => None,
    }
}

// ---- semantics -------------------------------------------------------------

pub open spec fn abs_int(x: int) -> int {
    if x < 0 { -x } else { x }
}

pub open spec fn init_spec(c: Combine) -> int {
    match c {
        Combine::Product => 1,
        _ => 0,
    }
}

pub open spec fn step_int(c: Combine, acc: int, n: int) -> int {
    match c {
        Combine::Sum => acc + n,
        Combine::Product => acc * n,
        Combine::SumAbs => acc + abs_int(n),
    }
}

/// The step computes only values that fit in `i64`.
pub open spec fn step_fits(c: Combine, acc: int, n: int) -> bool {
    in_i64(step_int(c, acc, n)) && in_i64(abs_int(n))
}

pub open spec fn passes(rule: Rule, n: int) -> bool {
    match rule {
        Rule::NonNegative => n >= 0,
        Rule::AtMost(b) => n <= b,
        Rule::NonZero => n != 0,
    }
}

/// Why a run of items was rejected.
pub ghost enum Rejection {
    /// This item does not parse as an `i64`.
    NotANumber(Seq<char>),
    /// This parsed value breaks the rule.
    FailedRule(int),
}

/// Folding `items` from accumulator `acc`: the final accumulator, or the
/// first rejection.
pub open spec fn fold_items(c: Combine, rule: Rule, items: Seq<Seq<char>>, acc: int) -> Result<int, Rejection>
    decreases items.len(),
{
    if items.len() == 0 {
        Ok(acc)
    } else {
        match decimal_i64(items[0]) {
            None => Err(Rejection::NotANumber(items[0])),
            Some(n) => if !passes(rule, n) {
                Err(Rejection::FailedRule(n))
            } else {
                fold_items(c, rule, items.skip(1), step_int(c, acc, n))
            },
        }
    }
}

/// No accumulator of the fold leaves `i64`.
pub open spec fn fold_fits(c: Combine, rule: Rule, items: Seq<Seq<char>>, acc: int) -> bool
    decreases items.len(),
{
    if items.len() == 0 {
        true
    } else {
        match decimal_i64(items[0]) {
            None => true,
            Some(n) => !passes(rule, n) || (step_fits(c, acc, n) && fold_fits(
                c,
                rule,
                items.skip(1),
                step_int(c, acc, n),
            )),
        }
    }
}

/// The outcome on `items`, from the combine's starting value.
pub open spec fn outcome(c: Combine, rule: Rule, items: Seq<Seq<char>>) -> Result<int, Rejection> {
    fold_items(c, rule, items, init_spec(c))
}

/// A rejection as its tag: `NotANumber(item)` or `FailedRule(value)`.
pub open spec fn rejection_tag(e: Rejection) -> Seq<char> {
    match e {
        Rejection::NotANumber(item) => "NotANumber("@ + item + ")"@,
        Rejection::FailedRule(n) => "FailedRule("@ + dec_int(n) + ")"@,
    }
}

pub open spec fn tagged(o: Result<int, Rejection>) -> Result<int, Seq<char>> {
    match o {
        Ok(v) => Ok(v),
        Err(e) => Err(rejection_tag(e)),
    }
}

pub open spec fn result_view(r: Result<i64, String>) -> Result<int, Seq<char>> {
    match r {
        Ok(v) => Ok(v as int),
        Err(e) => Err(e@),
    }
}

/// The characters of each item.
pub open spec fn strs(items: Seq<&str>) -> Seq<Seq<char>> {
    items.map_values(|s: &str| s@)
}

/// A rejection the library hands back.
#[derive(Clone, Debug, PartialEq, Eq)]
pub enum ItemError {
    NotANumber(String),
    FailedRule(i64),
}

pub open spec fn item_error_view(e: ItemError) -> Rejection {
    match e {
        ItemError::NotANumber(s) => Rejection::NotANumber(s@),
        ItemError::FailedRule(n) => Rejection::FailedRule(n as int),
    }
}

pub open spec fn outcome_view(r: Result<i64, ItemError>) -> Result<int, Rejection> {
    match r {
        Ok(v) => Ok(v as int),
        Err(e) => Err(item_error_view(e)),
    }
}

impl ItemError {
    /// The tag: `NotANumber(item)` or `FailedRule(value)`.
    pub fn tag(&self) -> (r: String)
        ensures
            r@ == rejection_tag(item_error_view(*self)),
    {
        match self {
            ItemError::NotANumber(s) => {
                let mut t = string_of("NotANumber(");
                push_str(&mut t, s.as_str());
                push_str(&mut t, ")");
                t
            },
            ItemError::FailedRule(n) => {
                let mut t = string_of("FailedRule(");
                push_i64(&mut t, *n);
                push_str(&mut t, ")");
                t
            },
        }
    }
}

pub fn init_val(c: Combine) -> (r: i64)
    ensures
        r == init_spec(c),
{
    match c {
        Combine::Product => 1,
        _ => 0,
    }
}

pub fn step_val(c: Combine, acc: i64, n: i64) -> (r: i64)
    requires
        step_fits(c, acc as int, n as int),
    ensures
        r == step_int(c, acc as int, n as int),
{
    match c {
        Combine::Sum => acc + n,
        Combine::Product => acc * n,
        Combine::SumAbs => acc + if n < 0 { -n } else { n },
    }
}

pub fn passes_rule(rule: Rule, n: i64) -> (r: bool)
    ensures
        r == passes(rule, n as int),
{
    match rule {
        Rule::NonNegative => n >= 0,
        Rule::AtMost(b) => n <= b,
        Rule::NonZero => n != 0,
    }
}

/// Parses, checks and folds `items`, stopping at the first rejection.
pub fn check_items(spec: &Spec, items: &[&str]) -> (r: Result<i64, ItemError>)
    requires
        fold_fits(spec.combine, spec.rule, strs(items@), init_spec(spec.combine)),
    ensures
        outcome_view(r) == outcome(spec.combine, spec.rule, strs(items@)),
{
    let ghost c = spec.combine;
    let ghost rule = spec.rule;
    let ghost all = strs(items@);
    let mut acc = init_val(spec.combine);
    let mut i: usize = 0;
    assert(all.skip(0) =~= all);
    while i < items.len()
        invariant
            i <= items.len(),
            c == spec.combine && rule == spec.rule,
            all == strs(items@),
            all.len() == items@.len(),
            fold_items(c, rule, all, init_spec(c)) == fold_items(c, rule, all.skip(i as int), acc as int),
            fold_fits(c, rule, all.skip(i as int), acc as int),
        decreases items.len() - i,
    {
        let ghost rest = all.skip(i as int);
        assert(rest[0] == items@[i as int]@);
        assert(rest.skip(1) =~= all.skip(i + 1));
        let item = items[i];
        match parse_i64(item) {
            None => {
                return Err(ItemError::NotANumber(String::from_str(item)));
            },
            Some(n) => {
                if !passes_rule(spec.rule, n) {
                    return Err(ItemError::FailedRule(n));
                }
                acc = step_val(spec.combine, acc, n);
            },
        }
        i = i + 1;
    }
    assert(all.skip(i as int).len() == 0);
    Ok(acc)
}

/// The answer: the folded value, or the tag of the first rejection.
pub fn eval(spec: &Spec, items: &[&str]) -> (r: Result<i64, String>)
    requires
        fold_fits(spec.combine, spec.rule, strs(items@), init_spec(spec.combine)),
    ensures
        result_view(r) == tagged(outcome(spec.combine, spec.rule, strs(items@))),
{
    match check_items(spec, items) {
        Ok(v) => Ok(v),
        Err(e) => Err(e.tag()),
    }
}


// ---- bounds ----------------------------------------------------------------

/// The item does not parse, or holds a value in `-9..=9`.
pub open spec fn small_item(s: Seq<char>) -> bool {
    match decimal_i64(s) {
        Some(v) => -9 <= v <= 9,
        None => true,
    }
}

/// Every item that parses holds a value in `-9..=9`.
pub open spec fn small_items(items: Seq<Seq<char>>) -> bool {
    forall|i: int| 0 <= i < items.len() ==> #[trigger] small_item(items[i])
}

/// Folding at most `8 - k` small items from an accumulator within `100^k`
/// never leaves `i64`.
pub proof fn lemma_small_fold_fits(c: Combine, rule: Rule, items: Seq<Seq<char>>, acc: int, k: nat)
    requires
        small_items(items),
        k + items.len() <= 8,
        -pow100(k) <= acc <= pow100(k),
    ensures
        fold_fits(c, rule, items, acc),
    decreases items.len(),
{
    if items.len() > 0 {
        match decimal_i64(items[0]) {
            None => {},
            Some(n) => {
                assert(small_item(items[0]));
                assert(-9 <= n <= 9);
                lemma_small_step(acc, n, k);
                lemma_pow100_mono(k + 1, 8);
                lemma_pow100_8();
                let rest = items.skip(1);
                assert(small_items(rest)) by {
                    assert forall|i: int| 0 <= i < rest.len() implies #[trigger] small_item(rest[i]) by {
                        assert(rest[i] == items[i + 1]);
                        assert(small_item(items[i + 1]));
                    }
                }
                lemma_small_fold_fits(c, rule, rest, step_int(c, acc, n), k + 1);
            },
        }
    }
}

/// A one-digit item reads as that digit.
pub proof fn lemma_digit_item(s: Seq<char>)
    requires
        s.len() == 1,
        is_digit(s[0]),
    ensures
        decimal_i64(s) == Some((s[0] as u32 - 48) as int),
{
    assert(s.drop_last() =~= Seq::<char>::empty());
    assert(s[0] != '-' && s[0] != '+');
    assert(digits_value(s) == 10 * digits_value(s.drop_last()) + (s.last() as u32 - 48));
    assert(digits_value(s) == (s[0] as u32 - 48) as int);
    assert(unsigned_part(s) == s);
    assert(all_digits(s));
}

// ---- sampling --------------------------------------------------------------

pub open spec fn combine_of(i: u64) -> Combine {
    if i == 0 { Combine::Sum } else if i == 1 { Combine::Product } else { Combine::SumAbs }
}

pub open spec fn bound_at(i: u64) -> i64 {
    if i == 0 { 10i64 } else if i == 1 { 50i64 } else { 100i64 }
}

fn bound_of(i: u64) -> (r: i64)
    ensures
        r == bound_at(i),
{
    if i == 0 { 10 } else if i == 1 { 50 } else { 100 }
}

pub open spec fn sample_combine(seed: u64) -> Combine {
    combine_of(draw(seed, 0) % 3)
}

pub open spec fn sample_rule(seed: u64) -> Rule {
    let kind = draw(seed, 1) % 3;
    if kind == 0 {
        Rule::NonNegative
    } else if kind == 1 {
        Rule::AtMost(bound_at(draw(seed, 2) % 3))
    } else {
        Rule::NonZero
    }
}

/// How many draws the combine and the rule consumed.
pub open spec fn rule_draws(seed: u64) -> nat {
    if draw(seed, 1) % 3 == 1 { 3 } else { 2 }
}

pub open spec fn name_text(i: u64) -> Seq<char> {
    if i == 0 { "reduce_items"@ }
    else if i == 1 { "fold_values"@ }
    else if i == 2 { "accumulate"@ }
    else if i == 3 { "combine_entries"@ }
    else if i == 4 { "aggregate"@ }
    else { "tally"@ }
}

pub open spec fn sample_name(seed: u64) -> Seq<char> {
    name_text(draw(seed, rule_draws(seed)) % 6)
}

fn name_at(i: u64) -> (r: &'static str)
    requires
        i < 6,
    ensures
        r@ == name_text(i),
{
    if i == 0 { "reduce_items" }
    else if i == 1 { "fold_values" }
    else if i == 2 { "accumulate" }
    else if i == 3 { "combine_entries" }
    else if i == 4 { "aggregate" }
    else { "tally" }
}

/// The bounds a seed can choose for `AtMost`: 10, 50 or 100.
pub open spec fn valid_rule(rule: Rule) -> bool {
    match rule {
        Rule::AtMost(b) => b == 10 || b == 50 || b == 100,
        _ => true,
    }
}

/// The spec for `seed`: every choice is a function of the seed's stream.
pub fn sample(seed: u64) -> (r: Spec)
    ensures
        r.combine == sample_combine(seed),
        r.rule == sample_rule(seed),
        r.fn_name@ == sample_name(seed),
        valid_rule(r.rule),
{
    let mut rng = Rng::new(seed);
    let ck = rng.below(3);
    let combine = if ck == 0 {
        Combine::Sum
    } else if ck == 1 {
        Combine::Product
    } else {
        Combine::SumAbs
    };
    let rk = rng.below(3);
    let rule = if rk == 0 {
        Rule::NonNegative
    } else if rk == 1 {
        Rule::AtMost(bound_of(rng.below(3)))
    } else {
        Rule::NonZero
    };
    let fn_name = name_at(rng.below(6));
    Spec { combine, rule, fn_name }
}

// ---- emitted-source fragments ----------------------------------------------

pub open spec fn acc_expr_text(c: Combine) -> Seq<char> {
    match c {
        Combine::Sum => "acc + n"@,
        Combine::Product => "acc * n"@,
        Combine::SumAbs => "acc + n.abs()"@,
    }
}

pub fn acc_expr(c: Combine) -> (r: &'static str)
    ensures
        r@ == acc_expr_text(c),
{
    match c {
        Combine::Sum => "acc + n",
        Combine::Product => "acc * n",
        Combine::SumAbs => "acc + n.abs()",
    }
}

pub open spec fn rule_cond_text(rule: Rule) -> Seq<char> {
    match rule {
        Rule::NonNegative => "n >= 0"@,
        Rule::AtMost(b) => "n <= "@ + dec_int(b as int),
        Rule::NonZero => "n != 0"@,
    }
}

pub fn rule_cond(rule: Rule) -> (r: String)
    ensures
        r@ == rule_cond_text(rule),
{
    match rule {
        Rule::NonNegative => string_of("n >= 0"),
        Rule::AtMost(b) => {
            let mut s = string_of("n <= ");
            push_i64(&mut s, b);
            s
        },
        Rule::NonZero => string_of("n != 0"),
    }
}

pub open spec fn combine_prose_text(c: Combine) -> Seq<char> {
    match c {
        Combine::Sum => "their sum"@,
        Combine::Product => "their product"@,
        Combine::SumAbs => "the sum of their absolute values"@,
    }
}

pub fn combine_prose(c: Combine) -> (r: &'static str)
    ensures
        r@ == combine_prose_text(c),
{
    match c {
        Combine::Sum => "their sum",
        Combine::Product => "their product",
        Combine::SumAbs => "the sum of their absolute values",
    }
}

pub open spec fn rule_prose_text(rule: Rule) -> Seq<char> {
    match rule {
        Rule::NonNegative => "be non-negative (>= 0)"@,
        Rule::AtMost(b) => "be at most "@ + dec_int(b as int),
        Rule::NonZero => "be non-zero"@,
    }
}

pub fn rule_prose(rule: Rule) -> (r: String)
    ensures
        r@ == rule_prose_text(rule),
{
    match rule {
        Rule::NonNegative => string_of("be non-negative (>= 0)"),
        Rule::AtMost(b) => {
            let mut s = string_of("be at most ");
            push_i64(&mut s, b);
            s
        },
        Rule::NonZero => string_of("be non-zero"),
    }
}

/// The provided error enum, as the model sees it.
pub open spec fn enum_text() -> Seq<char> {
    "#[derive(Debug, PartialEq)]\npub enum ParseError {\n    NotANumber(String),\n    FailedRule(i64),\n}\n"@
}

pub fn enum_src() -> (r: &'static str)
    ensures
        r@ == enum_text(),
{
    "#[derive(Debug, PartialEq)]\npub enum ParseError {\n    NotANumber(String),\n    FailedRule(i64),\n}\n"
}

/// The reference function (without the enum), headed by `head`.
pub open spec fn reference_body_text(head: Seq<char>, c: Combine, rule: Rule) -> Seq<char> {
    head + "(items: &[&str]) -> Result<i64, ParseError> {\n    let mut acc: i64 = "@ + dec_int(init_spec(c))
        + ";\n    for item in items {\n        let n: i64 = item.parse().map_err(|_| ParseError::NotANumber((*item).to_string()))?;\n        if !("@
        + rule_cond_text(rule) + ") {\n            return Err(ParseError::FailedRule(n));\n        }\n        acc = "@
        + acc_expr_text(c) + ";\n    }\n    Ok(acc)\n}\n"@
}

fn reference_body(spec: &Spec, head: &str) -> (r: String)
    ensures
        r@ == reference_body_text(head@, spec.combine, spec.rule),
{
    let mut s = string_of(head);
    push_str(&mut s, "(items: &[&str]) -> Result<i64, ParseError> {\n    let mut acc: i64 = ");
    push_i64(&mut s, init_val(spec.combine));
    push_str(&mut s, ";\n    for item in items {\n        let n: i64 = item.parse().map_err(|_| ParseError::NotANumber((*item).to_string()))?;\n        if !(");
    let cond = rule_cond(spec.rule);
    push_str(&mut s, cond.as_str());
    push_str(&mut s, ") {\n            return Err(ParseError::FailedRule(n));\n        }\n        acc = ");
    push_str(&mut s, acc_expr(spec.combine));
    push_str(&mut s, ";\n    }\n    Ok(acc)\n}\n");
    s
}

/// The reference solution: the enum, then the function.
pub open spec fn reference_text(name: Seq<char>, c: Combine, rule: Rule) -> Seq<char> {
    enum_text() + "\n"@ + reference_body_text("pub fn "@ + name, c, rule)
}

pub fn reference_src(spec: &Spec) -> (r: String)
    ensures
        r@ == reference_text(spec.fn_name@, spec.combine, spec.rule),
{
    let mut s = string_of(enum_src());
    push_str(&mut s, "\n");
    let mut head = string_of("pub fn ");
    push_str(&mut head, spec.fn_name);
    let body = reference_body(spec, head.as_str());
    push_str(&mut s, body.as_str());
    s
}


// ---- worked examples -------------------------------------------------------

/// The fixed example inputs: two clean runs, one with an item that is not a
/// number, and the empty input.
pub open spec fn example_inputs() -> Seq<Seq<Seq<char>>> {
    seq![seq!["1"@, "2"@, "3"@], seq!["4"@, "5"@], seq!["7"@, "oops"@, "9"@], Seq::empty()]
}

pub proof fn lemma_examples_small()
    ensures
        forall|i: int| 0 <= i < 4 ==> small_items(#[trigger] example_inputs()[i]) && example_inputs()[i].len() <= 3,
{
    reveal_strlit("1");
    reveal_strlit("2");
    reveal_strlit("3");
    reveal_strlit("4");
    reveal_strlit("5");
    reveal_strlit("7");
    reveal_strlit("9");
    reveal_strlit("oops");
    lemma_digit_item("1"@);
    lemma_digit_item("2"@);
    lemma_digit_item("3"@);
    lemma_digit_item("4"@);
    lemma_digit_item("5"@);
    lemma_digit_item("7"@);
    lemma_digit_item("9"@);
    let o = "oops"@;
    assert(!is_digit(o[0]));
    assert(o[0] != '-' && o[0] != '+');
    assert(unsigned_part(o) == o);
    assert(!all_digits(o));
    assert(decimal_i64(o) is None);
    let e = example_inputs();
    assert(small_items(e[0]));
    assert(small_items(e[1]));
    assert(small_items(e[2]));
    assert(small_items(e[3]));
}

/// Items rendered as `{:?}` renders a list of strings that need no escaping:
/// each in double quotes, joined by `, `.
pub open spec fn quoted_items(items: Seq<Seq<char>>) -> Seq<char>
    decreases items.len(),
{
    if items.len() == 0 {
        Seq::empty()
    } else if items.len() == 1 {
        "\""@ + items[0] + "\""@
    } else {
        quoted_items(items.drop_last()) + ", \""@ + items.last() + "\""@
    }
}

pub open spec fn items_text(items: Seq<Seq<char>>) -> Seq<char> {
    "["@ + quoted_items(items) + "]"@
}

fn push_items(s: &mut String, items: &[&str])
    ensures
        final(s)@ == old(s)@ + items_text(strs(items@)),
{
    let ghost start = s@;
    let ghost all = strs(items@);
    push_str(s, "[");
    let mut i: usize = 0;
    assert(all.take(0) =~= Seq::<Seq<char>>::empty());
    while i < items.len()
        invariant
            i <= items.len(),
            all == strs(items@),
            s@ == start + "["@ + quoted_items(all.take(i as int)),
        decreases items.len() - i,
    {
        if i > 0 {
            push_str(s, ", \"");
        } else {
            push_str(s, "\"");
        }
        push_str(s, items[i]);
        push_str(s, "\"");
        assert(all.take(i + 1).drop_last() =~= all.take(i as int));
        assert(all.take(i + 1).last() == items@[i as int]@);
        i = i + 1;
    }
    push_str(s, "]");
    assert(all.take(items.len() as int) =~= all);
}

/// An outcome as the examples show it: `Ok(v)` or `Err(ParseError::tag)`.
pub open spec fn outcome_text(o: Result<int, Rejection>) -> Seq<char> {
    match o {
        Ok(v) => "Ok("@ + dec_int(v) + ")"@,
        Err(e) => "Err(ParseError::"@ + rejection_tag(e) + ")"@,
    }
}

fn push_outcome(s: &mut String, o: &Result<i64, ItemError>)
    ensures
        final(s)@ == old(s)@ + outcome_text(outcome_view(*o)),
{
    match o {
        Ok(v) => {
            push_str(s, "Ok(");
            push_i64(s, *v);
            push_str(s, ")");
        },
        Err(e) => {
            push_str(s, "Err(ParseError::");
            let t = e.tag();
            push_str(s, t.as_str());
            push_str(s, ")");
        },
    }
}

pub open spec fn example_line(items: Seq<Seq<char>>, o: Result<int, Rejection>) -> Seq<char> {
    "  "@ + items_text(items) + "  ->  "@ + outcome_text(o)
}

pub open spec fn example_lines(c: Combine, rule: Rule) -> Seq<Seq<char>> {
    example_inputs().map_values(|x: Seq<Seq<char>>| example_line(x, outcome(c, rule, x)))
}

/// One worked example: (items, expected outcome).
pub type ExampleCase = (Vec<&'static str>, Result<i64, ItemError>);

pub open spec fn example_cases(c: Combine, rule: Rule) -> Seq<(Seq<Seq<char>>, Result<int, Rejection>)> {
    example_inputs().map_values(|x: Seq<Seq<char>>| (x, outcome(c, rule, x)))
}

pub open spec fn case_view(c: ExampleCase) -> (Seq<Seq<char>>, Result<int, Rejection>) {
    (strs(c.0@), outcome_view(c.1))
}

fn example_input_vecs() -> (r: Vec<Vec<&'static str>>)
    ensures
        r@.len() == 4,
        forall|i: int| 0 <= i < 4 ==> strs((#[trigger] r@[i])@) == example_inputs()[i],
{
    let a: Vec<&'static str> = vec!["1", "2", "3"];
    let b: Vec<&'static str> = vec!["4", "5"];
    let c: Vec<&'static str> = vec!["7", "oops", "9"];
    let d: Vec<&'static str> = Vec::new();
    assert(strs(a@) =~= seq!["1"@, "2"@, "3"@]);
    assert(strs(b@) =~= seq!["4"@, "5"@]);
    assert(strs(c@) =~= seq!["7"@, "oops"@, "9"@]);
    assert(strs(d@) =~= Seq::<Seq<char>>::empty());
    let mut r: Vec<Vec<&'static str>> = Vec::new();
    r.push(a);
    r.push(b);
    r.push(c);
    r.push(d);
    r
}

fn example_line_string(items: &Vec<&'static str>, o: &Result<i64, ItemError>) -> (r: String)
    ensures
        r@ == example_line(strs(items@), outcome_view(*o)),
{
    let mut s = string_of("  ");
    push_items(&mut s, items.as_slice());
    push_str(&mut s, "  ->  ");
    push_outcome(&mut s, o);
    s
}

/// The worked examples as lines (without newlines) and cases.
pub fn example_data(spec: &Spec) -> (r: (Vec<String>, Vec<ExampleCase>))
    ensures
        string_views(r.0@) == example_lines(spec.combine, spec.rule),
        r.1@.len() == 4,
        forall|i: int| 0 <= i < 4 ==> case_view(#[trigger] r.1@[i]) == example_cases(spec.combine, spec.rule)[i],
{
    let inputs = example_input_vecs();
    let ghost c = spec.combine;
    let ghost rule = spec.rule;
    proof {
        lemma_examples_small();
    }
    let mut lines: Vec<String> = Vec::new();
    let mut cases: Vec<ExampleCase> = Vec::new();
    let mut j: usize = 0;
    while j < inputs.len()
        invariant
            j <= inputs.len(),
            inputs@.len() == 4,
            c == spec.combine && rule == spec.rule,
            forall|i: int| 0 <= i < 4 ==> strs((#[trigger] inputs@[i])@) == example_inputs()[i],
            forall|i: int| 0 <= i < 4 ==> small_items(#[trigger] example_inputs()[i]) && example_inputs()[i].len() <= 3,
            lines@.len() == j,
            cases@.len() == j,
            forall|q: int| 0 <= q < j ==> #[trigger] lines@[q]@ == example_lines(c, rule)[q],
            forall|q: int| 0 <= q < j ==> case_view(#[trigger] cases@[q]) == example_cases(c, rule)[q],
        decreases inputs.len() - j,
    {
        let items = inputs[j].clone();
        proof {
            assert(strs(items@) == example_inputs()[j as int]);
            lemma_pow100_mono(0, 0);
            lemma_small_fold_fits(c, rule, strs(items@), init_spec(c), 0);
        }
        let o = check_items(spec, items.as_slice());
        lines.push(example_line_string(&items, &o));
        cases.push((items, o));
        j = j + 1;
    }
    assert(string_views(lines@) =~= example_lines(c, rule));
    (lines, cases)
}

/// Worked examples: the prose block and the cases.
pub fn worked_examples(spec: &Spec) -> (r: (String, Vec<ExampleCase>))
    ensures
        r.0@ == terminated(example_lines(spec.combine, spec.rule)),
        r.1@.len() == 4,
        forall|i: int| 0 <= i < 4 ==> case_view(#[trigger] r.1@[i]) == example_cases(spec.combine, spec.rule)[i],
{
    let (lines, cases) = example_data(spec);
    let mut prose = String::new();
    push_terminated(&mut prose, &lines);
    (prose, cases)
}


// ---- the files of an instance ----------------------------------------------

pub open spec fn skeleton_text(name: Seq<char>, c: Combine, rule: Rule) -> Seq<char> {
    "//! Implement `"@ + name + "` below.\n//!\n"@ + doc_block(example_lines(c, rule)) + "\n"@ + enum_text()
        + "\npub fn "@ + name + "(items: &[&str]) -> Result<i64, ParseError> {\n    todo!()\n}\n"@
}

pub fn skeleton_src(spec: &Spec) -> (r: String)
    ensures
        r@ == skeleton_text(spec.fn_name@, spec.combine, spec.rule),
{
    let (lines, _) = example_data(spec);
    let mut s = string_of("//! Implement `");
    push_str(&mut s, spec.fn_name);
    push_str(&mut s, "` below.\n//!\n");
    push_doc_block(&mut s, &lines);
    push_str(&mut s, "\n");
    push_str(&mut s, enum_src());
    push_str(&mut s, "\npub fn ");
    push_str(&mut s, spec.fn_name);
    push_str(&mut s, "(items: &[&str]) -> Result<i64, ParseError> {\n    todo!()\n}\n");
    s
}

pub open spec fn prompt_text(name: Seq<char>, c: Combine, rule: Rule, canary: Seq<char>) -> Seq<char> {
    "Implement the function `"@ + name
        + "` in `src/lib.rs`. The `ParseError` enum is already provided; keep it.\n\nParse each item of `items` as an `i64`. If an item does not parse, return `Err(ParseError::NotANumber(item))`. Each parsed value must "@
        + rule_prose_text(rule)
        + "; if one does not, return `Err(ParseError::FailedRule(value))`. Otherwise return `Ok` of "@
        + combine_prose_text(c) + ". An empty input returns `Ok("@ + dec_int(init_spec(c))
        + ")`.\n\nConstraints:\n- Propagate errors; do not `.unwrap()`, `.expect()` or panic.\n- Do not use `unsafe`.\n\nSignature:\n```rust\npub fn "@
        + name + "(items: &[&str]) -> Result<i64, ParseError>\n```\n\nExamples:\n"@
        + terminated(example_lines(c, rule)) + "\n"@ + prompt_tail(canary)
}

pub fn prompt(spec: &Spec, canary: &str) -> (r: String)
    ensures
        r@ == prompt_text(spec.fn_name@, spec.combine, spec.rule, canary@),
{
    let (examples, _) = worked_examples(spec);
    let mut s = string_of("Implement the function `");
    push_str(&mut s, spec.fn_name);
    push_str(&mut s, "` in `src/lib.rs`. The `ParseError` enum is already provided; keep it.\n\nParse each item of `items` as an `i64`. If an item does not parse, return `Err(ParseError::NotANumber(item))`. Each parsed value must ");
    let rp = rule_prose(spec.rule);
    push_str(&mut s, rp.as_str());
    push_str(&mut s, "; if one does not, return `Err(ParseError::FailedRule(value))`. Otherwise return `Ok` of ");
    push_str(&mut s, combine_prose(spec.combine));
    push_str(&mut s, ". An empty input returns `Ok(");
    push_i64(&mut s, init_val(spec.combine));
    push_str(&mut s, ")`.\n\nConstraints:\n- Propagate errors; do not `.unwrap()`, `.expect()` or panic.\n- Do not use `unsafe`.\n\nSignature:\n```rust\npub fn ");
    push_str(&mut s, spec.fn_name);
    push_str(&mut s, "(items: &[&str]) -> Result<i64, ParseError>\n```\n\nExamples:\n");
    push_str(&mut s, examples.as_str());
    push_str(&mut s, "\n");
    push_prompt_tail(&mut s, canary);
    s
}

/// An expected outcome as a Rust `Result` literal for the tests.
pub open spec fn expected_text(o: Result<int, Rejection>) -> Seq<char> {
    match o {
        Ok(v) => "Ok("@ + dec_int(v) + ")"@,
        Err(Rejection::NotANumber(item)) => "Err(ParseError::NotANumber(String::from(\""@ + item + "\")))"@,
        Err(Rejection::FailedRule(n)) => "Err(ParseError::FailedRule("@ + dec_int(n) + "))"@,
    }
}

fn push_expected(s: &mut String, o: &Result<i64, ItemError>)
    ensures
        final(s)@ == old(s)@ + expected_text(outcome_view(*o)),
{
    match o {
        Ok(v) => {
            push_str(s, "Ok(");
            push_i64(s, *v);
            push_str(s, ")");
        },
        Err(ItemError::NotANumber(item)) => {
            push_str(s, "Err(ParseError::NotANumber(String::from(\"");
            push_str(s, item.as_str());
            push_str(s, "\")))");
        },
        Err(ItemError::FailedRule(n)) => {
            push_str(s, "Err(ParseError::FailedRule(");
            push_i64(s, *n);
            push_str(s, "))");
        },
    }
}

pub open spec fn case_test_text(name: Seq<char>, i: nat, c: (Seq<Seq<char>>, Result<int, Rejection>)) -> Seq<char> {
    "#[test]\nfn ex"@ + dec_nat(i) + "() {\n    let items: Vec<&str> = vec!"@ + items_text(c.0) + ";\n    assert_eq!("@
        + name + "(&items), "@ + expected_text(c.1) + ");\n}\n\n"@
}

pub open spec fn case_tests_text(name: Seq<char>, cases: Seq<(Seq<Seq<char>>, Result<int, Rejection>)>) -> Seq<char>
    decreases cases.len(),
{
    if cases.len() == 0 {
        Seq::empty()
    } else {
        case_tests_text(name, cases.drop_last()) + case_test_text(name, (cases.len() - 1) as nat, cases.last())
    }
}

pub open spec fn behavior_text(name: Seq<char>, c: Combine, rule: Rule) -> Seq<char> {
    "use task::{ParseError, "@ + name + "};\n\n"@ + case_tests_text(name, example_cases(c, rule))
}

fn case_test_string(name: &str, i: usize, c: &ExampleCase) -> (r: String)
    ensures
        r@ == case_test_text(name@, i as nat, case_view(*c)),
{
    let mut s = string_of("#[test]\nfn ex");
    push_u64(&mut s, i as u64);
    push_str(&mut s, "() {\n    let items: Vec<&str> = vec!");
    push_items(&mut s, c.0.as_slice());
    push_str(&mut s, ";\n    assert_eq!(");
    push_str(&mut s, name);
    push_str(&mut s, "(&items), ");
    push_expected(&mut s, &c.1);
    push_str(&mut s, ");\n}\n\n");
    s
}

pub fn behavior_test_src(spec: &Spec) -> (r: String)
    ensures
        r@ == behavior_text(spec.fn_name@, spec.combine, spec.rule),
{
    let (_, cases) = worked_examples(spec);
    let ghost cs = example_cases(spec.combine, spec.rule);
    let mut s = string_of("use task::{ParseError, ");
    push_str(&mut s, spec.fn_name);
    push_str(&mut s, "};\n\n");
    let ghost start = s@;
    let mut i: usize = 0;
    while i < cases.len()
        invariant
            i <= cases.len(),
            cases@.len() == 4,
            cs.len() == 4,
            forall|q: int| 0 <= q < 4 ==> #[trigger] cs[q] == case_view(cases@[q]),
            s@ == start + case_tests_text(spec.fn_name@, cs.take(i as int)),
        decreases cases.len() - i,
    {
        let t = case_test_string(spec.fn_name, i, &cases[i]);
        push_str(&mut s, t.as_str());
        assert(cs.take(i + 1).drop_last() =~= cs.take(i as int));
        i = i + 1;
    }
    assert(cs.take(4) =~= cs);
    s
}

pub open spec fn differential_text(name: Seq<char>, c: Combine, rule: Rule) -> Seq<char> {
    "use task::{ParseError, "@ + name + "};\n\n\n"@ + reference_body_text("fn reference"@, c, rule)
        + "\n#[test]\nfn differential_vs_reference() {\n    let mut state: u64 = 0x9E3779B97F4A7C15;\n    let mut next = || {\n        state = state.wrapping_mul(6364136223846793005).wrapping_add(1442695040888963407);\n        (state >> 33) as u64\n    };\n    for _ in 0..3000 {\n        let count = (next() % 5) as usize;\n        let mut owned: Vec<String> = Vec::new();\n        for _ in 0..count {\n            if next() % 5 == 0 {\n                owned.push(\"nope\".to_string());\n            } else {\n                let v = (next() % 220) as i64 - 110;\n                owned.push(v.to_string());\n            }\n        }\n        let items: Vec<&str> = owned.iter().map(|s| s.as_str()).collect();\n        assert_eq!("@
        + name + "(&items), reference(&items), \"mismatch on {items:?}\");\n    }\n}\n"@
}

pub fn differential_test_src(spec: &Spec) -> (r: String)
    ensures
        r@ == differential_text(spec.fn_name@, spec.combine, spec.rule),
{
    let mut s = string_of("use task::{ParseError, ");
    push_str(&mut s, spec.fn_name);
    push_str(&mut s, "};\n\n\n");
    let body = reference_body(spec, "fn reference");
    push_str(&mut s, body.as_str());
    push_str(&mut s, "\n#[test]\nfn differential_vs_reference() {\n    let mut state: u64 = 0x9E3779B97F4A7C15;\n    let mut next = || {\n        state = state.wrapping_mul(6364136223846793005).wrapping_add(1442695040888963407);\n        (state >> 33) as u64\n    };\n    for _ in 0..3000 {\n        let count = (next() % 5) as usize;\n        let mut owned: Vec<String> = Vec::new();\n        for _ in 0..count {\n            if next() % 5 == 0 {\n                owned.push(\"nope\".to_string());\n            } else {\n                let v = (next() % 220) as i64 - 110;\n                owned.push(v.to_string());\n            }\n        }\n        let items: Vec<&str> = owned.iter().map(|s| s.as_str()).collect();\n        assert_eq!(");
    push_str(&mut s, spec.fn_name);
    push_str(&mut s, "(&items), reference(&items), \"mismatch on {items:?}\");\n    }\n}\n");
    s
}

pub open spec fn const_ok_text(name: Seq<char>) -> Seq<char> {
    enum_text() + "\npub fn "@ + name + "(items: &[&str]) -> Result<i64, ParseError> { let _ = items; Ok(0) }\n"@
}

/// Degenerate answer: always `Ok(0)`.
pub fn const_ok(spec: &Spec) -> (r: String)
    ensures
        r@ == const_ok_text(spec.fn_name@),
{
    let mut s = string_of(enum_src());
    push_str(&mut s, "\npub fn ");
    push_str(&mut s, spec.fn_name);
    push_str(&mut s, "(items: &[&str]) -> Result<i64, ParseError> { let _ = items; Ok(0) }\n");
    s
}

pub open spec fn unwrap_text(name: Seq<char>, c: Combine) -> Seq<char> {
    enum_text() + "\npub fn "@ + name + "(items: &[&str]) -> Result<i64, ParseError> {\n    let mut acc: i64 = "@
        + dec_int(init_spec(c)) + ";\n    for item in items {\n        let n: i64 = item.parse().unwrap();\n        acc = "@
        + acc_expr_text(c) + ";\n    }\n    Ok(acc)\n}\n"@
}

/// Degenerate answer: unwraps instead of propagating (panics on a bad item,
/// and uses a forbidden method).
pub fn unwrap_version(spec: &Spec) -> (r: String)
    ensures
        r@ == unwrap_text(spec.fn_name@, spec.combine),
{
    let mut s = string_of(enum_src());
    push_str(&mut s, "\npub fn ");
    push_str(&mut s, spec.fn_name);
    push_str(&mut s, "(items: &[&str]) -> Result<i64, ParseError> {\n    let mut acc: i64 = ");
    push_i64(&mut s, init_val(spec.combine));
    push_str(&mut s, ";\n    for item in items {\n        let n: i64 = item.parse().unwrap();\n        acc = ");
    push_str(&mut s, acc_expr(spec.combine));
    push_str(&mut s, ";\n    }\n    Ok(acc)\n}\n");
    s
}

/// The hidden behaviour tests of the task `seed` gives.
pub closed spec fn behavior_file(seed: u64) -> Seq<char> {
    behavior_text(sample_name(seed), sample_combine(seed), sample_rule(seed))
}

/// The hidden differential test of the task `seed` gives.
pub closed spec fn differential_file(seed: u64) -> Seq<char> {
    differential_text(sample_name(seed), sample_combine(seed), sample_rule(seed))
}

// ---- the family ------------------------------------------------------------

pub open spec fn combine_name(c: Combine) -> Seq<char> {
    match c {
        Combine::Sum => "Sum"@,
        Combine::Product => "Product"@,
        Combine::SumAbs => "SumAbs"@,
    }
}

pub open spec fn rule_name(rule: Rule) -> Seq<char> {
    match rule {
        Rule::NonNegative => "NonNegative"@,
        Rule::AtMost(_) => "AtMost"@,
        Rule::NonZero => "NonZero"@,
    }
}

pub struct ErrorHandlingFamily;

impl ErrorHandlingFamily {
    pub fn id(&self) -> (r: &'static str)
        ensures
            r@ == "error-handling"@,
    {
        "error-handling"
    }

    pub fn category(&self) -> (r: &'static str)
        ensures
            r@ == "error-handling"@,
    {
        "error-handling"
    }

    /// The instance for `seed`: a pure function of the seed.
    pub fn generate(&self, seed: u64) -> (r: GeneratedTask)
        ensures
            r.id@ == task_id_text("error-handling"@, seed),
            r.category@ == "error-handling"@,
            r.canary@ == canary_text("error-handling"@, seed),
            r.prompt@ == prompt_text(sample_name(seed), sample_combine(seed), sample_rule(seed), r.canary@),
            r.answer_path@ == "src/lib.rs"@,
            r.files@.len() == 2,
            r.files@[0].0@ == "Cargo.toml"@,
            r.files@[0].1@ == cargo_toml_text(),
            r.files@[1].0@ == "src/lib.rs"@,
            r.files@[1].1@ == skeleton_text(sample_name(seed), sample_combine(seed), sample_rule(seed)),
            r.hidden@.len() == 2,
            r.hidden@[0].0@ == "tests/behavior.rs"@,
            r.hidden@[0].1@ == behavior_text(sample_name(seed), sample_combine(seed), sample_rule(seed)),
            r.hidden@[1].0@ == "tests/differential.rs"@,
            r.hidden@[1].1@ == differential_text(sample_name(seed), sample_combine(seed), sample_rule(seed)),
            r.behavior_test@ == "behavior"@,
            r.hidden@[0].1@ == behavior_file(seed),
            r.hidden@[1].1@ == differential_file(seed),
            r.differential_test@ == "differential"@,
            r.alloc_test@.len() == 0,
            r.max_unsafe == Some(0u32),
            r.forbidden_paths@.len() == 2,
            r.forbidden_paths@[0]@ == "unwrap"@,
            r.forbidden_paths@[1]@ == "expect"@,
            !r.check_clippy,
            r.clippy_allow@.len() == 0,
            r.weights == (Weights { behavior: 70, constraint: 20, quality: 10 }),
    {
        let spec = sample(seed);
        let canary = mint_canary("error-handling", seed);
        let mut files: Vec<(String, String)> = Vec::new();
        files.push((string_of("Cargo.toml"), cargo_toml()));
        files.push((string_of("src/lib.rs"), skeleton_src(&spec)));
        let mut hidden: Vec<(String, String)> = Vec::new();
        hidden.push((string_of("tests/behavior.rs"), behavior_test_src(&spec)));
        hidden.push((string_of("tests/differential.rs"), differential_test_src(&spec)));
        let mut forbidden: Vec<String> = Vec::new();
        forbidden.push(string_of("unwrap"));
        forbidden.push(string_of("expect"));
        let prompt = prompt(&spec, canary.as_str());
        GeneratedTask {
            id: task_id("error-handling", seed),
            category: string_of("error-handling"),
            prompt,
            canary,
            answer_path: string_of("src/lib.rs"),
            files,
            hidden,
            behavior_test: string_of("behavior"),
            differential_test: string_of("differential"),
            alloc_test: String::new(),
            max_unsafe: Some(0),
            forbidden_paths: forbidden,
            check_clippy: false,
            clippy_allow: Vec::new(),
            weights: Weights { behavior: 70, constraint: 20, quality: 10 },
        }
    }

    pub fn reference_code(&self, seed: u64) -> (r: String)
        ensures
            r@ == reference_text(sample_name(seed), sample_combine(seed), sample_rule(seed)),
    {
        reference_src(&sample(seed))
    }

    pub fn skeleton_code(&self, seed: u64) -> (r: String)
        ensures
            r@ == skeleton_text(sample_name(seed), sample_combine(seed), sample_rule(seed)),
    {
        skeleton_src(&sample(seed))
    }

    /// Degenerate answers `(label, code)` that must fail grading.
    pub fn trivial_baselines(&self, seed: u64) -> (r: Vec<(String, String)>)
        ensures
            r@.len() == 2,
            r@[0].0@ == "const-ok"@,
            r@[0].1@ == const_ok_text(sample_name(seed)),
            r@[1].0@ == "unwrap"@,
            r@[1].1@ == unwrap_text(sample_name(seed), sample_combine(seed)),
    {
        let spec = sample(seed);
        let mut v: Vec<(String, String)> = Vec::new();
        v.push((string_of("const-ok"), const_ok(&spec)));
        v.push((string_of("unwrap"), unwrap_version(&spec)));
        v
    }

    /// The structural identity: the combine and the kind of rule, without
    /// the rule's bound or the name.
    pub fn spec_signature(&self, seed: u64) -> (r: Vec<String>)
        ensures
            r@.len() == 2,
            r@[0]@ == "combine:"@ + combine_name(sample_combine(seed)),
            r@[1]@ == "rule:"@ + rule_name(sample_rule(seed)),
    {
        let spec = sample(seed);
        let c = match spec.combine {
            Combine::Sum => "Sum",
            Combine::Product => "Product",
            Combine::SumAbs => "SumAbs",
        };
        let r = match spec.rule {
            Rule::NonNegative => "NonNegative",
            Rule::AtMost(_) => "AtMost",
            Rule::NonZero => "NonZero",
        };
        let mut a = string_of("combine:");
        push_str(&mut a, c);
        let mut b = string_of("rule:");
        push_str(&mut b, r);
        let mut v: Vec<String> = Vec::new();
        v.push(a);
        v.push(b);
        v
    }
}

/// The first rejection ends the fold: whatever follows a rejected run of
/// items, the outcome is that rejection.
pub proof fn law_rejection_short_circuits(
    c: Combine,
    rule: Rule,
    items: Seq<Seq<char>>,
    rest: Seq<Seq<char>>,
    acc: int,
)
    requires
        fold_items(c, rule, items, acc) is Err,
    ensures
        fold_items(c, rule, items + rest, acc) == fold_items(c, rule, items, acc),
    decreases items.len(),
{
    let all = items + rest;
    assert(all[0] == items[0]);
    assert(all.skip(1) =~= items.skip(1) + rest);
    match decimal_i64(items[0]) {
        None => {},
        Some(n) => {
            if passes(rule, n) {
                law_rejection_short_circuits(c, rule, items.skip(1), rest, step_int(c, acc, n));
            }
        },
    }
}

/// The empty input gives the combine's starting value.
pub proof fn law_empty_is_init(c: Combine, rule: Rule)
    ensures
        outcome(c, rule, Seq::empty()) == Ok::<int, Rejection>(init_spec(c)),
{
}

/// Under every combine and every rule a seed can choose, `["1", "2", "3"]`
/// gives `Ok(6)`: the `const-ok` baseline fails the first worked example.
pub proof fn law_first_example_is_six(c: Combine, rule: Rule)
    requires
        valid_rule(rule),
    ensures
        outcome(c, rule, example_inputs()[0]) == Ok::<int, Rejection>(6),
{
    reveal_strlit("1");
    reveal_strlit("2");
    reveal_strlit("3");
    lemma_digit_item("1"@);
    lemma_digit_item("2"@);
    lemma_digit_item("3"@);
    let e = example_inputs()[0];
    assert(e.skip(1) =~= seq!["2"@, "3"@]);
    assert(e.skip(1).skip(1) =~= seq!["3"@]);
    assert(e.skip(1).skip(1).skip(1) =~= Seq::<Seq<char>>::empty());
    assert(decimal_i64(e[0]) == Some(1int));
    assert(decimal_i64(e.skip(1)[0]) == Some(2int));
    assert(decimal_i64(e.skip(1).skip(1)[0]) == Some(3int));
    assert(passes(rule, 1) && passes(rule, 2) && passes(rule, 3));
    let a1 = step_int(c, init_spec(c), 1);
    let a2 = step_int(c, a1, 2);
    let a3 = step_int(c, a2, 3);
    assert(a3 == 6);
    assert(fold_items(c, rule, e.skip(1).skip(1).skip(1), a3) == Ok::<int, Rejection>(6));
    assert(fold_items(c, rule, e.skip(1).skip(1), a2) == fold_items(c, rule, e.skip(1).skip(1).skip(1), a3));
    assert(fold_items(c, rule, e.skip(1), a1) == fold_items(c, rule, e.skip(1).skip(1), a2));
    assert(fold_items(c, rule, e, init_spec(c)) == fold_items(c, rule, e.skip(1), a1));
}

/// Under every combine and every rule a seed can choose, the third worked
/// example `["7", "oops", "9"]` is rejected at `oops`: an answer that unwraps
/// the parse panics there.
pub proof fn law_bad_item_is_reported(c: Combine, rule: Rule)
    requires
        valid_rule(rule),
    ensures
        outcome(c, rule, example_inputs()[2]) == Err::<int, Rejection>(Rejection::NotANumber("oops"@)),
{
    reveal_strlit("7");
    reveal_strlit("oops");
    lemma_digit_item("7"@);
    let o = "oops"@;
    assert(unsigned_part(o) == o);
    assert(!is_digit(o[0]));
    assert(!all_digits(o));
    let e = example_inputs()[2];
    assert(e.skip(1) =~= seq!["oops"@, "9"@]);
    assert(decimal_i64(e[0]) == Some(7int));
    assert(decimal_i64(e.skip(1)[0]) is None);
    assert(passes(rule, 7));
    let a1 = step_int(c, init_spec(c), 7);
    assert(fold_items(c, rule, e.skip(1), a1) == Err::<int, Rejection>(Rejection::NotANumber("oops"@)));
    assert(fold_items(c, rule, e, init_spec(c)) == fold_items(c, rule, e.skip(1), a1));
}

} // verus!
