//! The shared vocabulary: identifiers, work units, the instance handed to a
//! model, failure classes and the rustc-error-code lookup.

use vstd::prelude::*;
use vstd::utf8::encode_utf8;
use crate::digest::{blake3_hash, blake3_hex_id, hex_bytes, le_bytes, push_bytes, push_le_bytes};

verus! {

/// A task family identifier, e.g. `"borrowck/split-mut-window"`.
#[derive(Clone, Debug, PartialEq, Eq, Hash)]
pub struct TaskId(pub String);

/// A per-instance seed.
#[derive(Clone, Copy, Debug, PartialEq, Eq, Structural)]
pub struct Seed(pub u64);

/// The blake3 identity of a work unit, rendered as `"blake3:<hex>"`.
#[derive(Clone, Debug, PartialEq, Eq, Hash)]
pub struct UnitId(pub String);

/// One `(task, seed)` at a fixed plan position.
pub struct WorkUnit {
    pub task_id: TaskId,
    pub seed: Seed,
    pub index: u32,
}

/// The bytes a work unit's identity hashes: the task id, a zero separator,
/// then the seed (8 bytes) and index (4 bytes), little-endian.
pub open spec fn unit_input(task_id: Seq<char>, seed: u64, index: u32) -> Seq<u8> {
    encode_utf8(task_id) + seq![0u8] + le_bytes(seed as nat, 8) + le_bytes(index as nat, 4)
}

/// The rendered identity of a work unit.
pub open spec fn unit_id_text(task_id: Seq<char>, seed: u64, index: u32) -> Seq<char> {
    "blake3:"@ + hex_bytes(blake3_hash(unit_input(task_id, seed, index)))
}

impl WorkUnit {
    /// Deterministic identity: the same task, seed and index always give the
    /// same id.
    pub fn unit_id(&self) -> (r: UnitId)
        ensures
            r.0@ == unit_id_text(self.task_id.0@, self.seed.0, self.index),
    {
        let mut data: Vec<u8> = Vec::new();
        push_bytes(&mut data, self.task_id.0.as_str().as_bytes());
        data.push(0u8);
        push_le_bytes(&mut data, self.seed.0, 8);
        push_le_bytes(&mut data, self.index as u64, 4);
        assert(data@ =~= unit_input(self.task_id.0@, self.seed.0, self.index));
        UnitId(blake3_hex_id(data.as_slice()))
    }
}

#[derive(Clone, Copy, Debug, PartialEq, Eq, Structural)]
pub enum TaskKind {
    /// A fixed instance with no generation; refused by scored suites.
    Frozen,
    Seeded,
    Mined,
}

/// A materialised problem. `files` are shown to the model; `hidden` (the
/// oracle) is injected into a separate grading workspace. Both list
/// `(relative path, contents)` in path order, each path once.
pub struct Instance {
    pub prompt: String,
    pub files: Vec<(String, String)>,
    pub hidden: Vec<(String, String)>,
    /// A unique low-frequency string embedded in the prompt.
    pub canary: String,
}

/// Derived from rustc error codes, or from the graded layers when the answer
/// compiled.
#[derive(Clone, Copy, Debug, PartialEq, Eq, Structural)]
pub enum FailureClass {
    Borrowck,
    Trait,
    Type,
    Lifetime,
    AsyncSend,
    Syntax,
    Resolve,
    Idiom,
    /// Compiled, failed L2 behaviour.
    Logic,
    /// Compiled, passed L2, failed L3 constraint.
    Constraint,
    Other,
    /// No failure: the unit passed.
    NoFailure,
}

pub open spec fn borrowck_set() -> Seq<Seq<char>> {
    seq!["E0499"@, "E0502"@, "E0503"@, "E0505"@, "E0506"@, "E0382"@, "E0384"@]
}

pub open spec fn lifetime_set() -> Seq<Seq<char>> {
    seq!["E0597"@, "E0515"@, "E0521"@, "E0623"@, "E0495"@, "E0700"@]
}

pub open spec fn trait_set() -> Seq<Seq<char>> {
    seq!["E0277"@, "E0119"@, "E0210"@, "E0271"@, "E0599"@]
}

pub open spec fn type_set() -> Seq<Seq<char>> {
    seq!["E0308"@, "E0053"@, "E0061"@, "E0069"@]
}

pub open spec fn resolve_set() -> Seq<Seq<char>> {
    seq!["E0425"@, "E0433"@, "E0412"@, "E0405"@]
}

pub open spec fn syntax_set() -> Seq<Seq<char>> {
    seq!["E0001"@]
}

/// Some code in `codes` is one of `set`.
pub open spec fn has_code(codes: Seq<String>, set: Seq<Seq<char>>) -> bool {
    exists|i: int, j: int| 0 <= i < codes.len() && 0 <= j < set.len() && #[trigger] codes[i]@ == #[trigger] set[j]
}

/// The class of a set of rustc error codes: the first family (borrow checker,
/// lifetime, trait, type, resolve, syntax) that any code belongs to;
/// `NoFailure` for no codes; `Other` for codes in no family.
pub open spec fn classify_spec(codes: Seq<String>) -> FailureClass {
    if has_code(codes, borrowck_set()) {
        FailureClass::Borrowck
    } else if has_code(codes, lifetime_set()) {
        FailureClass::Lifetime
    } else if has_code(codes, trait_set()) {
        FailureClass::Trait
    } else if has_code(codes, type_set()) {
        FailureClass::Type
    } else if has_code(codes, resolve_set()) {
        FailureClass::Resolve
    } else if has_code(codes, syntax_set()) {
        FailureClass::Syntax
    } else if codes.len() == 0 {
        FailureClass::NoFailure
    } else {
        FailureClass::Other
    }
}

/// The strings of `v`, by their characters.
pub open spec fn str_views(v: Seq<&str>) -> Seq<Seq<char>> {
    v.map_values(|s: &str| s@)
}

fn borrowck_codes() -> (v: Vec<&'static str>)
    ensures
        str_views(v@) == borrowck_set(),
{
    let v = vec!["E0499", "E0502", "E0503", "E0505", "E0506", "E0382", "E0384"];
    assert(str_views(v@) =~= borrowck_set());
    v
}

fn lifetime_codes() -> (v: Vec<&'static str>)
    ensures
        str_views(v@) == lifetime_set(),
{
    let v = vec!["E0597", "E0515", "E0521", "E0623", "E0495", "E0700"];
    assert(str_views(v@) =~= lifetime_set());
    v
}

fn trait_codes() -> (v: Vec<&'static str>)
    ensures
        str_views(v@) == trait_set(),
{
    let v = vec!["E0277", "E0119", "E0210", "E0271", "E0599"];
    assert(str_views(v@) =~= trait_set());
    v
}

fn type_codes() -> (v: Vec<&'static str>)
    ensures
        str_views(v@) == type_set(),
{
    let v = vec!["E0308", "E0053", "E0061", "E0069"];
    assert(str_views(v@) =~= type_set());
    v
}

fn resolve_codes() -> (v: Vec<&'static str>)
    ensures
        str_views(v@) == resolve_set(),
{
    let v = vec!["E0425", "E0433", "E0412", "E0405"];
    assert(str_views(v@) =~= resolve_set());
    v
}

fn syntax_codes() -> (v: Vec<&'static str>)
    ensures
        str_views(v@) == syntax_set(),
{
    let v = vec!["E0001"];
    assert(str_views(v@) =~= syntax_set());
    v
}

/// `a` and `b` hold the same characters.
pub fn string_eq_str(a: &String, b: &str) -> (r: bool)
    ensures
        r == (a@ == b@),
{
    let t = String::from_str(b);
    *a == t
}

/// Some code in `codes` is one of `set`.
fn has_any(codes: &[String], set: &Vec<&'static str>) -> (r: bool)
    ensures
        r == has_code(codes@, str_views(set@)),
{
    let ghost sv = str_views(set@);
    let mut i: usize = 0;
    while i < codes.len()
        invariant
            i <= codes.len(),
            sv == str_views(set@),
            forall|a: int, b: int| 0 <= a < i && 0 <= b < sv.len() ==> codes@[a]@ != sv[b],
        decreases codes.len() - i,
    {
        let mut j: usize = 0;
        while j < set.len()
            invariant
                i < codes.len(),
                j <= set.len(),
                sv == str_views(set@),
                forall|a: int, b: int| 0 <= a < i && 0 <= b < sv.len() ==> codes@[a]@ != sv[b],
                forall|b: int| 0 <= b < j ==> codes@[i as int]@ != sv[b],
            decreases set.len() - j,
        {
            if string_eq_str(&codes[i], set[j]) {
                assert(codes@[i as int]@ == sv[j as int]);
                return true;
            }
            j = j + 1;
        }
        i = i + 1;
    }
    false
}

/// Map rustc error codes to a `FailureClass`, most specific first: a borrow
/// error beats a lifetime error beats a trait error, then type, resolve,
/// syntax; no codes is `None`, unknown codes are `Other`.
pub fn classify_error_codes(codes: &[String]) -> (r: FailureClass)
    ensures
        r == classify_spec(codes@),
{
    if has_any(codes, &borrowck_codes()) {
        FailureClass::Borrowck
    } else if has_any(codes, &lifetime_codes()) {
        FailureClass::Lifetime
    } else if has_any(codes, &trait_codes()) {
        FailureClass::Trait
    } else if has_any(codes, &type_codes()) {
        FailureClass::Type
    } else if has_any(codes, &resolve_codes()) {
        FailureClass::Resolve
    } else if has_any(codes, &syntax_codes()) {
        FailureClass::Syntax
    } else if codes.len() == 0 {
        FailureClass::NoFailure
    } else {
        FailureClass::Other
    }
}

/// A code set that holds a borrow-checker code classifies as `Borrowck`,
/// whatever else it holds: the borrow family is checked first.
pub proof fn law_borrowck_dominates(codes: Seq<String>, i: int, j: int)
    requires
        0 <= i < codes.len(),
        0 <= j < borrowck_set().len(),
        codes[i]@ == borrowck_set()[j],
    ensures
        classify_spec(codes) == FailureClass::Borrowck,
{
}

/// Appending codes to a set never demotes it below a family it already
/// reaches: if `codes` is classified into one of the six code families, any
/// extension is classified into that family or an earlier one.
pub proof fn law_classes_are_ordered(codes: Seq<String>, extra: Seq<String>)
    ensures
        classify_spec(codes) == FailureClass::Borrowck ==> classify_spec(codes + extra)
            == FailureClass::Borrowck,
{
    if classify_spec(codes) == FailureClass::Borrowck {
        let (i, j) = choose|i: int, j: int| 0 <= i < codes.len() && 0 <= j < borrowck_set().len() && #[trigger] codes[i]@ == #[trigger] borrowck_set()[j];
        assert((codes + extra)[i] == codes[i]);
    }
}

/// A list holding any of the borrow-checker codes E0499, E0502, E0503,
/// E0505, E0506, E0382 (use of a moved value) or E0384 classifies as
/// `Borrowck`, whatever else it holds.
pub proof fn law_borrowck_codes(codes: Seq<String>, i: int)
    requires
        0 <= i < codes.len(),
        codes[i]@ == "E0499"@ || codes[i]@ == "E0502"@ || codes[i]@ == "E0503"@ || codes[i]@ == "E0505"@ || codes[i]@ == "E0506"@ || codes[i]@ == "E0382"@ || codes[i]@ == "E0384"@,
    ensures
        classify_spec(codes) == FailureClass::Borrowck,
{
    assert(borrowck_set()[0] == "E0499"@);
    assert(borrowck_set()[1] == "E0502"@);
    assert(borrowck_set()[2] == "E0503"@);
    assert(borrowck_set()[3] == "E0505"@);
    assert(borrowck_set()[4] == "E0506"@);
    assert(borrowck_set()[5] == "E0382"@);
    assert(borrowck_set()[6] == "E0384"@);
}

/// A non-empty list made only of the lifetime codes E0597, E0515, E0521, E0623, E0495, E0700
/// classifies as `Lifetime`.
pub proof fn law_lifetime_codes(codes: Seq<String>)
    requires
        codes.len() > 0,
        forall|k: int| 0 <= k < codes.len() ==> #[trigger] codes[k]@ == "E0597"@ || #[trigger] codes[k]@ == "E0515"@ || #[trigger] codes[k]@ == "E0521"@ || #[trigger] codes[k]@ == "E0623"@ || #[trigger] codes[k]@ == "E0495"@ || #[trigger] codes[k]@ == "E0700"@,
    ensures
        classify_spec(codes) == FailureClass::Lifetime,
{
    reveal_strlit("E0499");
    reveal_strlit("E0502");
    reveal_strlit("E0503");
    reveal_strlit("E0505");
    reveal_strlit("E0506");
    reveal_strlit("E0382");
    reveal_strlit("E0384");
    reveal_strlit("E0597");
    reveal_strlit("E0515");
    reveal_strlit("E0521");
    reveal_strlit("E0623");
    reveal_strlit("E0495");
    reveal_strlit("E0700");
    reveal_strlit("E0277");
    reveal_strlit("E0119");
    reveal_strlit("E0210");
    reveal_strlit("E0271");
    reveal_strlit("E0599");
    reveal_strlit("E0308");
    reveal_strlit("E0053");
    reveal_strlit("E0061");
    reveal_strlit("E0069");
    reveal_strlit("E0425");
    reveal_strlit("E0433");
    reveal_strlit("E0412");
    reveal_strlit("E0405");
    reveal_strlit("E0001");
    assert(lifetime_set()[0] == "E0597"@);
    assert(lifetime_set()[1] == "E0515"@);
    assert(lifetime_set()[2] == "E0521"@);
    assert(lifetime_set()[3] == "E0623"@);
    assert(lifetime_set()[4] == "E0495"@);
    assert(lifetime_set()[5] == "E0700"@);
    assert(codes[0]@ == "E0597"@ || codes[0]@ == "E0515"@ || codes[0]@ == "E0521"@ || codes[0]@ == "E0623"@ || codes[0]@ == "E0495"@ || codes[0]@ == "E0700"@);
    assert(!has_code(codes, borrowck_set())) by {
        assert forall|i: int, j: int| 0 <= i < codes.len() && 0 <= j < borrowck_set().len() implies #[trigger] codes[i]@ != #[trigger] borrowck_set()[j] by {
            if codes[i]@ == borrowck_set()[j] {
                assert(codes[i]@[1] == borrowck_set()[j][1] && codes[i]@[2] == borrowck_set()[j][2]
                    && codes[i]@[3] == borrowck_set()[j][3] && codes[i]@[4] == borrowck_set()[j][4]);
            }
            assert(j == 0 || j == 1 || j == 2 || j == 3 || j == 4 || j == 5 || j == 6);
            assert(codes[i]@ == "E0597"@ || codes[i]@ == "E0515"@ || codes[i]@ == "E0521"@ || codes[i]@ == "E0623"@ || codes[i]@ == "E0495"@ || codes[i]@ == "E0700"@);
            assert(borrowck_set()[0] == "E0499"@);
            assert(borrowck_set()[1] == "E0502"@);
            assert(borrowck_set()[2] == "E0503"@);
            assert(borrowck_set()[3] == "E0505"@);
            assert(borrowck_set()[4] == "E0506"@);
            assert(borrowck_set()[5] == "E0382"@);
            assert(borrowck_set()[6] == "E0384"@);
        }
    }
}

/// A non-empty list made only of the trait codes E0277, E0119, E0210, E0271, E0599
/// classifies as `Trait`.
pub proof fn law_trait_codes(codes: Seq<String>)
    requires
        codes.len() > 0,
        forall|k: int| 0 <= k < codes.len() ==> #[trigger] codes[k]@ == "E0277"@ || #[trigger] codes[k]@ == "E0119"@ || #[trigger] codes[k]@ == "E0210"@ || #[trigger] codes[k]@ == "E0271"@ || #[trigger] codes[k]@ == "E0599"@,
    ensures
        classify_spec(codes) == FailureClass::Trait,
{
    reveal_strlit("E0499");
    reveal_strlit("E0502");
    reveal_strlit("E0503");
    reveal_strlit("E0505");
    reveal_strlit("E0506");
    reveal_strlit("E0382");
    reveal_strlit("E0384");
    reveal_strlit("E0597");
    reveal_strlit("E0515");
    reveal_strlit("E0521");
    reveal_strlit("E0623");
    reveal_strlit("E0495");
    reveal_strlit("E0700");
    reveal_strlit("E0277");
    reveal_strlit("E0119");
    reveal_strlit("E0210");
    reveal_strlit("E0271");
    reveal_strlit("E0599");
    reveal_strlit("E0308");
    reveal_strlit("E0053");
    reveal_strlit("E0061");
    reveal_strlit("E0069");
    reveal_strlit("E0425");
    reveal_strlit("E0433");
    reveal_strlit("E0412");
    reveal_strlit("E0405");
    reveal_strlit("E0001");
    assert(trait_set()[0] == "E0277"@);
    assert(trait_set()[1] == "E0119"@);
    assert(trait_set()[2] == "E0210"@);
    assert(trait_set()[3] == "E0271"@);
    assert(trait_set()[4] == "E0599"@);
    assert(codes[0]@ == "E0277"@ || codes[0]@ == "E0119"@ || codes[0]@ == "E0210"@ || codes[0]@ == "E0271"@ || codes[0]@ == "E0599"@);
    assert(!has_code(codes, borrowck_set())) by {
        assert forall|i: int, j: int| 0 <= i < codes.len() && 0 <= j < borrowck_set().len() implies #[trigger] codes[i]@ != #[trigger] borrowck_set()[j] by {
            if codes[i]@ == borrowck_set()[j] {
                assert(codes[i]@[1] == borrowck_set()[j][1] && codes[i]@[2] == borrowck_set()[j][2]
                    && codes[i]@[3] == borrowck_set()[j][3] && codes[i]@[4] == borrowck_set()[j][4]);
            }
            assert(j == 0 || j == 1 || j == 2 || j == 3 || j == 4 || j == 5 || j == 6);
            assert(codes[i]@ == "E0277"@ || codes[i]@ == "E0119"@ || codes[i]@ == "E0210"@ || codes[i]@ == "E0271"@ || codes[i]@ == "E0599"@);
            assert(borrowck_set()[0] == "E0499"@);
            assert(borrowck_set()[1] == "E0502"@);
            assert(borrowck_set()[2] == "E0503"@);
            assert(borrowck_set()[3] == "E0505"@);
            assert(borrowck_set()[4] == "E0506"@);
            assert(borrowck_set()[5] == "E0382"@);
            assert(borrowck_set()[6] == "E0384"@);
        }
    }
    assert(!has_code(codes, lifetime_set())) by {
        assert forall|i: int, j: int| 0 <= i < codes.len() && 0 <= j < lifetime_set().len() implies #[trigger] codes[i]@ != #[trigger] lifetime_set()[j] by {
            if codes[i]@ == lifetime_set()[j] {
                assert(codes[i]@[1] == lifetime_set()[j][1] && codes[i]@[2] == lifetime_set()[j][2]
                    && codes[i]@[3] == lifetime_set()[j][3] && codes[i]@[4] == lifetime_set()[j][4]);
            }
            assert(j == 0 || j == 1 || j == 2 || j == 3 || j == 4 || j == 5);
            assert(codes[i]@ == "E0277"@ || codes[i]@ == "E0119"@ || codes[i]@ == "E0210"@ || codes[i]@ == "E0271"@ || codes[i]@ == "E0599"@);
            assert(lifetime_set()[0] == "E0597"@);
            assert(lifetime_set()[1] == "E0515"@);
            assert(lifetime_set()[2] == "E0521"@);
            assert(lifetime_set()[3] == "E0623"@);
            assert(lifetime_set()[4] == "E0495"@);
            assert(lifetime_set()[5] == "E0700"@);
        }
    }
}

/// A non-empty list made only of the type codes E0308, E0053, E0061, E0069
/// classifies as `Type`.
pub proof fn law_type_codes(codes: Seq<String>)
    requires
        codes.len() > 0,
        forall|k: int| 0 <= k < codes.len() ==> #[trigger] codes[k]@ == "E0308"@ || #[trigger] codes[k]@ == "E0053"@ || #[trigger] codes[k]@ == "E0061"@ || #[trigger] codes[k]@ == "E0069"@,
    ensures
        classify_spec(codes) == FailureClass::Type,
{
    reveal_strlit("E0499");
    reveal_strlit("E0502");
    reveal_strlit("E0503");
    reveal_strlit("E0505");
    reveal_strlit("E0506");
    reveal_strlit("E0382");
    reveal_strlit("E0384");
    reveal_strlit("E0597");
    reveal_strlit("E0515");
    reveal_strlit("E0521");
    reveal_strlit("E0623");
    reveal_strlit("E0495");
    reveal_strlit("E0700");
    reveal_strlit("E0277");
    reveal_strlit("E0119");
    reveal_strlit("E0210");
    reveal_strlit("E0271");
    reveal_strlit("E0599");
    reveal_strlit("E0308");
    reveal_strlit("E0053");
    reveal_strlit("E0061");
    reveal_strlit("E0069");
    reveal_strlit("E0425");
    reveal_strlit("E0433");
    reveal_strlit("E0412");
    reveal_strlit("E0405");
    reveal_strlit("E0001");
    assert(type_set()[0] == "E0308"@);
    assert(type_set()[1] == "E0053"@);
    assert(type_set()[2] == "E0061"@);
    assert(type_set()[3] == "E0069"@);
    assert(codes[0]@ == "E0308"@ || codes[0]@ == "E0053"@ || codes[0]@ == "E0061"@ || codes[0]@ == "E0069"@);
    assert(!has_code(codes, borrowck_set())) by {
        assert forall|i: int, j: int| 0 <= i < codes.len() && 0 <= j < borrowck_set().len() implies #[trigger] codes[i]@ != #[trigger] borrowck_set()[j] by {
            if codes[i]@ == borrowck_set()[j] {
                assert(codes[i]@[1] == borrowck_set()[j][1] && codes[i]@[2] == borrowck_set()[j][2]
                    && codes[i]@[3] == borrowck_set()[j][3] && codes[i]@[4] == borrowck_set()[j][4]);
            }
            assert(j == 0 || j == 1 || j == 2 || j == 3 || j == 4 || j == 5 || j == 6);
            assert(codes[i]@ == "E0308"@ || codes[i]@ == "E0053"@ || codes[i]@ == "E0061"@ || codes[i]@ == "E0069"@);
            assert(borrowck_set()[0] == "E0499"@);
            assert(borrowck_set()[1] == "E0502"@);
            assert(borrowck_set()[2] == "E0503"@);
            assert(borrowck_set()[3] == "E0505"@);
            assert(borrowck_set()[4] == "E0506"@);
            assert(borrowck_set()[5] == "E0382"@);
            assert(borrowck_set()[6] == "E0384"@);
        }
    }
    assert(!has_code(codes, lifetime_set())) by {
        assert forall|i: int, j: int| 0 <= i < codes.len() && 0 <= j < lifetime_set().len() implies #[trigger] codes[i]@ != #[trigger] lifetime_set()[j] by {
            if codes[i]@ == lifetime_set()[j] {
                assert(codes[i]@[1] == lifetime_set()[j][1] && codes[i]@[2] == lifetime_set()[j][2]
                    && codes[i]@[3] == lifetime_set()[j][3] && codes[i]@[4] == lifetime_set()[j][4]);
            }
            assert(j == 0 || j == 1 || j == 2 || j == 3 || j == 4 || j == 5);
            assert(codes[i]@ == "E0308"@ || codes[i]@ == "E0053"@ || codes[i]@ == "E0061"@ || codes[i]@ == "E0069"@);
            assert(lifetime_set()[0] == "E0597"@);
            assert(lifetime_set()[1] == "E0515"@);
            assert(lifetime_set()[2] == "E0521"@);
            assert(lifetime_set()[3] == "E0623"@);
            assert(lifetime_set()[4] == "E0495"@);
            assert(lifetime_set()[5] == "E0700"@);
        }
    }
    assert(!has_code(codes, trait_set())) by {
        assert forall|i: int, j: int| 0 <= i < codes.len() && 0 <= j < trait_set().len() implies #[trigger] codes[i]@ != #[trigger] trait_set()[j] by {
            if codes[i]@ == trait_set()[j] {
                assert(codes[i]@[1] == trait_set()[j][1] && codes[i]@[2] == trait_set()[j][2]
                    && codes[i]@[3] == trait_set()[j][3] && codes[i]@[4] == trait_set()[j][4]);
            }
            assert(j == 0 || j == 1 || j == 2 || j == 3 || j == 4);
            assert(codes[i]@ == "E0308"@ || codes[i]@ == "E0053"@ || codes[i]@ == "E0061"@ || codes[i]@ == "E0069"@);
            assert(trait_set()[0] == "E0277"@);
            assert(trait_set()[1] == "E0119"@);
            assert(trait_set()[2] == "E0210"@);
            assert(trait_set()[3] == "E0271"@);
            assert(trait_set()[4] == "E0599"@);
        }
    }
}

/// A non-empty list made only of the resolve codes E0425, E0433, E0412, E0405
/// classifies as `Resolve`.
pub proof fn law_resolve_codes(codes: Seq<String>)
    requires
        codes.len() > 0,
        forall|k: int| 0 <= k < codes.len() ==> #[trigger] codes[k]@ == "E0425"@ || #[trigger] codes[k]@ == "E0433"@ || #[trigger] codes[k]@ == "E0412"@ || #[trigger] codes[k]@ == "E0405"@,
    ensures
        classify_spec(codes) == FailureClass::Resolve,
{
    reveal_strlit("E0499");
    reveal_strlit("E0502");
    reveal_strlit("E0503");
    reveal_strlit("E0505");
    reveal_strlit("E0506");
    reveal_strlit("E0382");
    reveal_strlit("E0384");
    reveal_strlit("E0597");
    reveal_strlit("E0515");
    reveal_strlit("E0521");
    reveal_strlit("E0623");
    reveal_strlit("E0495");
    reveal_strlit("E0700");
    reveal_strlit("E0277");
    reveal_strlit("E0119");
    reveal_strlit("E0210");
    reveal_strlit("E0271");
    reveal_strlit("E0599");
    reveal_strlit("E0308");
    reveal_strlit("E0053");
    reveal_strlit("E0061");
    reveal_strlit("E0069");
    reveal_strlit("E0425");
    reveal_strlit("E0433");
    reveal_strlit("E0412");
    reveal_strlit("E0405");
    reveal_strlit("E0001");
    assert(resolve_set()[0] == "E0425"@);
    assert(resolve_set()[1] == "E0433"@);
    assert(resolve_set()[2] == "E0412"@);
    assert(resolve_set()[3] == "E0405"@);
    assert(codes[0]@ == "E0425"@ || codes[0]@ == "E0433"@ || codes[0]@ == "E0412"@ || codes[0]@ == "E0405"@);
    assert(!has_code(codes, borrowck_set())) by {
        assert forall|i: int, j: int| 0 <= i < codes.len() && 0 <= j < borrowck_set().len() implies #[trigger] codes[i]@ != #[trigger] borrowck_set()[j] by {
            if codes[i]@ == borrowck_set()[j] {
                assert(codes[i]@[1] == borrowck_set()[j][1] && codes[i]@[2] == borrowck_set()[j][2]
                    && codes[i]@[3] == borrowck_set()[j][3] && codes[i]@[4] == borrowck_set()[j][4]);
            }
            assert(j == 0 || j == 1 || j == 2 || j == 3 || j == 4 || j == 5 || j == 6);
            assert(codes[i]@ == "E0425"@ || codes[i]@ == "E0433"@ || codes[i]@ == "E0412"@ || codes[i]@ == "E0405"@);
            assert(borrowck_set()[0] == "E0499"@);
            assert(borrowck_set()[1] == "E0502"@);
            assert(borrowck_set()[2] == "E0503"@);
            assert(borrowck_set()[3] == "E0505"@);
            assert(borrowck_set()[4] == "E0506"@);
            assert(borrowck_set()[5] == "E0382"@);
            assert(borrowck_set()[6] == "E0384"@);
        }
    }
    assert(!has_code(codes, lifetime_set())) by {
        assert forall|i: int, j: int| 0 <= i < codes.len() && 0 <= j < lifetime_set().len() implies #[trigger] codes[i]@ != #[trigger] lifetime_set()[j] by {
            if codes[i]@ == lifetime_set()[j] {
                assert(codes[i]@[1] == lifetime_set()[j][1] && codes[i]@[2] == lifetime_set()[j][2]
                    && codes[i]@[3] == lifetime_set()[j][3] && codes[i]@[4] == lifetime_set()[j][4]);
            }
            assert(j == 0 || j == 1 || j == 2 || j == 3 || j == 4 || j == 5);
            assert(codes[i]@ == "E0425"@ || codes[i]@ == "E0433"@ || codes[i]@ == "E0412"@ || codes[i]@ == "E0405"@);
            assert(lifetime_set()[0] == "E0597"@);
            assert(lifetime_set()[1] == "E0515"@);
            assert(lifetime_set()[2] == "E0521"@);
            assert(lifetime_set()[3] == "E0623"@);
            assert(lifetime_set()[4] == "E0495"@);
            assert(lifetime_set()[5] == "E0700"@);
        }
    }
    assert(!has_code(codes, trait_set())) by {
        assert forall|i: int, j: int| 0 <= i < codes.len() && 0 <= j < trait_set().len() implies #[trigger] codes[i]@ != #[trigger] trait_set()[j] by {
            if codes[i]@ == trait_set()[j] {
                assert(codes[i]@[1] == trait_set()[j][1] && codes[i]@[2] == trait_set()[j][2]
                    && codes[i]@[3] == trait_set()[j][3] && codes[i]@[4] == trait_set()[j][4]);
            }
            assert(j == 0 || j == 1 || j == 2 || j == 3 || j == 4);
            assert(codes[i]@ == "E0425"@ || codes[i]@ == "E0433"@ || codes[i]@ == "E0412"@ || codes[i]@ == "E0405"@);
            assert(trait_set()[0] == "E0277"@);
            assert(trait_set()[1] == "E0119"@);
            assert(trait_set()[2] == "E0210"@);
            assert(trait_set()[3] == "E0271"@);
            assert(trait_set()[4] == "E0599"@);
        }
    }
    assert(!has_code(codes, type_set())) by {
        assert forall|i: int, j: int| 0 <= i < codes.len() && 0 <= j < type_set().len() implies #[trigger] codes[i]@ != #[trigger] type_set()[j] by {
            if codes[i]@ == type_set()[j] {
                assert(codes[i]@[1] == type_set()[j][1] && codes[i]@[2] == type_set()[j][2]
                    && codes[i]@[3] == type_set()[j][3] && codes[i]@[4] == type_set()[j][4]);
            }
            assert(j == 0 || j == 1 || j == 2 || j == 3);
            assert(codes[i]@ == "E0425"@ || codes[i]@ == "E0433"@ || codes[i]@ == "E0412"@ || codes[i]@ == "E0405"@);
            assert(type_set()[0] == "E0308"@);
            assert(type_set()[1] == "E0053"@);
            assert(type_set()[2] == "E0061"@);
            assert(type_set()[3] == "E0069"@);
        }
    }
}

/// A non-empty list made only of the syntax codes E0001
/// classifies as `Syntax`.
pub proof fn law_syntax_codes(codes: Seq<String>)
    requires
        codes.len() > 0,
        forall|k: int| 0 <= k < codes.len() ==> #[trigger] codes[k]@ == "E0001"@,
    ensures
        classify_spec(codes) == FailureClass::Syntax,
{
    reveal_strlit("E0499");
    reveal_strlit("E0502");
    reveal_strlit("E0503");
    reveal_strlit("E0505");
    reveal_strlit("E0506");
    reveal_strlit("E0382");
    reveal_strlit("E0384");
    reveal_strlit("E0597");
    reveal_strlit("E0515");
    reveal_strlit("E0521");
    reveal_strlit("E0623");
    reveal_strlit("E0495");
    reveal_strlit("E0700");
    reveal_strlit("E0277");
    reveal_strlit("E0119");
    reveal_strlit("E0210");
    reveal_strlit("E0271");
    reveal_strlit("E0599");
    reveal_strlit("E0308");
    reveal_strlit("E0053");
    reveal_strlit("E0061");
    reveal_strlit("E0069");
    reveal_strlit("E0425");
    reveal_strlit("E0433");
    reveal_strlit("E0412");
    reveal_strlit("E0405");
    reveal_strlit("E0001");
    assert(syntax_set()[0] == "E0001"@);
    assert(codes[0]@ == "E0001"@);
    assert(!has_code(codes, borrowck_set())) by {
        assert forall|i: int, j: int| 0 <= i < codes.len() && 0 <= j < borrowck_set().len() implies #[trigger] codes[i]@ != #[trigger] borrowck_set()[j] by {
            if codes[i]@ == borrowck_set()[j] {
                assert(codes[i]@[1] == borrowck_set()[j][1] && codes[i]@[2] == borrowck_set()[j][2]
                    && codes[i]@[3] == borrowck_set()[j][3] && codes[i]@[4] == borrowck_set()[j][4]);
            }
            assert(j == 0 || j == 1 || j == 2 || j == 3 || j == 4 || j == 5 || j == 6);
            assert(codes[i]@ == "E0001"@);
            assert(borrowck_set()[0] == "E0499"@);
            assert(borrowck_set()[1] == "E0502"@);
            assert(borrowck_set()[2] == "E0503"@);
            assert(borrowck_set()[3] == "E0505"@);
            assert(borrowck_set()[4] == "E0506"@);
            assert(borrowck_set()[5] == "E0382"@);
            assert(borrowck_set()[6] == "E0384"@);
        }
    }
    assert(!has_code(codes, lifetime_set())) by {
        assert forall|i: int, j: int| 0 <= i < codes.len() && 0 <= j < lifetime_set().len() implies #[trigger] codes[i]@ != #[trigger] lifetime_set()[j] by {
            if codes[i]@ == lifetime_set()[j] {
                assert(codes[i]@[1] == lifetime_set()[j][1] && codes[i]@[2] == lifetime_set()[j][2]
                    && codes[i]@[3] == lifetime_set()[j][3] && codes[i]@[4] == lifetime_set()[j][4]);
            }
            assert(j == 0 || j == 1 || j == 2 || j == 3 || j == 4 || j == 5);
            assert(codes[i]@ == "E0001"@);
            assert(lifetime_set()[0] == "E0597"@);
            assert(lifetime_set()[1] == "E0515"@);
            assert(lifetime_set()[2] == "E0521"@);
            assert(lifetime_set()[3] == "E0623"@);
            assert(lifetime_set()[4] == "E0495"@);
            assert(lifetime_set()[5] == "E0700"@);
        }
    }
    assert(!has_code(codes, trait_set())) by {
        assert forall|i: int, j: int| 0 <= i < codes.len() && 0 <= j < trait_set().len() implies #[trigger] codes[i]@ != #[trigger] trait_set()[j] by {
            if codes[i]@ == trait_set()[j] {
                assert(codes[i]@[1] == trait_set()[j][1] && codes[i]@[2] == trait_set()[j][2]
                    && codes[i]@[3] == trait_set()[j][3] && codes[i]@[4] == trait_set()[j][4]);
            }
            assert(j == 0 || j == 1 || j == 2 || j == 3 || j == 4);
            assert(codes[i]@ == "E0001"@);
            assert(trait_set()[0] == "E0277"@);
            assert(trait_set()[1] == "E0119"@);
            assert(trait_set()[2] == "E0210"@);
            assert(trait_set()[3] == "E0271"@);
            assert(trait_set()[4] == "E0599"@);
        }
    }
    assert(!has_code(codes, type_set())) by {
        assert forall|i: int, j: int| 0 <= i < codes.len() && 0 <= j < type_set().len() implies #[trigger] codes[i]@ != #[trigger] type_set()[j] by {
            if codes[i]@ == type_set()[j] {
                assert(codes[i]@[1] == type_set()[j][1] && codes[i]@[2] == type_set()[j][2]
                    && codes[i]@[3] == type_set()[j][3] && codes[i]@[4] == type_set()[j][4]);
            }
            assert(j == 0 || j == 1 || j == 2 || j == 3);
            assert(codes[i]@ == "E0001"@);
            assert(type_set()[0] == "E0308"@);
            assert(type_set()[1] == "E0053"@);
            assert(type_set()[2] == "E0061"@);
            assert(type_set()[3] == "E0069"@);
        }
    }
    assert(!has_code(codes, resolve_set())) by {
        assert forall|i: int, j: int| 0 <= i < codes.len() && 0 <= j < resolve_set().len() implies #[trigger] codes[i]@ != #[trigger] resolve_set()[j] by {
            if codes[i]@ == resolve_set()[j] {
                assert(codes[i]@[1] == resolve_set()[j][1] && codes[i]@[2] == resolve_set()[j][2]
                    && codes[i]@[3] == resolve_set()[j][3] && codes[i]@[4] == resolve_set()[j][4]);
            }
            assert(j == 0 || j == 1 || j == 2 || j == 3);
            assert(codes[i]@ == "E0001"@);
            assert(resolve_set()[0] == "E0425"@);
            assert(resolve_set()[1] == "E0433"@);
            assert(resolve_set()[2] == "E0412"@);
            assert(resolve_set()[3] == "E0405"@);
        }
    }
}

/// A non-empty list holding none of the classified codes classifies as
/// `Other`; the empty list as `NoFailure`.
pub proof fn law_unknown_codes_are_other(codes: Seq<String>)
    requires
        forall|k: int| 0 <= k < codes.len() ==> !(#[trigger] codes[k]@ == "E0499"@ || #[trigger] codes[k]@ == "E0502"@ || #[trigger] codes[k]@ == "E0503"@ || #[trigger] codes[k]@ == "E0505"@ || #[trigger] codes[k]@ == "E0506"@ || #[trigger] codes[k]@ == "E0382"@ || #[trigger] codes[k]@ == "E0384"@ || #[trigger] codes[k]@ == "E0597"@ || #[trigger] codes[k]@ == "E0515"@ || #[trigger] codes[k]@ == "E0521"@ || #[trigger] codes[k]@ == "E0623"@ || #[trigger] codes[k]@ == "E0495"@ || #[trigger] codes[k]@ == "E0700"@ || #[trigger] codes[k]@ == "E0277"@ || #[trigger] codes[k]@ == "E0119"@ || #[trigger] codes[k]@ == "E0210"@ || #[trigger] codes[k]@ == "E0271"@ || #[trigger] codes[k]@ == "E0599"@ || #[trigger] codes[k]@ == "E0308"@ || #[trigger] codes[k]@ == "E0053"@ || #[trigger] codes[k]@ == "E0061"@ || #[trigger] codes[k]@ == "E0069"@ || #[trigger] codes[k]@ == "E0425"@ || #[trigger] codes[k]@ == "E0433"@ || #[trigger] codes[k]@ == "E0412"@ || #[trigger] codes[k]@ == "E0405"@ || #[trigger] codes[k]@ == "E0001"@),
    ensures
        codes.len() > 0 ==> classify_spec(codes) == FailureClass::Other,
        codes.len() == 0 ==> classify_spec(codes) == FailureClass::NoFailure,
{
    assert(!has_code(codes, borrowck_set())) by {
        assert forall|i: int, j: int| 0 <= i < codes.len() && 0 <= j < borrowck_set().len() implies #[trigger] codes[i]@ != #[trigger] borrowck_set()[j] by {
            if codes[i]@ == borrowck_set()[j] {
                assert(codes[i]@[1] == borrowck_set()[j][1] && codes[i]@[2] == borrowck_set()[j][2]
                    && codes[i]@[3] == borrowck_set()[j][3] && codes[i]@[4] == borrowck_set()[j][4]);
            }
            assert(j == 0 || j == 1 || j == 2 || j == 3 || j == 4 || j == 5 || j == 6);
            assert(!(codes[i]@ == "E0499"@ || codes[i]@ == "E0502"@ || codes[i]@ == "E0503"@ || codes[i]@ == "E0505"@ || codes[i]@ == "E0506"@ || codes[i]@ == "E0382"@ || codes[i]@ == "E0384"@ || codes[i]@ == "E0597"@ || codes[i]@ == "E0515"@ || codes[i]@ == "E0521"@ || codes[i]@ == "E0623"@ || codes[i]@ == "E0495"@ || codes[i]@ == "E0700"@ || codes[i]@ == "E0277"@ || codes[i]@ == "E0119"@ || codes[i]@ == "E0210"@ || codes[i]@ == "E0271"@ || codes[i]@ == "E0599"@ || codes[i]@ == "E0308"@ || codes[i]@ == "E0053"@ || codes[i]@ == "E0061"@ || codes[i]@ == "E0069"@ || codes[i]@ == "E0425"@ || codes[i]@ == "E0433"@ || codes[i]@ == "E0412"@ || codes[i]@ == "E0405"@ || codes[i]@ == "E0001"@));
            assert(borrowck_set()[0] == "E0499"@);
            assert(borrowck_set()[1] == "E0502"@);
            assert(borrowck_set()[2] == "E0503"@);
            assert(borrowck_set()[3] == "E0505"@);
            assert(borrowck_set()[4] == "E0506"@);
            assert(borrowck_set()[5] == "E0382"@);
            assert(borrowck_set()[6] == "E0384"@);
        }
    }
    assert(!has_code(codes, lifetime_set())) by {
        assert forall|i: int, j: int| 0 <= i < codes.len() && 0 <= j < lifetime_set().len() implies #[trigger] codes[i]@ != #[trigger] lifetime_set()[j] by {
            if codes[i]@ == lifetime_set()[j] {
                assert(codes[i]@[1] == lifetime_set()[j][1] && codes[i]@[2] == lifetime_set()[j][2]
                    && codes[i]@[3] == lifetime_set()[j][3] && codes[i]@[4] == lifetime_set()[j][4]);
            }
            assert(j == 0 || j == 1 || j == 2 || j == 3 || j == 4 || j == 5);
            assert(!(codes[i]@ == "E0499"@ || codes[i]@ == "E0502"@ || codes[i]@ == "E0503"@ || codes[i]@ == "E0505"@ || codes[i]@ == "E0506"@ || codes[i]@ == "E0382"@ || codes[i]@ == "E0384"@ || codes[i]@ == "E0597"@ || codes[i]@ == "E0515"@ || codes[i]@ == "E0521"@ || codes[i]@ == "E0623"@ || codes[i]@ == "E0495"@ || codes[i]@ == "E0700"@ || codes[i]@ == "E0277"@ || codes[i]@ == "E0119"@ || codes[i]@ == "E0210"@ || codes[i]@ == "E0271"@ || codes[i]@ == "E0599"@ || codes[i]@ == "E0308"@ || codes[i]@ == "E0053"@ || codes[i]@ == "E0061"@ || codes[i]@ == "E0069"@ || codes[i]@ == "E0425"@ || codes[i]@ == "E0433"@ || codes[i]@ == "E0412"@ || codes[i]@ == "E0405"@ || codes[i]@ == "E0001"@));
            assert(lifetime_set()[0] == "E0597"@);
            assert(lifetime_set()[1] == "E0515"@);
            assert(lifetime_set()[2] == "E0521"@);
            assert(lifetime_set()[3] == "E0623"@);
            assert(lifetime_set()[4] == "E0495"@);
            assert(lifetime_set()[5] == "E0700"@);
        }
    }
    assert(!has_code(codes, trait_set())) by {
        assert forall|i: int, j: int| 0 <= i < codes.len() && 0 <= j < trait_set().len() implies #[trigger] codes[i]@ != #[trigger] trait_set()[j] by {
            if codes[i]@ == trait_set()[j] {
                assert(codes[i]@[1] == trait_set()[j][1] && codes[i]@[2] == trait_set()[j][2]
                    && codes[i]@[3] == trait_set()[j][3] && codes[i]@[4] == trait_set()[j][4]);
            }
            assert(j == 0 || j == 1 || j == 2 || j == 3 || j == 4);
            assert(!(codes[i]@ == "E0499"@ || codes[i]@ == "E0502"@ || codes[i]@ == "E0503"@ || codes[i]@ == "E0505"@ || codes[i]@ == "E0506"@ || codes[i]@ == "E0382"@ || codes[i]@ == "E0384"@ || codes[i]@ == "E0597"@ || codes[i]@ == "E0515"@ || codes[i]@ == "E0521"@ || codes[i]@ == "E0623"@ || codes[i]@ == "E0495"@ || codes[i]@ == "E0700"@ || codes[i]@ == "E0277"@ || codes[i]@ == "E0119"@ || codes[i]@ == "E0210"@ || codes[i]@ == "E0271"@ || codes[i]@ == "E0599"@ || codes[i]@ == "E0308"@ || codes[i]@ == "E0053"@ || codes[i]@ == "E0061"@ || codes[i]@ == "E0069"@ || codes[i]@ == "E0425"@ || codes[i]@ == "E0433"@ || codes[i]@ == "E0412"@ || codes[i]@ == "E0405"@ || codes[i]@ == "E0001"@));
            assert(trait_set()[0] == "E0277"@);
            assert(trait_set()[1] == "E0119"@);
            assert(trait_set()[2] == "E0210"@);
            assert(trait_set()[3] == "E0271"@);
            assert(trait_set()[4] == "E0599"@);
        }
    }
    assert(!has_code(codes, type_set())) by {
        assert forall|i: int, j: int| 0 <= i < codes.len() && 0 <= j < type_set().len() implies #[trigger] codes[i]@ != #[trigger] type_set()[j] by {
            if codes[i]@ == type_set()[j] {
                assert(codes[i]@[1] == type_set()[j][1] && codes[i]@[2] == type_set()[j][2]
                    && codes[i]@[3] == type_set()[j][3] && codes[i]@[4] == type_set()[j][4]);
            }
            assert(j == 0 || j == 1 || j == 2 || j == 3);
            assert(!(codes[i]@ == "E0499"@ || codes[i]@ == "E0502"@ || codes[i]@ == "E0503"@ || codes[i]@ == "E0505"@ || codes[i]@ == "E0506"@ || codes[i]@ == "E0382"@ || codes[i]@ == "E0384"@ || codes[i]@ == "E0597"@ || codes[i]@ == "E0515"@ || codes[i]@ == "E0521"@ || codes[i]@ == "E0623"@ || codes[i]@ == "E0495"@ || codes[i]@ == "E0700"@ || codes[i]@ == "E0277"@ || codes[i]@ == "E0119"@ || codes[i]@ == "E0210"@ || codes[i]@ == "E0271"@ || codes[i]@ == "E0599"@ || codes[i]@ == "E0308"@ || codes[i]@ == "E0053"@ || codes[i]@ == "E0061"@ || codes[i]@ == "E0069"@ || codes[i]@ == "E0425"@ || codes[i]@ == "E0433"@ || codes[i]@ == "E0412"@ || codes[i]@ == "E0405"@ || codes[i]@ == "E0001"@));
            assert(type_set()[0] == "E0308"@);
            assert(type_set()[1] == "E0053"@);
            assert(type_set()[2] == "E0061"@);
            assert(type_set()[3] == "E0069"@);
        }
    }
    assert(!has_code(codes, resolve_set())) by {
        assert forall|i: int, j: int| 0 <= i < codes.len() && 0 <= j < resolve_set().len() implies #[trigger] codes[i]@ != #[trigger] resolve_set()[j] by {
            if codes[i]@ == resolve_set()[j] {
                assert(codes[i]@[1] == resolve_set()[j][1] && codes[i]@[2] == resolve_set()[j][2]
                    && codes[i]@[3] == resolve_set()[j][3] && codes[i]@[4] == resolve_set()[j][4]);
            }
            assert(j == 0 || j == 1 || j == 2 || j == 3);
            assert(!(codes[i]@ == "E0499"@ || codes[i]@ == "E0502"@ || codes[i]@ == "E0503"@ || codes[i]@ == "E0505"@ || codes[i]@ == "E0506"@ || codes[i]@ == "E0382"@ || codes[i]@ == "E0384"@ || codes[i]@ == "E0597"@ || codes[i]@ == "E0515"@ || codes[i]@ == "E0521"@ || codes[i]@ == "E0623"@ || codes[i]@ == "E0495"@ || codes[i]@ == "E0700"@ || codes[i]@ == "E0277"@ || codes[i]@ == "E0119"@ || codes[i]@ == "E0210"@ || codes[i]@ == "E0271"@ || codes[i]@ == "E0599"@ || codes[i]@ == "E0308"@ || codes[i]@ == "E0053"@ || codes[i]@ == "E0061"@ || codes[i]@ == "E0069"@ || codes[i]@ == "E0425"@ || codes[i]@ == "E0433"@ || codes[i]@ == "E0412"@ || codes[i]@ == "E0405"@ || codes[i]@ == "E0001"@));
            assert(resolve_set()[0] == "E0425"@);
            assert(resolve_set()[1] == "E0433"@);
            assert(resolve_set()[2] == "E0412"@);
            assert(resolve_set()[3] == "E0405"@);
        }
    }
    assert(!has_code(codes, syntax_set())) by {
        assert forall|i: int, j: int| 0 <= i < codes.len() && 0 <= j < syntax_set().len() implies #[trigger] codes[i]@ != #[trigger] syntax_set()[j] by {
            if codes[i]@ == syntax_set()[j] {
                assert(codes[i]@[1] == syntax_set()[j][1] && codes[i]@[2] == syntax_set()[j][2]
                    && codes[i]@[3] == syntax_set()[j][3] && codes[i]@[4] == syntax_set()[j][4]);
            }
            assert(j == 0);
            assert(!(codes[i]@ == "E0499"@ || codes[i]@ == "E0502"@ || codes[i]@ == "E0503"@ || codes[i]@ == "E0505"@ || codes[i]@ == "E0506"@ || codes[i]@ == "E0382"@ || codes[i]@ == "E0384"@ || codes[i]@ == "E0597"@ || codes[i]@ == "E0515"@ || codes[i]@ == "E0521"@ || codes[i]@ == "E0623"@ || codes[i]@ == "E0495"@ || codes[i]@ == "E0700"@ || codes[i]@ == "E0277"@ || codes[i]@ == "E0119"@ || codes[i]@ == "E0210"@ || codes[i]@ == "E0271"@ || codes[i]@ == "E0599"@ || codes[i]@ == "E0308"@ || codes[i]@ == "E0053"@ || codes[i]@ == "E0061"@ || codes[i]@ == "E0069"@ || codes[i]@ == "E0425"@ || codes[i]@ == "E0433"@ || codes[i]@ == "E0412"@ || codes[i]@ == "E0405"@ || codes[i]@ == "E0001"@));
            assert(syntax_set()[0] == "E0001"@);
        }
    }
}

} // verus!
