//! The registry of families: every family id the run protocol serves, and
//! one value per family that dispatches to it.

use vstd::prelude::*;
use crate::digest::canary_text;
use crate::text::{dec_nat, string_of};
use crate::vocab::string_eq_str;
use crate::scan::chars_of;
use crate::text::{push_str, string_views};
use crate::diagnostics::{lex_lt, lex_less, strictly_sorted, insert_sorted, lemma_lex_irreflexive};
use crate::gen::{GeneratedTask, file_views, cargo_toml_text, task_id_text, prompt_tail};
use crate::gen::window_op;
use crate::gen::error_handling;
use crate::gen::stack_machine;
use crate::gen::seq_transform;
use crate::gen::grid_reduce;
use crate::gen::traits_generics;
use crate::gen::bit_manipulation;
use crate::gen::unsafe_core;
use crate::gen::string_processing;
use crate::gen::dual_region;
use crate::gen::generic_select;
use crate::gen::checked_eval;
use crate::gen::idiom_refactor;

verus! {

/// A registered family.
#[derive(Clone, Copy, Debug, PartialEq, Eq, Structural)]
pub enum Family {
    WindowOp,
    ErrorHandling,
    StackMachine,
    SeqTransform,
    GridReduce,
    TraitImpl,
    BitOps,
    RawPtr,
    StrTransform,
    DualRegion,
    GenericSelect,
    CheckedEval,
    IdiomLoop,
}

/// The family's id.
pub open spec fn id_text(f: Family) -> Seq<char> {
    match f {
        Family::WindowOp => "window-op"@,
        Family::ErrorHandling => "error-handling"@,
        Family::StackMachine => "stack-machine"@,
        Family::SeqTransform => "seq-transform"@,
        Family::GridReduce => "grid-reduce"@,
        Family::TraitImpl => "trait-impl"@,
        Family::BitOps => "bit-ops"@,
        Family::RawPtr => "raw-ptr"@,
        Family::StrTransform => "str-transform"@,
        Family::DualRegion => "dual-region"@,
        Family::GenericSelect => "generic-select"@,
        Family::CheckedEval => "checked-eval"@,
        Family::IdiomLoop => "idiom-loop"@,
    }
}

/// The family's category.
pub open spec fn category_text(f: Family) -> Seq<char> {
    match f {
        Family::WindowOp => "borrow-lifetimes"@,
        Family::ErrorHandling => "error-handling"@,
        Family::StackMachine => "pattern-matching"@,
        Family::SeqTransform => "iterators"@,
        Family::GridReduce => "data-structures"@,
        Family::TraitImpl => "traits-generics"@,
        Family::BitOps => "bit-manipulation"@,
        Family::RawPtr => "unsafe-core"@,
        Family::StrTransform => "string-processing"@,
        Family::DualRegion => "borrow-lifetimes"@,
        Family::GenericSelect => "traits-generics"@,
        Family::CheckedEval => "error-handling"@,
        Family::IdiomLoop => "idiom-refactor"@,
    }
}

/// The family an id names, if any.
pub open spec fn family_of(id: Seq<char>) -> Option<Family> {
    if id == "window-op"@ {
        Some(Family::WindowOp)
    }     else if id == "error-handling"@ {
        Some(Family::ErrorHandling)
    }     else if id == "stack-machine"@ {
        Some(Family::StackMachine)
    }     else if id == "seq-transform"@ {
        Some(Family::SeqTransform)
    }     else if id == "grid-reduce"@ {
        Some(Family::GridReduce)
    }     else if id == "trait-impl"@ {
        Some(Family::TraitImpl)
    }     else if id == "bit-ops"@ {
        Some(Family::BitOps)
    }     else if id == "raw-ptr"@ {
        Some(Family::RawPtr)
    }     else if id == "str-transform"@ {
        Some(Family::StrTransform)
    }     else if id == "dual-region"@ {
        Some(Family::DualRegion)
    }     else if id == "generic-select"@ {
        Some(Family::GenericSelect)
    }     else if id == "checked-eval"@ {
        Some(Family::CheckedEval)
    }     else if id == "idiom-loop"@ {
        Some(Family::IdiomLoop)
    } else {
        None
    }
}

/// The prompt of the task `seed` gives.
pub open spec fn prompt_of(f: Family, seed: u64) -> Seq<char> {
    match f {
        Family::WindowOp => window_op::prompt_text(window_op::sample_name(seed), window_op::sample_op(seed), window_op::sample_stride(seed), canary_text("window-op"@, seed)),
        Family::ErrorHandling => error_handling::prompt_text(error_handling::sample_name(seed), error_handling::sample_combine(seed), error_handling::sample_rule(seed), canary_text("error-handling"@, seed)),
        Family::StackMachine => stack_machine::prompt_text(stack_machine::sample_name(seed), stack_machine::sample_combine(seed), stack_machine::sample_map(seed), stack_machine::sample_reorder(seed), seed, canary_text("stack-machine"@, seed)),
        Family::SeqTransform => seq_transform::prompt_text(seq_transform::sample_name(seed), seq_transform::sample_filter(seed), seq_transform::sample_map(seed), seq_transform::sample_terminal(seed), seed, canary_text("seq-transform"@, seed)),
        Family::GridReduce => grid_reduce::prompt_text(grid_reduce::sample_name(seed), grid_reduce::sample_axis(seed), grid_reduce::sample_reduction(seed), seed, canary_text("grid-reduce"@, seed)),
        Family::TraitImpl => traits_generics::prompt_text(traits_generics::sample_struct(seed), traits_generics::sample_driver(seed), traits_generics::sample_keep(seed), traits_generics::sample_reduce(seed), seed, canary_text("trait-impl"@, seed)),
        Family::BitOps => bit_manipulation::prompt_text(bit_manipulation::sample_name(seed), bit_manipulation::sample_mask(seed), bit_manipulation::sample_transform(seed), seed, canary_text("bit-ops"@, seed)),
        Family::RawPtr => unsafe_core::prompt_text(unsafe_core::sample_name(seed), unsafe_core::sample_access(seed), unsafe_core::sample_reduce(seed), seed, canary_text("raw-ptr"@, seed)),
        Family::StrTransform => string_processing::prompt_text(string_processing::sample_name(seed), string_processing::sample_filter(seed), string_processing::sample_map(seed), string_processing::sample_reversed(seed), seed, canary_text("str-transform"@, seed)),
        Family::DualRegion => dual_region::prompt_text(dual_region::sample_name(seed), dual_region::sample_op(seed), dual_region::sample_pairing(seed), seed, canary_text("dual-region"@, seed)),
        Family::GenericSelect => generic_select::prompt_text(generic_select::sample_name(seed), generic_select::sample_select(seed), generic_select::sample_project(seed), seed, canary_text("generic-select"@, seed)),
        Family::CheckedEval => checked_eval::prompt_text(checked_eval::sample_name(seed), checked_eval::sample_fold(seed), checked_eval::sample_guard(seed), seed, canary_text("checked-eval"@, seed)),
        Family::IdiomLoop => idiom_refactor::prompt_text(idiom_refactor::sample_name(seed), idiom_refactor::sample_filter(seed), idiom_refactor::sample_map(seed), seed, canary_text("idiom-loop"@, seed)),
    }
}

/// The skeleton the model completes.
pub open spec fn skeleton_of(f: Family, seed: u64) -> Seq<char> {
    match f {
        Family::WindowOp => window_op::skeleton_text(window_op::sample_name(seed), window_op::sample_op(seed), window_op::sample_stride(seed)),
        Family::ErrorHandling => error_handling::skeleton_text(error_handling::sample_name(seed), error_handling::sample_combine(seed), error_handling::sample_rule(seed)),
        Family::StackMachine => stack_machine::skeleton_text(stack_machine::sample_name(seed), stack_machine::sample_combine(seed), stack_machine::sample_map(seed), stack_machine::sample_reorder(seed), seed),
        Family::SeqTransform => seq_transform::skeleton_text(seq_transform::sample_name(seed), seq_transform::sample_filter(seed), seq_transform::sample_map(seed), seq_transform::sample_terminal(seed), seed),
        Family::GridReduce => grid_reduce::skeleton_text(grid_reduce::sample_name(seed), grid_reduce::sample_axis(seed), grid_reduce::sample_reduction(seed), seed),
        Family::TraitImpl => traits_generics::skeleton_text(traits_generics::sample_struct(seed), traits_generics::sample_driver(seed), traits_generics::sample_keep(seed), traits_generics::sample_reduce(seed), seed),
        Family::BitOps => bit_manipulation::skeleton_text(bit_manipulation::sample_name(seed), bit_manipulation::sample_mask(seed), bit_manipulation::sample_transform(seed), seed),
        Family::RawPtr => unsafe_core::skeleton_text(unsafe_core::sample_name(seed), unsafe_core::sample_access(seed), unsafe_core::sample_reduce(seed), seed),
        Family::StrTransform => string_processing::skeleton_text(string_processing::sample_name(seed), string_processing::sample_filter(seed), string_processing::sample_map(seed), string_processing::sample_reversed(seed), seed),
        Family::DualRegion => dual_region::skeleton_text(dual_region::sample_name(seed), dual_region::sample_op(seed), dual_region::sample_pairing(seed), seed),
        Family::GenericSelect => generic_select::skeleton_text(generic_select::sample_name(seed), generic_select::sample_select(seed), generic_select::sample_project(seed), seed),
        Family::CheckedEval => checked_eval::skeleton_text(checked_eval::sample_name(seed), checked_eval::sample_fold(seed), checked_eval::sample_guard(seed), seed),
        Family::IdiomLoop => idiom_refactor::skeleton_text(idiom_refactor::sample_name(seed), idiom_refactor::sample_filter(seed), idiom_refactor::sample_map(seed), seed),
    }
}

/// The files given to the model, in path order.
pub open spec fn files_of(f: Family, seed: u64) -> Seq<(Seq<char>, Seq<char>)> {
    seq![("Cargo.toml"@, cargo_toml_text()), ("src/lib.rs"@, skeleton_of(f, seed))]
}

/// The hidden oracle files, in path order.
pub open spec fn hidden_of(f: Family, seed: u64) -> Seq<(Seq<char>, Seq<char>)> {
    match f {
        Family::WindowOp => seq![
            ("tests/alloc.rs"@, window_op::alloc_file(seed)),
            ("tests/behavior.rs"@, window_op::behavior_file(seed)),
            ("tests/differential.rs"@, window_op::differential_file(seed)),
        ],
        Family::ErrorHandling => seq![
            ("tests/behavior.rs"@, error_handling::behavior_file(seed)),
            ("tests/differential.rs"@, error_handling::differential_file(seed)),
        ],
        Family::StackMachine => seq![
            ("tests/behavior.rs"@, stack_machine::behavior_file(seed)),
            ("tests/differential.rs"@, stack_machine::differential_file(seed)),
        ],
        Family::SeqTransform => seq![
            ("tests/behavior.rs"@, seq_transform::behavior_file(seed)),
            ("tests/differential.rs"@, seq_transform::differential_file(seed)),
        ],
        Family::GridReduce => seq![
            ("tests/behavior.rs"@, grid_reduce::behavior_file(seed)),
            ("tests/differential.rs"@, grid_reduce::differential_file(seed)),
        ],
        Family::TraitImpl => seq![
            ("tests/behavior.rs"@, traits_generics::behavior_file(seed)),
            ("tests/differential.rs"@, traits_generics::differential_file(seed)),
        ],
        Family::BitOps => seq![
            ("tests/behavior.rs"@, bit_manipulation::behavior_file(seed)),
            ("tests/differential.rs"@, bit_manipulation::differential_file(seed)),
        ],
        Family::RawPtr => seq![
            ("tests/behavior.rs"@, unsafe_core::behavior_file(seed)),
            ("tests/differential.rs"@, unsafe_core::differential_file(seed)),
        ],
        Family::StrTransform => seq![
            ("tests/behavior.rs"@, string_processing::behavior_file(seed)),
            ("tests/differential.rs"@, string_processing::differential_file(seed)),
        ],
        Family::DualRegion => seq![
            ("tests/alloc.rs"@, dual_region::alloc_file(seed)),
            ("tests/behavior.rs"@, dual_region::behavior_file(seed)),
            ("tests/differential.rs"@, dual_region::differential_file(seed)),
        ],
        Family::GenericSelect => seq![
            ("tests/behavior.rs"@, generic_select::behavior_file(seed)),
            ("tests/differential.rs"@, generic_select::differential_file(seed)),
        ],
        Family::CheckedEval => seq![
            ("tests/behavior.rs"@, checked_eval::behavior_file(seed)),
            ("tests/differential.rs"@, checked_eval::differential_file(seed)),
        ],
        Family::IdiomLoop => seq![
            ("tests/behavior.rs"@, idiom_refactor::behavior_file(seed)),
            ("tests/differential.rs"@, idiom_refactor::differential_file(seed)),
        ],
    }
}

/// The reference solution.
pub open spec fn reference_of(f: Family, seed: u64) -> Seq<char> {
    match f {
        Family::WindowOp => window_op::reference_text("pub fn "@ + window_op::sample_name(seed), window_op::sample_op(seed), window_op::sample_stride(seed)),
        Family::ErrorHandling => error_handling::reference_text(error_handling::sample_name(seed), error_handling::sample_combine(seed), error_handling::sample_rule(seed)),
        Family::StackMachine => stack_machine::reference_text(stack_machine::sample_name(seed), stack_machine::sample_combine(seed), stack_machine::sample_map(seed), stack_machine::sample_reorder(seed)),
        Family::SeqTransform => seq_transform::reference_text("pub fn "@ + seq_transform::sample_name(seed), seq_transform::sample_filter(seed), seq_transform::sample_map(seed), seq_transform::sample_terminal(seed)),
        Family::GridReduce => grid_reduce::reference_text(grid_reduce::sample_name(seed), grid_reduce::sample_axis(seed), grid_reduce::sample_reduction(seed)),
        Family::TraitImpl => traits_generics::reference_text(traits_generics::sample_struct(seed), traits_generics::sample_driver(seed), traits_generics::sample_keep(seed), traits_generics::sample_reduce(seed)),
        Family::BitOps => bit_manipulation::reference_text("pub fn "@ + bit_manipulation::sample_name(seed), bit_manipulation::sample_mask(seed), bit_manipulation::sample_transform(seed)),
        Family::RawPtr => unsafe_core::reference_text(unsafe_core::sample_name(seed), unsafe_core::sample_access(seed), unsafe_core::sample_reduce(seed)),
        Family::StrTransform => string_processing::reference_text(string_processing::sample_name(seed), string_processing::sample_filter(seed), string_processing::sample_map(seed), string_processing::sample_reversed(seed)),
        Family::DualRegion => dual_region::reference_text(dual_region::sample_name(seed), dual_region::sample_op(seed), dual_region::sample_pairing(seed)),
        Family::GenericSelect => generic_select::reference_text(generic_select::sample_name(seed), generic_select::sample_select(seed), generic_select::sample_project(seed)),
        Family::CheckedEval => checked_eval::reference_text(checked_eval::sample_name(seed), checked_eval::sample_fold(seed), checked_eval::sample_guard(seed)),
        Family::IdiomLoop => idiom_refactor::reference_text(idiom_refactor::sample_name(seed), idiom_refactor::sample_filter(seed), idiom_refactor::sample_map(seed)),
    }
}

/// The degenerate answers `(label, code)`.
pub open spec fn baselines_of(f: Family, seed: u64) -> Seq<(Seq<char>, Seq<char>)> {
    match f {
        Family::WindowOp => seq![
            ("const-zero"@, "pub fn "@ + window_op::sample_name(seed) + "(v: &mut [i64], w: usize) -> usize { let _ = (v, w); 0 }\n"@),
            ("identity"@, window_op::identity_text(window_op::sample_name(seed), window_op::sample_stride(seed))),
        ],
        Family::ErrorHandling => seq![
            ("const-ok"@, error_handling::const_ok_text(error_handling::sample_name(seed))),
            ("unwrap"@, error_handling::unwrap_text(error_handling::sample_name(seed), error_handling::sample_combine(seed))),
        ],
        Family::StackMachine => seq![
            ("const-empty"@, stack_machine::const_empty_text(stack_machine::sample_name(seed))),
            ("echo-pushes"@, stack_machine::echo_pushes_text(stack_machine::sample_name(seed))),
        ],
        Family::SeqTransform => seq![
            ("identity"@, seq_transform::identity_text(seq_transform::sample_name(seed))),
            ("empty"@, seq_transform::empty_text(seq_transform::sample_name(seed))),
        ],
        Family::GridReduce => seq![
            ("const-empty"@, grid_reduce::const_empty_text(grid_reduce::sample_name(seed))),
            ("flatten"@, grid_reduce::flatten_text(grid_reduce::sample_name(seed))),
        ],
        Family::TraitImpl => seq![
            ("const-zero"@, traits_generics::degenerate_text(traits_generics::sample_struct(seed), traits_generics::sample_driver(seed), "0"@)),
            ("const-one"@, traits_generics::degenerate_text(traits_generics::sample_struct(seed), traits_generics::sample_driver(seed), "1"@)),
        ],
        Family::BitOps => seq![
            ("identity"@, "pub fn "@ + bit_manipulation::sample_name(seed) + "(x: u32) -> u32 { x }\n"@),
            ("const-zero"@, "pub fn "@ + bit_manipulation::sample_name(seed) + "(x: u32) -> u32 { let _ = x; 0 }\n"@),
        ],
        Family::RawPtr => seq![
            ("const-zero"@, "pub fn "@ + unsafe_core::sample_name(seed) + "(ptr: *const i64, len: usize) -> i64 { let _ = (ptr, len); 0 }\n"@),
            ("const-one"@, "pub fn "@ + unsafe_core::sample_name(seed) + "(ptr: *const i64, len: usize) -> i64 { let _ = (ptr, len); 1 }\n"@),
        ],
        Family::StrTransform => seq![
            ("identity"@, string_processing::identity_text(string_processing::sample_name(seed))),
            ("empty"@, string_processing::empty_text(string_processing::sample_name(seed))),
        ],
        Family::DualRegion => seq![
            ("const-zero"@, dual_region::const_zero_text(dual_region::sample_name(seed))),
            ("identity"@, dual_region::identity_text(dual_region::sample_name(seed))),
        ],
        Family::GenericSelect => seq![
            ("const-none"@, generic_select::constant_text(generic_select::sample_name(seed), "None"@)),
            ("const-zero"@, generic_select::constant_text(generic_select::sample_name(seed), "Some(0)"@)),
        ],
        Family::CheckedEval => seq![
            ("const-ok"@, checked_eval::const_ok_text(checked_eval::sample_name(seed))),
            ("no-guard"@, checked_eval::no_guard_text(checked_eval::sample_name(seed), checked_eval::sample_fold(seed))),
        ],
        Family::IdiomLoop => seq![
            ("unchanged"@, idiom_refactor::deidiom_core_text(idiom_refactor::sample_name(seed), idiom_refactor::sample_filter(seed), idiom_refactor::sample_map(seed)) + "\n"@),
            ("const-zero"@, idiom_refactor::const_zero_text(idiom_refactor::sample_name(seed))),
        ],
    }
}

/// The structural signature.
pub open spec fn signature_of(f: Family, seed: u64) -> Seq<Seq<char>> {
    match f {
        Family::WindowOp => seq!["op:"@ + window_op::op_kind_text(window_op::sample_op(seed)), "stride:"@ + dec_nat(window_op::sample_stride(seed) as nat)],
        Family::ErrorHandling => seq!["combine:"@ + error_handling::combine_name(error_handling::sample_combine(seed)), "rule:"@ + error_handling::rule_name(error_handling::sample_rule(seed))],
        Family::StackMachine => seq!["combine:"@ + stack_machine::combine_name(stack_machine::sample_combine(seed)), "map:"@ + stack_machine::map_name(stack_machine::sample_map(seed)), "reorder:"@ + stack_machine::reorder_name(stack_machine::sample_reorder(seed))],
        Family::SeqTransform => seq!["filter:"@ + seq_transform::filter_kind_text(seq_transform::sample_filter(seed)), "map:"@ + seq_transform::map_kind_text(seq_transform::sample_map(seed)), "terminal:"@ + seq_transform::terminal_kind_text(seq_transform::sample_terminal(seed))],
        Family::GridReduce => seq!["axis:"@ + grid_reduce::axis_kind_text(grid_reduce::sample_axis(seed)), "reduction:"@ + grid_reduce::reduction_kind_text(grid_reduce::sample_reduction(seed))],
        Family::TraitImpl => seq!["keep:"@ + traits_generics::keep_kind_text(traits_generics::sample_keep(seed)), "reduce:"@ + traits_generics::reduce_kind_text(traits_generics::sample_reduce(seed))],
        Family::BitOps => seq!["mask:"@ + bit_manipulation::mask_kind_text(bit_manipulation::sample_mask(seed)), "transform:"@ + bit_manipulation::transform_kind_text(bit_manipulation::sample_transform(seed))],
        Family::RawPtr => seq!["access:"@ + unsafe_core::access_kind_text(unsafe_core::sample_access(seed)), "reduce:"@ + unsafe_core::reduce_kind_text(unsafe_core::sample_reduce(seed))],
        Family::StrTransform => seq!["filter:"@ + string_processing::filter_kind_text(string_processing::sample_filter(seed)), "map:"@ + string_processing::map_kind_text(string_processing::sample_map(seed)), "order:"@ + (if string_processing::sample_reversed(seed) { "reversed"@ } else { "inorder"@ })],
        Family::DualRegion => seq!["op:"@ + dual_region::op_kind_text(dual_region::sample_op(seed)), "pairing:"@ + dual_region::pairing_kind_text(dual_region::sample_pairing(seed))],
        Family::GenericSelect => seq!["select:"@ + generic_select::select_kind_text(generic_select::sample_select(seed)), "project:"@ + generic_select::project_kind_text(generic_select::sample_project(seed))],
        Family::CheckedEval => seq!["fold:"@ + checked_eval::fold_kind_text(checked_eval::sample_fold(seed)), "guard:"@ + checked_eval::guard_kind_text(checked_eval::sample_guard(seed))],
        Family::IdiomLoop => seq!["filter:"@ + idiom_refactor::filter_kind_text(idiom_refactor::sample_filter(seed)), "map:"@ + idiom_refactor::map_kind_text(idiom_refactor::sample_map(seed))],
    }
}

/// Every registered family id, in registry order.
pub open spec fn family_ids_text() -> Seq<Seq<char>> {
    seq!["window-op"@, "error-handling"@, "stack-machine"@, "seq-transform"@, "grid-reduce"@, "trait-impl"@, "bit-ops"@, "raw-ptr"@, "str-transform"@, "dual-region"@, "generic-select"@, "checked-eval"@, "idiom-loop"@]
}

/// Every registered family id, in registry order.
pub fn family_ids() -> (r: Vec<&'static str>)
    ensures
        r@.map_values(|s: &str| s@) == family_ids_text(),
{
    let v: Vec<&'static str> = vec!["window-op", "error-handling", "stack-machine", "seq-transform", "grid-reduce", "trait-impl", "bit-ops", "raw-ptr", "str-transform", "dual-region", "generic-select", "checked-eval", "idiom-loop"];
    assert(v@.map_values(|s: &str| s@) =~= family_ids_text());
    v
}

/// The family `id` names, if it is registered.
pub fn family(id: &str) -> (r: Option<Family>)
    ensures
        r == family_of(id@),
{
    let name = string_of(id);
    if string_eq_str(&name, "window-op") {
        return Some(Family::WindowOp);
    }
    if string_eq_str(&name, "error-handling") {
        return Some(Family::ErrorHandling);
    }
    if string_eq_str(&name, "stack-machine") {
        return Some(Family::StackMachine);
    }
    if string_eq_str(&name, "seq-transform") {
        return Some(Family::SeqTransform);
    }
    if string_eq_str(&name, "grid-reduce") {
        return Some(Family::GridReduce);
    }
    if string_eq_str(&name, "trait-impl") {
        return Some(Family::TraitImpl);
    }
    if string_eq_str(&name, "bit-ops") {
        return Some(Family::BitOps);
    }
    if string_eq_str(&name, "raw-ptr") {
        return Some(Family::RawPtr);
    }
    if string_eq_str(&name, "str-transform") {
        return Some(Family::StrTransform);
    }
    if string_eq_str(&name, "dual-region") {
        return Some(Family::DualRegion);
    }
    if string_eq_str(&name, "generic-select") {
        return Some(Family::GenericSelect);
    }
    if string_eq_str(&name, "checked-eval") {
        return Some(Family::CheckedEval);
    }
    if string_eq_str(&name, "idiom-loop") {
        return Some(Family::IdiomLoop);
    }
    None
}

fn generate_window_op(seed: u64) -> (r: GeneratedTask)
    ensures
        r.id@ == task_id_text(id_text(Family::WindowOp), seed),
        r.category@ == category_text(Family::WindowOp),
        r.canary@ == canary_text(id_text(Family::WindowOp), seed),
        r.prompt@ == prompt_of(Family::WindowOp, seed),
        r.answer_path@ == "src/lib.rs"@,
        file_views(r.files@) == files_of(Family::WindowOp, seed),
        file_views(r.hidden@) == hidden_of(Family::WindowOp, seed),
{
    let r = window_op::WindowOpFamily.generate(seed);
    assert(file_views(r.files@) =~= files_of(Family::WindowOp, seed));
    assert(file_views(r.hidden@) =~= hidden_of(Family::WindowOp, seed));
    r
}

fn generate_error_handling(seed: u64) -> (r: GeneratedTask)
    ensures
        r.id@ == task_id_text(id_text(Family::ErrorHandling), seed),
        r.category@ == category_text(Family::ErrorHandling),
        r.canary@ == canary_text(id_text(Family::ErrorHandling), seed),
        r.prompt@ == prompt_of(Family::ErrorHandling, seed),
        r.answer_path@ == "src/lib.rs"@,
        file_views(r.files@) == files_of(Family::ErrorHandling, seed),
        file_views(r.hidden@) == hidden_of(Family::ErrorHandling, seed),
{
    let r = error_handling::ErrorHandlingFamily.generate(seed);
    assert(file_views(r.files@) =~= files_of(Family::ErrorHandling, seed));
    assert(file_views(r.hidden@) =~= hidden_of(Family::ErrorHandling, seed));
    r
}

fn generate_stack_machine(seed: u64) -> (r: GeneratedTask)
    ensures
        r.id@ == task_id_text(id_text(Family::StackMachine), seed),
        r.category@ == category_text(Family::StackMachine),
        r.canary@ == canary_text(id_text(Family::StackMachine), seed),
        r.prompt@ == prompt_of(Family::StackMachine, seed),
        r.answer_path@ == "src/lib.rs"@,
        file_views(r.files@) == files_of(Family::StackMachine, seed),
        file_views(r.hidden@) == hidden_of(Family::StackMachine, seed),
{
    let r = stack_machine::StackMachineFamily.generate(seed);
    assert(file_views(r.files@) =~= files_of(Family::StackMachine, seed));
    assert(file_views(r.hidden@) =~= hidden_of(Family::StackMachine, seed));
    r
}

fn generate_seq_transform(seed: u64) -> (r: GeneratedTask)
    ensures
        r.id@ == task_id_text(id_text(Family::SeqTransform), seed),
        r.category@ == category_text(Family::SeqTransform),
        r.canary@ == canary_text(id_text(Family::SeqTransform), seed),
        r.prompt@ == prompt_of(Family::SeqTransform, seed),
        r.answer_path@ == "src/lib.rs"@,
        file_views(r.files@) == files_of(Family::SeqTransform, seed),
        file_views(r.hidden@) == hidden_of(Family::SeqTransform, seed),
{
    let r = seq_transform::SeqTransformFamily.generate(seed);
    assert(file_views(r.files@) =~= files_of(Family::SeqTransform, seed));
    assert(file_views(r.hidden@) =~= hidden_of(Family::SeqTransform, seed));
    r
}

fn generate_grid_reduce(seed: u64) -> (r: GeneratedTask)
    ensures
        r.id@ == task_id_text(id_text(Family::GridReduce), seed),
        r.category@ == category_text(Family::GridReduce),
        r.canary@ == canary_text(id_text(Family::GridReduce), seed),
        r.prompt@ == prompt_of(Family::GridReduce, seed),
        r.answer_path@ == "src/lib.rs"@,
        file_views(r.files@) == files_of(Family::GridReduce, seed),
        file_views(r.hidden@) == hidden_of(Family::GridReduce, seed),
{
    let r = grid_reduce::GridReduceFamily.generate(seed);
    assert(file_views(r.files@) =~= files_of(Family::GridReduce, seed));
    assert(file_views(r.hidden@) =~= hidden_of(Family::GridReduce, seed));
    r
}

fn generate_traits_generics(seed: u64) -> (r: GeneratedTask)
    ensures
        r.id@ == task_id_text(id_text(Family::TraitImpl), seed),
        r.category@ == category_text(Family::TraitImpl),
        r.canary@ == canary_text(id_text(Family::TraitImpl), seed),
        r.prompt@ == prompt_of(Family::TraitImpl, seed),
        r.answer_path@ == "src/lib.rs"@,
        file_views(r.files@) == files_of(Family::TraitImpl, seed),
        file_views(r.hidden@) == hidden_of(Family::TraitImpl, seed),
{
    let r = traits_generics::TraitsGenericsFamily.generate(seed);
    assert(file_views(r.files@) =~= files_of(Family::TraitImpl, seed));
    assert(file_views(r.hidden@) =~= hidden_of(Family::TraitImpl, seed));
    r
}

fn generate_bit_manipulation(seed: u64) -> (r: GeneratedTask)
    ensures
        r.id@ == task_id_text(id_text(Family::BitOps), seed),
        r.category@ == category_text(Family::BitOps),
        r.canary@ == canary_text(id_text(Family::BitOps), seed),
        r.prompt@ == prompt_of(Family::BitOps, seed),
        r.answer_path@ == "src/lib.rs"@,
        file_views(r.files@) == files_of(Family::BitOps, seed),
        file_views(r.hidden@) == hidden_of(Family::BitOps, seed),
{
    let r = bit_manipulation::BitManipulationFamily.generate(seed);
    assert(file_views(r.files@) =~= files_of(Family::BitOps, seed));
    assert(file_views(r.hidden@) =~= hidden_of(Family::BitOps, seed));
    r
}

fn generate_unsafe_core(seed: u64) -> (r: GeneratedTask)
    ensures
        r.id@ == task_id_text(id_text(Family::RawPtr), seed),
        r.category@ == category_text(Family::RawPtr),
        r.canary@ == canary_text(id_text(Family::RawPtr), seed),
        r.prompt@ == prompt_of(Family::RawPtr, seed),
        r.answer_path@ == "src/lib.rs"@,
        file_views(r.files@) == files_of(Family::RawPtr, seed),
        file_views(r.hidden@) == hidden_of(Family::RawPtr, seed),
{
    let r = unsafe_core::UnsafeCoreFamily.generate(seed);
    assert(file_views(r.files@) =~= files_of(Family::RawPtr, seed));
    assert(file_views(r.hidden@) =~= hidden_of(Family::RawPtr, seed));
    r
}

fn generate_string_processing(seed: u64) -> (r: GeneratedTask)
    ensures
        r.id@ == task_id_text(id_text(Family::StrTransform), seed),
        r.category@ == category_text(Family::StrTransform),
        r.canary@ == canary_text(id_text(Family::StrTransform), seed),
        r.prompt@ == prompt_of(Family::StrTransform, seed),
        r.answer_path@ == "src/lib.rs"@,
        file_views(r.files@) == files_of(Family::StrTransform, seed),
        file_views(r.hidden@) == hidden_of(Family::StrTransform, seed),
{
    let r = string_processing::StringProcessingFamily.generate(seed);
    assert(file_views(r.files@) =~= files_of(Family::StrTransform, seed));
    assert(file_views(r.hidden@) =~= hidden_of(Family::StrTransform, seed));
    r
}

fn generate_dual_region(seed: u64) -> (r: GeneratedTask)
    ensures
        r.id@ == task_id_text(id_text(Family::DualRegion), seed),
        r.category@ == category_text(Family::DualRegion),
        r.canary@ == canary_text(id_text(Family::DualRegion), seed),
        r.prompt@ == prompt_of(Family::DualRegion, seed),
        r.answer_path@ == "src/lib.rs"@,
        file_views(r.files@) == files_of(Family::DualRegion, seed),
        file_views(r.hidden@) == hidden_of(Family::DualRegion, seed),
{
    let r = dual_region::DualRegionFamily.generate(seed);
    assert(file_views(r.files@) =~= files_of(Family::DualRegion, seed));
    assert(file_views(r.hidden@) =~= hidden_of(Family::DualRegion, seed));
    r
}

fn generate_generic_select(seed: u64) -> (r: GeneratedTask)
    ensures
        r.id@ == task_id_text(id_text(Family::GenericSelect), seed),
        r.category@ == category_text(Family::GenericSelect),
        r.canary@ == canary_text(id_text(Family::GenericSelect), seed),
        r.prompt@ == prompt_of(Family::GenericSelect, seed),
        r.answer_path@ == "src/lib.rs"@,
        file_views(r.files@) == files_of(Family::GenericSelect, seed),
        file_views(r.hidden@) == hidden_of(Family::GenericSelect, seed),
{
    let r = generic_select::GenericSelectFamily.generate(seed);
    assert(file_views(r.files@) =~= files_of(Family::GenericSelect, seed));
    assert(file_views(r.hidden@) =~= hidden_of(Family::GenericSelect, seed));
    r
}

fn generate_checked_eval(seed: u64) -> (r: GeneratedTask)
    ensures
        r.id@ == task_id_text(id_text(Family::CheckedEval), seed),
        r.category@ == category_text(Family::CheckedEval),
        r.canary@ == canary_text(id_text(Family::CheckedEval), seed),
        r.prompt@ == prompt_of(Family::CheckedEval, seed),
        r.answer_path@ == "src/lib.rs"@,
        file_views(r.files@) == files_of(Family::CheckedEval, seed),
        file_views(r.hidden@) == hidden_of(Family::CheckedEval, seed),
{
    let r = checked_eval::CheckedEvalFamily.generate(seed);
    assert(file_views(r.files@) =~= files_of(Family::CheckedEval, seed));
    assert(file_views(r.hidden@) =~= hidden_of(Family::CheckedEval, seed));
    r
}

fn generate_idiom_refactor(seed: u64) -> (r: GeneratedTask)
    ensures
        r.id@ == task_id_text(id_text(Family::IdiomLoop), seed),
        r.category@ == category_text(Family::IdiomLoop),
        r.canary@ == canary_text(id_text(Family::IdiomLoop), seed),
        r.prompt@ == prompt_of(Family::IdiomLoop, seed),
        r.answer_path@ == "src/lib.rs"@,
        file_views(r.files@) == files_of(Family::IdiomLoop, seed),
        file_views(r.hidden@) == hidden_of(Family::IdiomLoop, seed),
{
    let r = idiom_refactor::IdiomRefactorFamily.generate(seed);
    assert(file_views(r.files@) =~= files_of(Family::IdiomLoop, seed));
    assert(file_views(r.hidden@) =~= hidden_of(Family::IdiomLoop, seed));
    r
}

impl Family {
    pub fn id(&self) -> (r: &'static str)
        ensures
            r@ == id_text(*self),
    {
        match self {
            Family::WindowOp => "window-op",
            Family::ErrorHandling => "error-handling",
            Family::StackMachine => "stack-machine",
            Family::SeqTransform => "seq-transform",
            Family::GridReduce => "grid-reduce",
            Family::TraitImpl => "trait-impl",
            Family::BitOps => "bit-ops",
            Family::RawPtr => "raw-ptr",
            Family::StrTransform => "str-transform",
            Family::DualRegion => "dual-region",
            Family::GenericSelect => "generic-select",
            Family::CheckedEval => "checked-eval",
            Family::IdiomLoop => "idiom-loop",
        }
    }

    pub fn category(&self) -> (r: &'static str)
        ensures
            r@ == category_text(*self),
    {
        match self {
            Family::WindowOp => "borrow-lifetimes",
            Family::ErrorHandling => "error-handling",
            Family::StackMachine => "pattern-matching",
            Family::SeqTransform => "iterators",
            Family::GridReduce => "data-structures",
            Family::TraitImpl => "traits-generics",
            Family::BitOps => "bit-manipulation",
            Family::RawPtr => "unsafe-core",
            Family::StrTransform => "string-processing",
            Family::DualRegion => "borrow-lifetimes",
            Family::GenericSelect => "traits-generics",
            Family::CheckedEval => "error-handling",
            Family::IdiomLoop => "idiom-refactor",
        }
    }

    /// The instance for `seed`: a pure function of the family and the seed.
    pub fn generate(&self, seed: u64) -> (r: GeneratedTask)
        ensures
            r.id@ == task_id_text(id_text(*self), seed),
            r.category@ == category_text(*self),
            r.canary@ == canary_text(id_text(*self), seed),
            r.prompt@ == prompt_of(*self, seed),
            r.answer_path@ == "src/lib.rs"@,
            file_views(r.files@) == files_of(*self, seed),
            file_views(r.hidden@) == hidden_of(*self, seed),
    {
        match self {
            Family::WindowOp => generate_window_op(seed),
            Family::ErrorHandling => generate_error_handling(seed),
            Family::StackMachine => generate_stack_machine(seed),
            Family::SeqTransform => generate_seq_transform(seed),
            Family::GridReduce => generate_grid_reduce(seed),
            Family::TraitImpl => generate_traits_generics(seed),
            Family::BitOps => generate_bit_manipulation(seed),
            Family::RawPtr => generate_unsafe_core(seed),
            Family::StrTransform => generate_string_processing(seed),
            Family::DualRegion => generate_dual_region(seed),
            Family::GenericSelect => generate_generic_select(seed),
            Family::CheckedEval => generate_checked_eval(seed),
            Family::IdiomLoop => generate_idiom_refactor(seed),
        }
    }

    pub fn reference_code(&self, seed: u64) -> (r: String)
        ensures
            r@ == reference_of(*self, seed),
    {
        match self {
            Family::WindowOp => window_op::WindowOpFamily.reference_code(seed),
            Family::ErrorHandling => error_handling::ErrorHandlingFamily.reference_code(seed),
            Family::StackMachine => stack_machine::StackMachineFamily.reference_code(seed),
            Family::SeqTransform => seq_transform::SeqTransformFamily.reference_code(seed),
            Family::GridReduce => grid_reduce::GridReduceFamily.reference_code(seed),
            Family::TraitImpl => traits_generics::TraitsGenericsFamily.reference_code(seed),
            Family::BitOps => bit_manipulation::BitManipulationFamily.reference_code(seed),
            Family::RawPtr => unsafe_core::UnsafeCoreFamily.reference_code(seed),
            Family::StrTransform => string_processing::StringProcessingFamily.reference_code(seed),
            Family::DualRegion => dual_region::DualRegionFamily.reference_code(seed),
            Family::GenericSelect => generic_select::GenericSelectFamily.reference_code(seed),
            Family::CheckedEval => checked_eval::CheckedEvalFamily.reference_code(seed),
            Family::IdiomLoop => idiom_refactor::IdiomRefactorFamily.reference_code(seed),
        }
    }

    /// The skeleton: the `src/lib.rs` the model is given.
    pub fn skeleton_code(&self, seed: u64) -> (r: String)
        ensures
            r@ == skeleton_of(*self, seed),
    {
        match self {
            Family::WindowOp => window_op::WindowOpFamily.skeleton_code(seed),
            Family::ErrorHandling => error_handling::ErrorHandlingFamily.skeleton_code(seed),
            Family::StackMachine => stack_machine::StackMachineFamily.skeleton_code(seed),
            Family::SeqTransform => seq_transform::SeqTransformFamily.skeleton_code(seed),
            Family::GridReduce => grid_reduce::GridReduceFamily.skeleton_code(seed),
            Family::TraitImpl => traits_generics::TraitsGenericsFamily.skeleton_code(seed),
            Family::BitOps => bit_manipulation::BitManipulationFamily.skeleton_code(seed),
            Family::RawPtr => unsafe_core::UnsafeCoreFamily.skeleton_code(seed),
            Family::StrTransform => string_processing::StringProcessingFamily.skeleton_code(seed),
            Family::DualRegion => dual_region::DualRegionFamily.skeleton_code(seed),
            Family::GenericSelect => generic_select::GenericSelectFamily.skeleton_code(seed),
            Family::CheckedEval => checked_eval::CheckedEvalFamily.skeleton_code(seed),
            Family::IdiomLoop => idiom_refactor::IdiomRefactorFamily.skeleton_code(seed),
        }
    }

    /// Degenerate answers `(label, code)` that must fail grading.
    pub fn trivial_baselines(&self, seed: u64) -> (r: Vec<(String, String)>)
        ensures
            file_views(r@) == baselines_of(*self, seed),
    {
        let r = match self {
            Family::WindowOp => window_op::WindowOpFamily.trivial_baselines(seed),
            Family::ErrorHandling => error_handling::ErrorHandlingFamily.trivial_baselines(seed),
            Family::StackMachine => stack_machine::StackMachineFamily.trivial_baselines(seed),
            Family::SeqTransform => seq_transform::SeqTransformFamily.trivial_baselines(seed),
            Family::GridReduce => grid_reduce::GridReduceFamily.trivial_baselines(seed),
            Family::TraitImpl => traits_generics::TraitsGenericsFamily.trivial_baselines(seed),
            Family::BitOps => bit_manipulation::BitManipulationFamily.trivial_baselines(seed),
            Family::RawPtr => unsafe_core::UnsafeCoreFamily.trivial_baselines(seed),
            Family::StrTransform => string_processing::StringProcessingFamily.trivial_baselines(seed),
            Family::DualRegion => dual_region::DualRegionFamily.trivial_baselines(seed),
            Family::GenericSelect => generic_select::GenericSelectFamily.trivial_baselines(seed),
            Family::CheckedEval => checked_eval::CheckedEvalFamily.trivial_baselines(seed),
            Family::IdiomLoop => idiom_refactor::IdiomRefactorFamily.trivial_baselines(seed),
        };
        assert(file_views(r@) =~= baselines_of(*self, seed));
        r
    }

    /// The structural identity of the task `seed` gives.
    pub fn spec_signature(&self, seed: u64) -> (r: Vec<String>)
        ensures
            r@.map_values(|s: String| s@) == signature_of(*self, seed),
    {
        let r = match self {
            Family::WindowOp => window_op::WindowOpFamily.spec_signature(seed),
            Family::ErrorHandling => error_handling::ErrorHandlingFamily.spec_signature(seed),
            Family::StackMachine => stack_machine::StackMachineFamily.spec_signature(seed),
            Family::SeqTransform => seq_transform::SeqTransformFamily.spec_signature(seed),
            Family::GridReduce => grid_reduce::GridReduceFamily.spec_signature(seed),
            Family::TraitImpl => traits_generics::TraitsGenericsFamily.spec_signature(seed),
            Family::BitOps => bit_manipulation::BitManipulationFamily.spec_signature(seed),
            Family::RawPtr => unsafe_core::UnsafeCoreFamily.spec_signature(seed),
            Family::StrTransform => string_processing::StringProcessingFamily.spec_signature(seed),
            Family::DualRegion => dual_region::DualRegionFamily.spec_signature(seed),
            Family::GenericSelect => generic_select::GenericSelectFamily.spec_signature(seed),
            Family::CheckedEval => checked_eval::CheckedEvalFamily.spec_signature(seed),
            Family::IdiomLoop => idiom_refactor::IdiomRefactorFamily.spec_signature(seed),
        };
        assert(r@.map_values(|s: String| s@) =~= signature_of(*self, seed));
        r
    }
}

/// `needle` occurs in `hay`.
pub open spec fn occurs_in(needle: Seq<char>, hay: Seq<char>) -> bool {
    exists|i: int| 0 <= i && i + needle.len() <= hay.len() && #[trigger] hay.subrange(i, i + needle.len()) == needle
}

/// The `window_op` prompt ends with the closing paragraph that names the canary.
proof fn lemma_tail_window_op(seed: u64)
    ensures
        prompt_of(Family::WindowOp, seed).len() >= prompt_tail(canary_text(id_text(Family::WindowOp), seed)).len(),
        prompt_of(Family::WindowOp, seed).skip(prompt_of(Family::WindowOp, seed).len() - prompt_tail(canary_text(id_text(Family::WindowOp), seed)).len())
            == prompt_tail(canary_text(id_text(Family::WindowOp), seed)),
{
    let p = prompt_of(Family::WindowOp, seed);
    let t = prompt_tail(canary_text(id_text(Family::WindowOp), seed));
    assert(p.skip(p.len() - t.len()) =~= t);
}

/// The `error_handling` prompt ends with the closing paragraph that names the canary.
proof fn lemma_tail_error_handling(seed: u64)
    ensures
        prompt_of(Family::ErrorHandling, seed).len() >= prompt_tail(canary_text(id_text(Family::ErrorHandling), seed)).len(),
        prompt_of(Family::ErrorHandling, seed).skip(prompt_of(Family::ErrorHandling, seed).len() - prompt_tail(canary_text(id_text(Family::ErrorHandling), seed)).len())
            == prompt_tail(canary_text(id_text(Family::ErrorHandling), seed)),
{
    let p = prompt_of(Family::ErrorHandling, seed);
    let t = prompt_tail(canary_text(id_text(Family::ErrorHandling), seed));
    assert(p.skip(p.len() - t.len()) =~= t);
}

/// The `stack_machine` prompt ends with the closing paragraph that names the canary.
proof fn lemma_tail_stack_machine(seed: u64)
    ensures
        prompt_of(Family::StackMachine, seed).len() >= prompt_tail(canary_text(id_text(Family::StackMachine), seed)).len(),
        prompt_of(Family::StackMachine, seed).skip(prompt_of(Family::StackMachine, seed).len() - prompt_tail(canary_text(id_text(Family::StackMachine), seed)).len())
            == prompt_tail(canary_text(id_text(Family::StackMachine), seed)),
{
    let p = prompt_of(Family::StackMachine, seed);
    let t = prompt_tail(canary_text(id_text(Family::StackMachine), seed));
    assert(p.skip(p.len() - t.len()) =~= t);
}

/// The `seq_transform` prompt ends with the closing paragraph that names the canary.
proof fn lemma_tail_seq_transform(seed: u64)
    ensures
        prompt_of(Family::SeqTransform, seed).len() >= prompt_tail(canary_text(id_text(Family::SeqTransform), seed)).len(),
        prompt_of(Family::SeqTransform, seed).skip(prompt_of(Family::SeqTransform, seed).len() - prompt_tail(canary_text(id_text(Family::SeqTransform), seed)).len())
            == prompt_tail(canary_text(id_text(Family::SeqTransform), seed)),
{
    let p = prompt_of(Family::SeqTransform, seed);
    let t = prompt_tail(canary_text(id_text(Family::SeqTransform), seed));
    assert(p.skip(p.len() - t.len()) =~= t);
}

/// The `grid_reduce` prompt ends with the closing paragraph that names the canary.
proof fn lemma_tail_grid_reduce(seed: u64)
    ensures
        prompt_of(Family::GridReduce, seed).len() >= prompt_tail(canary_text(id_text(Family::GridReduce), seed)).len(),
        prompt_of(Family::GridReduce, seed).skip(prompt_of(Family::GridReduce, seed).len() - prompt_tail(canary_text(id_text(Family::GridReduce), seed)).len())
            == prompt_tail(canary_text(id_text(Family::GridReduce), seed)),
{
    let p = prompt_of(Family::GridReduce, seed);
    let t = prompt_tail(canary_text(id_text(Family::GridReduce), seed));
    assert(p.skip(p.len() - t.len()) =~= t);
}

/// The `traits_generics` prompt ends with the closing paragraph that names the canary.
proof fn lemma_tail_traits_generics(seed: u64)
    ensures
        prompt_of(Family::TraitImpl, seed).len() >= prompt_tail(canary_text(id_text(Family::TraitImpl), seed)).len(),
        prompt_of(Family::TraitImpl, seed).skip(prompt_of(Family::TraitImpl, seed).len() - prompt_tail(canary_text(id_text(Family::TraitImpl), seed)).len())
            == prompt_tail(canary_text(id_text(Family::TraitImpl), seed)),
{
    let p = prompt_of(Family::TraitImpl, seed);
    let t = prompt_tail(canary_text(id_text(Family::TraitImpl), seed));
    assert(p.skip(p.len() - t.len()) =~= t);
}

/// The `bit_manipulation` prompt ends with the closing paragraph that names the canary.
proof fn lemma_tail_bit_manipulation(seed: u64)
    ensures
        prompt_of(Family::BitOps, seed).len() >= prompt_tail(canary_text(id_text(Family::BitOps), seed)).len(),
        prompt_of(Family::BitOps, seed).skip(prompt_of(Family::BitOps, seed).len() - prompt_tail(canary_text(id_text(Family::BitOps), seed)).len())
            == prompt_tail(canary_text(id_text(Family::BitOps), seed)),
{
    let p = prompt_of(Family::BitOps, seed);
    let t = prompt_tail(canary_text(id_text(Family::BitOps), seed));
    assert(p.skip(p.len() - t.len()) =~= t);
}

/// The `unsafe_core` prompt ends with the closing paragraph that names the canary.
proof fn lemma_tail_unsafe_core(seed: u64)
    ensures
        prompt_of(Family::RawPtr, seed).len() >= prompt_tail(canary_text(id_text(Family::RawPtr), seed)).len(),
        prompt_of(Family::RawPtr, seed).skip(prompt_of(Family::RawPtr, seed).len() - prompt_tail(canary_text(id_text(Family::RawPtr), seed)).len())
            == prompt_tail(canary_text(id_text(Family::RawPtr), seed)),
{
    let p = prompt_of(Family::RawPtr, seed);
    let t = prompt_tail(canary_text(id_text(Family::RawPtr), seed));
    assert(p.skip(p.len() - t.len()) =~= t);
}

/// The `string_processing` prompt ends with the closing paragraph that names the canary.
proof fn lemma_tail_string_processing(seed: u64)
    ensures
        prompt_of(Family::StrTransform, seed).len() >= prompt_tail(canary_text(id_text(Family::StrTransform), seed)).len(),
        prompt_of(Family::StrTransform, seed).skip(prompt_of(Family::StrTransform, seed).len() - prompt_tail(canary_text(id_text(Family::StrTransform), seed)).len())
            == prompt_tail(canary_text(id_text(Family::StrTransform), seed)),
{
    let p = prompt_of(Family::StrTransform, seed);
    let t = prompt_tail(canary_text(id_text(Family::StrTransform), seed));
    assert(p.skip(p.len() - t.len()) =~= t);
}

/// The `dual_region` prompt ends with the closing paragraph that names the canary.
proof fn lemma_tail_dual_region(seed: u64)
    ensures
        prompt_of(Family::DualRegion, seed).len() >= prompt_tail(canary_text(id_text(Family::DualRegion), seed)).len(),
        prompt_of(Family::DualRegion, seed).skip(prompt_of(Family::DualRegion, seed).len() - prompt_tail(canary_text(id_text(Family::DualRegion), seed)).len())
            == prompt_tail(canary_text(id_text(Family::DualRegion), seed)),
{
    let p = prompt_of(Family::DualRegion, seed);
    let t = prompt_tail(canary_text(id_text(Family::DualRegion), seed));
    assert(p.skip(p.len() - t.len()) =~= t);
}

/// The `generic_select` prompt ends with the closing paragraph that names the canary.
proof fn lemma_tail_generic_select(seed: u64)
    ensures
        prompt_of(Family::GenericSelect, seed).len() >= prompt_tail(canary_text(id_text(Family::GenericSelect), seed)).len(),
        prompt_of(Family::GenericSelect, seed).skip(prompt_of(Family::GenericSelect, seed).len() - prompt_tail(canary_text(id_text(Family::GenericSelect), seed)).len())
            == prompt_tail(canary_text(id_text(Family::GenericSelect), seed)),
{
    let p = prompt_of(Family::GenericSelect, seed);
    let t = prompt_tail(canary_text(id_text(Family::GenericSelect), seed));
    assert(p.skip(p.len() - t.len()) =~= t);
}

/// The `checked_eval` prompt ends with the closing paragraph that names the canary.
proof fn lemma_tail_checked_eval(seed: u64)
    ensures
        prompt_of(Family::CheckedEval, seed).len() >= prompt_tail(canary_text(id_text(Family::CheckedEval), seed)).len(),
        prompt_of(Family::CheckedEval, seed).skip(prompt_of(Family::CheckedEval, seed).len() - prompt_tail(canary_text(id_text(Family::CheckedEval), seed)).len())
            == prompt_tail(canary_text(id_text(Family::CheckedEval), seed)),
{
    let p = prompt_of(Family::CheckedEval, seed);
    let t = prompt_tail(canary_text(id_text(Family::CheckedEval), seed));
    assert(p.skip(p.len() - t.len()) =~= t);
}

/// The `idiom_refactor` prompt ends with the closing paragraph that names the canary.
proof fn lemma_tail_idiom_refactor(seed: u64)
    ensures
        prompt_of(Family::IdiomLoop, seed).len() >= prompt_tail(canary_text(id_text(Family::IdiomLoop), seed)).len(),
        prompt_of(Family::IdiomLoop, seed).skip(prompt_of(Family::IdiomLoop, seed).len() - prompt_tail(canary_text(id_text(Family::IdiomLoop), seed)).len())
            == prompt_tail(canary_text(id_text(Family::IdiomLoop), seed)),
{
    let p = prompt_of(Family::IdiomLoop, seed);
    let t = prompt_tail(canary_text(id_text(Family::IdiomLoop), seed));
    assert(p.skip(p.len() - t.len()) =~= t);
}

/// Every prompt ends with the closing paragraph that names the canary.
pub proof fn lemma_prompt_ends_with_tail(f: Family, seed: u64)
    ensures
        prompt_of(f, seed).len() >= prompt_tail(canary_text(id_text(f), seed)).len(),
        prompt_of(f, seed).skip(prompt_of(f, seed).len() - prompt_tail(canary_text(id_text(f), seed)).len())
            == prompt_tail(canary_text(id_text(f), seed)),
{
    match f {
        Family::WindowOp => lemma_tail_window_op(seed),
        Family::ErrorHandling => lemma_tail_error_handling(seed),
        Family::StackMachine => lemma_tail_stack_machine(seed),
        Family::SeqTransform => lemma_tail_seq_transform(seed),
        Family::GridReduce => lemma_tail_grid_reduce(seed),
        Family::TraitImpl => lemma_tail_traits_generics(seed),
        Family::BitOps => lemma_tail_bit_manipulation(seed),
        Family::RawPtr => lemma_tail_unsafe_core(seed),
        Family::StrTransform => lemma_tail_string_processing(seed),
        Family::DualRegion => lemma_tail_dual_region(seed),
        Family::GenericSelect => lemma_tail_generic_select(seed),
        Family::CheckedEval => lemma_tail_checked_eval(seed),
        Family::IdiomLoop => lemma_tail_idiom_refactor(seed),
    }
}

/// A text that ends with the closing paragraph names the canary in it.
pub proof fn lemma_tail_names_canary(p: Seq<char>, c: Seq<char>)
    requires
        p.len() >= prompt_tail(c).len(),
        p.skip(p.len() - prompt_tail(c).len()) == prompt_tail(c),
    ensures
        occurs_in(c, p),
{
    let t = prompt_tail(c);
    let head = "Return the complete contents of `src/lib.rs` as a single ```rust code block. (ref: "@;
    assert(t == head + c + ")\n"@);
    let i = p.len() - t.len() + head.len();
    assert(p.subrange(i, i + c.len()) =~= c) by {
        assert forall|k: int| 0 <= k < c.len() implies #[trigger] p.subrange(i, i + c.len())[k] == c[k] by {
            assert(p.skip(p.len() - t.len())[head.len() + k] == t[head.len() + k]);
        }
    }
}

/// Every family's prompt carries the instance's canary, so a later sighting
/// of the canary in a public corpus points at this prompt.
pub proof fn law_prompt_carries_canary(f: Family, seed: u64)
    ensures
        occurs_in(canary_text(id_text(f), seed), prompt_of(f, seed)),
{
    lemma_prompt_ends_with_tail(f, seed);
    lemma_tail_names_canary(prompt_of(f, seed), canary_text(id_text(f), seed));
}


// ---- diversity -------------------------------------------------------------

/// `x` inserted before the first element of `s` that is not below it.
pub open spec fn insert_lex(s: Seq<Seq<char>>, x: Seq<char>) -> Seq<Seq<char>>
    decreases s.len(),
{
    if s.len() == 0 {
        seq![x]
    } else if lex_lt(s[0], x) {
        seq![s[0]] + insert_lex(s.drop_first(), x)
    } else {
        seq![x] + s
    }
}

/// The tokens in `str` order (insertion sort).
pub open spec fn sort_lex(s: Seq<Seq<char>>) -> Seq<Seq<char>>
    decreases s.len(),
{
    if s.len() == 0 { Seq::empty() } else { insert_lex(sort_lex(s.drop_last()), s.last()) }
}

/// The tokens joined by `|`.
pub open spec fn joined(s: Seq<Seq<char>>) -> Seq<char>
    decreases s.len(),
{
    if s.len() == 0 {
        Seq::empty()
    } else if s.len() == 1 {
        s[0]
    } else {
        joined(s.drop_last()) + "|"@ + s.last()
    }
}

/// What two seeds share when they test the same skill: the sorted, joined
/// signature.
pub open spec fn signature_key(f: Family, seed: u64) -> Seq<char> {
    joined(sort_lex(signature_of(f, seed)))
}

/// The distinct signature keys of the seeds below `upto`.
pub open spec fn keys_upto(f: Family, upto: u64) -> Set<Seq<char>> {
    Set::new(|k: Seq<char>| exists|t: u64| t < upto && k == #[trigger] signature_key(f, t))
}

proof fn lemma_insert_lex_at(s: Seq<Seq<char>>, x: Seq<char>, i: int)
    requires
        0 <= i <= s.len(),
        forall|k: int| 0 <= k < i ==> lex_lt(#[trigger] s[k], x),
        i < s.len() ==> !lex_lt(s[i], x),
    ensures
        insert_lex(s, x) == s.take(i) + seq![x] + s.skip(i),
    decreases i,
{
    if i == 0 {
        if s.len() > 0 {
            assert(seq![x] + s =~= s.take(0) + seq![x] + s.skip(0));
        } else {
            assert(seq![x] =~= s.take(0) + seq![x] + s.skip(0));
        }
    } else {
        let r = s.drop_first();
        assert forall|k: int| 0 <= k < i - 1 implies lex_lt(#[trigger] r[k], x) by {
            assert(r[k] == s[k + 1]);
        }
        if i < s.len() {
            assert(r[i - 1] == s[i]);
        }
        lemma_insert_lex_at(r, x, i - 1);
        assert(lex_lt(s[0], x));
        assert(seq![s[0]] + (r.take(i - 1) + seq![x] + r.skip(i - 1)) =~= s.take(i) + seq![x] + s.skip(i));
    }
}

/// Inserts `x` into the sorted tokens, as `insert_lex` says.
fn insert_token(v: &mut Vec<String>, x: String)
    ensures
        string_views(final(v)@) == insert_lex(string_views(old(v)@), x@),
{
    let ghost s = string_views(v@);
    let xv = chars_of(x.as_str());
    let mut i: usize = 0;
    while i < v.len() && lex_less(&chars_of(v[i].as_str()), &xv)
        invariant
            i <= v.len(),
            s == string_views(v@),
            xv@ == x@,
            forall|k: int| 0 <= k < i ==> lex_lt(#[trigger] s[k], x@),
        decreases v.len() - i,
    {
        i = i + 1;
    }
    proof {
        lemma_insert_lex_at(s, x@, i as int);
    }
    let ghost xs = x@;
    v.insert(i, x);
    assert(string_views(v@) =~= s.take(i as int) + seq![xs] + s.skip(i as int));
}

/// The tokens in `str` order.
pub fn sort_tokens(tokens: &Vec<String>) -> (r: Vec<String>)
    ensures
        string_views(r@) == sort_lex(string_views(tokens@)),
{
    let ghost t = string_views(tokens@);
    let mut r: Vec<String> = Vec::new();
    let mut i: usize = 0;
    assert(t.take(0) =~= Seq::<Seq<char>>::empty());
    while i < tokens.len()
        invariant
            i <= tokens.len(),
            t == string_views(tokens@),
            string_views(r@) == sort_lex(t.take(i as int)),
        decreases tokens.len() - i,
    {
        insert_token(&mut r, String::from_str(tokens[i].as_str()));
        assert(t.take(i + 1).drop_last() =~= t.take(i as int));
        i = i + 1;
    }
    assert(t.take(tokens.len() as int) =~= t);
    r
}

/// The tokens joined by `|`.
pub fn join_tokens(tokens: &Vec<String>) -> (r: String)
    ensures
        r@ == joined(string_views(tokens@)),
{
    let ghost t = string_views(tokens@);
    let mut r = String::new();
    let mut i: usize = 0;
    assert(t.take(0) =~= Seq::<Seq<char>>::empty());
    while i < tokens.len()
        invariant
            i <= tokens.len(),
            t == string_views(tokens@),
            r@ == joined(t.take(i as int)),
        decreases tokens.len() - i,
    {
        if i > 0 {
            push_str(&mut r, "|");
        }
        push_str(&mut r, tokens[i].as_str());
        assert(t.take(i + 1).drop_last() =~= t.take(i as int));
        i = i + 1;
    }
    assert(t.take(tokens.len() as int) =~= t);
    r
}

/// The number of distinct signatures among the seeds below `upto`: the
/// family's task diversity, which example data and names cannot inflate.
pub fn spec_diversity(f: Family, upto: u64) -> (r: usize)
    ensures
        r == keys_upto(f, upto).len(),
{
    let mut keys: Vec<String> = Vec::new();
    let mut s: u64 = 0;
    while s < upto
        invariant
            s <= upto,
            strictly_sorted(string_views(keys@)),
            forall|k: Seq<char>|
                string_views(keys@).contains(k) <==> exists|t: u64| t < s && k == #[trigger] signature_key(f, t),
        decreases upto - s,
    {
        let sig = f.spec_signature(s);
        let sorted = sort_tokens(&sig);
        let key = join_tokens(&sorted);
        assert(key@ == signature_key(f, s));
        let ghost before = string_views(keys@);
        insert_sorted(&mut keys, key);
        assert forall|k: Seq<char>|
            string_views(keys@).contains(k) <==> exists|t: u64| t < s + 1 && k == #[trigger] signature_key(f, t) by {
            if string_views(keys@).contains(k) {
                if before.contains(k) {
                    let t = choose|t: u64| t < s && k == signature_key(f, t);
                    assert(t < s + 1 && k == signature_key(f, t));
                } else {
                    assert(k == signature_key(f, s));
                }
            }
            if exists|t: u64| t < s + 1 && k == #[trigger] signature_key(f, t) {
                let t = choose|t: u64| t < s + 1 && k == signature_key(f, t);
                if t < s {
                    assert(before.contains(k));
                }
            }
        }
        s = s + 1;
    }
    proof {
        let kv = string_views(keys@);
        assert(kv.no_duplicates()) by {
            assert forall|i: int, j: int| 0 <= i < kv.len() && 0 <= j < kv.len() && i != j implies kv[i] != kv[j] by {
                if i < j {
                    assert(lex_lt(kv[i], kv[j]));
                    lemma_lex_irreflexive(kv[i]);
                } else {
                    assert(lex_lt(kv[j], kv[i]));
                    lemma_lex_irreflexive(kv[j]);
                }
            }
        }
        kv.unique_seq_to_set();
        assert(kv.to_set() =~= keys_upto(f, upto));
    }
    keys.len()
}

} // verus!
