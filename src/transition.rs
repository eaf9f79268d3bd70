//! Transition blocks: resolving the state each transition returns to,
//! checking the block, and planning the generated transition impls.
use vstd::prelude::*;
use crate::decl::{ImplDecl, MethodDecl, Receiver, TypeDecl};
use crate::diag::GenError;
use crate::model::{EnumInfo, MachineInfo, MachineModel, MachinePath, StateFilePath, StateModel, VariantInfo};
use crate::registry::{get_machine_metadata, lookup_state, Registry};
use crate::state::{has_variant_named, is_first_match, variant_name_matches};
use crate::text::str_eq;

verus! {

/// The state argument of `Machine<State>` when `ty` is exactly that shape
/// for the machine named `machine`.
pub open spec fn direct_state(ty: TypeDecl, machine: Seq<char>) -> Option<Seq<char>> {
    match ty {
        TypeDecl::Path { ident, args, .. } => if ident@ == machine && args@.len() == 1 {
            match args@[0] {
                TypeDecl::Path { ident: s, .. } => Some(s@),
                _ => None,
            }
        } else {
            None
        },
        _ => None,
    }
}

/// A path ending in `Option` or `Result`.
pub open spec fn is_wrapper(ident: Seq<char>) -> bool {
    ident == "Option"@ || ident == "Result"@
}

/// The state that a declared return type leads to: `Machine<S>`, or one
/// layer of `Option<..>` / `Result<.., E>` around it. Deeper nesting does
/// not resolve.
pub open spec fn resolved_state(ty: TypeDecl, machine: Seq<char>) -> Option<Seq<char>> {
    match ty {
        TypeDecl::Path { ident, args, .. } => if ident@ == machine {
            direct_state(ty, machine)
        } else if is_wrapper(ident@) && args@.len() > 0 {
            direct_state(args@[0], machine)
        } else {
            None
        },
        _ => None,
    }
}

fn direct_state_of(ty: &TypeDecl, machine: &str) -> (r: Option<String>)
    ensures
        r is Some <==> direct_state(*ty, machine@) is Some,
        r matches Some(s) ==> direct_state(*ty, machine@) == Some(s@),
{
    match ty {
        TypeDecl::Path { ident, args, .. } => {
            if str_eq(ident.as_str(), machine) && args.len() == 1 {
                match &args[0] {
                    TypeDecl::Path { ident: s, .. } => Some(s.clone()),
                    _ => None,
                }
            } else {
                None
            }
        },
        _ => None,
    }
}

/// Resolves a declared return type against the machine named
/// `target_machine_ident`, giving the machine's name and the state's.
pub fn parse_machine_and_state(ty: &TypeDecl, target_machine_ident: &str) -> (r: Option<
    (String, String),
>)
    ensures
        r is Some <==> resolved_state(*ty, target_machine_ident@) is Some,
        r matches Some((m, s)) ==> m@ == target_machine_ident@ && resolved_state(
            *ty,
            target_machine_ident@,
        ) == Some(s@),
{
    let state = match ty {
        TypeDecl::Path { ident, args, .. } => {
            if str_eq(ident.as_str(), target_machine_ident) {
                direct_state_of(ty, target_machine_ident)
            } else if (str_eq(ident.as_str(), "Option") || str_eq(ident.as_str(), "Result")) && args.len()
                > 0 {
                direct_state_of(&args[0], target_machine_ident)
            } else {
                None
            }
        },
        _ => None,
    };
    match state {
        Some(s) => Some((String::from_str(target_machine_ident), s)),
        None => None,
    }
}

/// Some variant of `vs` has exactly the name `n`.
pub open spec fn has_exact_variant(vs: Seq<VariantInfo>, n: Seq<char>) -> bool {
    exists|i: int| 0 <= i < vs.len() && (#[trigger] vs[i]).name@ == n
}

fn exact_variant(vs: &Vec<VariantInfo>, n: &str) -> (r: bool)
    ensures
        r == has_exact_variant(vs@, n@),
{
    let mut i: usize = 0;
    while i < vs.len()
        invariant
            i <= vs@.len(),
            forall|j: int| 0 <= j < i ==> (#[trigger] vs@[j]).name@ != n@,
        decreases vs@.len() - i,
    {
        if str_eq(vs[i].name.as_str(), n) {
            return true;
        }
        i = i + 1;
    }
    false
}

/// Checks that a transition block's self type is the machine registered
/// under `file_path`, in one of the variants of the state registered there.
pub fn validate_machine_and_state(tr_impl: &ImplDecl, file_path: &str, registry: &Registry) -> (r:
    Option<GenError>)
    ensures
        ({
            let has_m = registry.machines@.contains_key(file_path@);
            let has_s = registry.states@.contains_key(file_path@);
            let m = registry.machines@[file_path@];
            let s = registry.states@[file_path@];
            let target = direct_state(tr_impl.self_ty, m.name);
            &&& r is None <==> has_m && has_s && target is Some && has_exact_variant(
                s.variants,
                target->0,
            )
            &&& (r matches Some(GenError::MachineNotFound { .. })) <==> !has_m
            &&& (r matches Some(GenError::StateNotFound { .. })) <==> has_m && !has_s
            &&& r matches Some(GenError::InvalidStateVariant { state, state_enum }) ==> has_m && has_s
                && state_enum@ == s.name && (state is None <==> target is None) && (state matches Some(
                n) ==> target == Some(n@) && !has_exact_variant(s.variants, n@))
            &&& r is Some ==> r matches Some(GenError::MachineNotFound { .. }) || r matches Some(
                GenError::StateNotFound { .. },
            ) || r matches Some(GenError::InvalidStateVariant { .. })
        }),
{
    let machine = match get_machine_metadata(registry, &MachinePath(String::from_str(file_path))) {
        Some(m) => m,
        None => {
            return Some(GenError::MachineNotFound { scope: String::from_str(file_path) });
        },
    };
    let state = match lookup_state(registry, &StateFilePath(String::from_str(file_path))) {
        Some(s) => s,
        None => {
            return Some(GenError::StateNotFound { scope: String::from_str(file_path) });
        },
    };
    match direct_state_of(&tr_impl.self_ty, machine.name.as_str()) {
        Some(n) => {
            if exact_variant(&state.variants, n.as_str()) {
                None
            } else {
                Some(GenError::InvalidStateVariant { state: Some(n), state_enum: state.name.clone() })
            }
        },
        None => Some(GenError::InvalidStateVariant { state: None, state_enum: state.name.clone() }),
    }
}

/// The receiver is `self` or `mut self`.
pub open spec fn receiver_ok(r: Receiver) -> bool {
    r matches Receiver::Value || r matches Receiver::MutValue
}

/// The return type of `f` resolves to a variant of `vs`.
pub open spec fn return_ok(f: MethodDecl, machine: Seq<char>, vs: Seq<VariantInfo>) -> bool {
    match f.output {
        Some(t) => match resolved_state(t, machine) {
            Some(s) => has_variant_named(vs, s),
            None => false,
        },
        None => false,
    }
}

/// A transition function is acceptable.
pub open spec fn transition_fn_ok(f: MethodDecl, machine: Seq<char>, vs: Seq<VariantInfo>) -> bool {
    receiver_ok(f.receiver) && return_ok(f, machine, vs)
}

/// `i` is the first unacceptable function of `fs`.
pub open spec fn first_bad_fn(fs: Seq<MethodDecl>, machine: Seq<char>, vs: Seq<VariantInfo>, i: int) -> bool {
    &&& 0 <= i < fs.len()
    &&& !transition_fn_ok(fs[i], machine, vs)
    &&& forall|j: int| 0 <= j < i ==> transition_fn_ok(#[trigger] fs[j], machine, vs)
}

fn receiver_is_value(r: &Receiver) -> (b: bool)
    ensures
        b == receiver_ok(*r),
{
    match r {
        Receiver::Value => true,
        Receiver::MutValue => true,
        _ => false,
    }
}

/// The variant a transition function returns to, when it resolves.
fn return_variant(f: &MethodDecl, machine: &MachineInfo, state: &EnumInfo) -> (r: Option<VariantInfo>)
    ensures
        r is Some <==> return_ok(*f, machine.name@, state.variants@),
        r matches Some(v) ==> exists|i: int|
            is_first_match(state.variants@, resolved_state(f.output->0, machine.name@)->0, i) && v
                == #[trigger] state.variants@[i],
{
    match &f.output {
        Some(t) => match parse_machine_and_state(t, machine.name.as_str()) {
            Some((_, s)) => match state.get_variant_from_name(s.as_str()) {
                Some(v) => Some(v.clone()),
                None => None,
            },
            None => None,
        },
        None => None,
    }
}

/// Checks every function of a transition block: there is at least one, each
/// takes `self` or `mut self`, and each returns the machine (at most one
/// `Option`/`Result` layer deep) in a variant of `state`. The first function
/// that fails is reported.
pub fn validate_transition_functions(functions: &Vec<MethodDecl>, machine: &MachineInfo, state: &EnumInfo) -> (r:
    Option<GenError>)
    ensures
        r is None <==> functions@.len() > 0 && forall|i: int|
            0 <= i < functions@.len() ==> transition_fn_ok(
                #[trigger] functions@[i],
                machine.name@,
                state.variants@,
            ),
        (r matches Some(GenError::NoTransitionMethods)) <==> functions@.len() == 0,
        r matches Some(GenError::NotAMethod { func }) ==> exists|i: int|
            first_bad_fn(functions@, machine.name@, state.variants@, i) && !receiver_ok(
                (#[trigger] functions@[i]).receiver,
            ) && func@ == functions@[i].name@,
        r matches Some(GenError::UnresolvedReturn { func }) ==> exists|i: int|
            first_bad_fn(functions@, machine.name@, state.variants@, i) && receiver_ok(
                (#[trigger] functions@[i]).receiver,
            ) && func@ == functions@[i].name@,
        r is Some ==> r matches Some(GenError::NoTransitionMethods) || r matches Some(
            GenError::NotAMethod { .. },
        ) || r matches Some(GenError::UnresolvedReturn { .. }),
{
    if functions.len() == 0 {
        return Some(GenError::NoTransitionMethods);
    }
    let mut i: usize = 0;
    while i < functions.len()
        invariant
            functions@.len() > 0,
            i <= functions@.len(),
            forall|j: int|
                0 <= j < i ==> transition_fn_ok(#[trigger] functions@[j], machine.name@, state.variants@),
        decreases functions@.len() - i,
    {
        let f = &functions[i];
        if !receiver_is_value(&f.receiver) {
            return Some(GenError::NotAMethod { func: f.name.clone() });
        }
        if return_variant(f, machine, state).is_none() {
            return Some(GenError::UnresolvedReturn { func: f.name.clone() });
        }
        i = i + 1;
    }
    None
}

/// One transition function and the variant it moves the machine to. A
/// target without payload is reached through `TransitionTo`; one with a
/// payload through `TransitionWith`, which takes the payload.
pub struct TransitionFnPlan {
    pub name: String,
    pub target: VariantInfo,
}

/// What is generated for one transition block.
pub struct TransitionPlan {
    pub machine: String,
    /// The variant the block's functions start from.
    pub source: VariantInfo,
    pub functions: Vec<TransitionFnPlan>,
    /// The targets, each name once, in order of first appearance: one
    /// interface impl is generated for each.
    pub targets: Vec<VariantInfo>,
}

/// The names of `vs` are pairwise distinct.
pub open spec fn distinct_names(vs: Seq<VariantInfo>) -> bool {
    forall|i: int, j: int| 0 <= i < vs.len() && 0 <= j < vs.len() && i != j ==> vs[i].name@ != vs[j].name@
}

fn find_exact(vs: &Vec<VariantInfo>, n: &str) -> (r: VariantInfo)
    requires
        has_exact_variant(vs@, n@),
    ensures
        r.name@ == n@,
        exists|i: int| 0 <= i < vs@.len() && r == #[trigger] vs@[i],
{
    let mut i: usize = 0;
    while i < vs.len()
        invariant
            i <= vs@.len(),
            has_exact_variant(vs@, n@),
            forall|j: int| 0 <= j < i ==> (#[trigger] vs@[j]).name@ != n@,
        decreases vs@.len() - i,
    {
        if str_eq(vs[i].name.as_str(), n) {
            return vs[i].clone();
        }
        i = i + 1;
    }
    proof {
        let k = choose|k: int| 0 <= k < vs@.len() && (#[trigger] vs@[k]).name@ == n@;
        assert(vs@[k].name@ != n@);
    }
    vs[0].clone()
}

/// Some function of the block calls `get_data_mut`.
pub open spec fn uses_data_mut(fs: Seq<MethodDecl>) -> bool {
    exists|i: int| 0 <= i < fs.len() && (#[trigger] fs[i]).calls_data_mut
}

/// A block that calls `get_data_mut` needs `Clone` on the machine and on
/// the state.
pub open spec fn data_mut_ok(fs: Seq<MethodDecl>, machine: MachineModel, state: StateModel) -> bool {
    uses_data_mut(fs) ==> machine.derives.contains("Clone"@) && state.derives.contains("Clone"@)
}

fn any_data_mut(fs: &Vec<MethodDecl>) -> (r: bool)
    ensures
        r == uses_data_mut(fs@),
{
    let mut i: usize = 0;
    while i < fs.len()
        invariant
            i <= fs@.len(),
            forall|j: int| 0 <= j < i ==> !(#[trigger] fs@[j]).calls_data_mut,
        decreases fs@.len() - i,
    {
        if fs[i].calls_data_mut {
            return true;
        }
        i = i + 1;
    }
    false
}

fn has_clone(derives: &Vec<String>) -> (r: bool)
    ensures
        r == derives@.map_values(|d: String| d@).contains("Clone"@),
{
    let ghost view = derives@.map_values(|d: String| d@);
    let mut i: usize = 0;
    while i < derives.len()
        invariant
            view == derives@.map_values(|d: String| d@),
            i <= derives@.len(),
            forall|j: int| 0 <= j < i ==> view[j] != "Clone"@,
        decreases derives@.len() - i,
    {
        if str_eq(derives[i].as_str(), "Clone") {
            assert(view[i as int] == "Clone"@);
            return true;
        }
        i = i + 1;
    }
    false
}

/// Checks a transition block registered under `file_path` and plans its
/// code. Each function's target is the first variant named by its return
/// type; the targets list each such variant once.
pub fn generate_transition_impl(tr_impl: &ImplDecl, file_path: &str, registry: &Registry) -> (r: Result<
    TransitionPlan,
    GenError,
>)
    ensures
        ({
            let m = registry.machines@[file_path@];
            let s = registry.states@[file_path@];
            let fs = tr_impl.methods@;
            let ok = registry.machines@.contains_key(file_path@) && registry.states@.contains_key(file_path@)
                && direct_state(tr_impl.self_ty, m.name) is Some && has_exact_variant(
                s.variants,
                direct_state(tr_impl.self_ty, m.name)->0,
            ) && fs.len() > 0 && forall|i: int|
                0 <= i < fs.len() ==> transition_fn_ok(#[trigger] fs[i], m.name, s.variants);
            &&& r is Ok <==> ok && data_mut_ok(fs, m, s)
            &&& (r matches Err(GenError::DataMutNeedsMachineClone)) <==> ok && uses_data_mut(fs)
                && !m.derives.contains("Clone"@)
            &&& (r matches Err(GenError::DataMutNeedsStateClone)) <==> ok && uses_data_mut(fs)
                && m.derives.contains("Clone"@) && !s.derives.contains("Clone"@)
            &&& r matches Ok(plan) ==> {
                &&& plan.machine@ == m.name
                &&& plan.source.name@ == direct_state(tr_impl.self_ty, m.name)->0
                &&& has_exact_variant(s.variants, plan.source.name@)
                &&& plan.functions@.len() == fs.len()
                &&& forall|i: int|
                    0 <= i < fs.len() ==> (#[trigger] plan.functions@[i]).name@ == fs[i].name@ && exists|
                        k: int,
                    |
                        is_first_match(s.variants, resolved_state(fs[i].output->0, m.name)->0, k)
                            && plan.functions@[i].target == s.variants[k]
                &&& distinct_names(plan.targets@)
                &&& forall|i: int|
                    0 <= i < fs.len() ==> exists|j: int|
                        0 <= j < plan.targets@.len() && plan.targets@[j].name@ == (
                        #[trigger] plan.functions@[i]).target.name@
                &&& forall|j: int|
                    0 <= j < plan.targets@.len() ==> exists|i: int|
                        0 <= i < fs.len() && (#[trigger] plan.targets@[j]) == plan.functions@[i].target
            }
        }),
{
    match validate_machine_and_state(tr_impl, file_path, registry) {
        Some(e) => {
            return Err(e);
        },
        None => {},
    }
    let machine = get_machine_metadata(registry, &MachinePath(String::from_str(file_path))).unwrap();
    let state = lookup_state(registry, &StateFilePath(String::from_str(file_path))).unwrap();
    match validate_transition_functions(&tr_impl.methods, &machine, &state) {
        Some(e) => {
            return Err(e);
        },
        None => {},
    }
    if any_data_mut(&tr_impl.methods) {
        if !has_clone(&machine.derives) {
            return Err(GenError::DataMutNeedsMachineClone);
        }
        if !has_clone(&state.derives) {
            return Err(GenError::DataMutNeedsStateClone);
        }
    }
    let source_name = direct_state_of(&tr_impl.self_ty, machine.name.as_str()).unwrap();
    let source = find_exact(&state.variants, source_name.as_str());
    let fs = &tr_impl.methods;
    let mut functions: Vec<TransitionFnPlan> = Vec::new();
    let mut targets: Vec<VariantInfo> = Vec::new();
    let mut i: usize = 0;
    while i < fs.len()
        invariant
            machine@ == registry.machines@[file_path@],
            state@ == registry.states@[file_path@],
            forall|k: int| 0 <= k < fs@.len() ==> transition_fn_ok(#[trigger] fs@[k], machine.name@, state.variants@),
            fs == &tr_impl.methods,
            i <= fs@.len(),
            functions@.len() == i,
            forall|k: int|
                0 <= k < i ==> (#[trigger] functions@[k]).name@ == fs@[k].name@ && exists|q: int|
                    is_first_match(state.variants@, resolved_state(fs@[k].output->0, machine.name@)->0, q)
                        && functions@[k].target == state.variants@[q],
            distinct_names(targets@),
            forall|k: int|
                0 <= k < i ==> exists|j: int|
                    0 <= j < targets@.len() && targets@[j].name@ == (#[trigger] functions@[k]).target.name@,
            forall|j: int|
                0 <= j < targets@.len() ==> exists|k: int|
                    0 <= k < i && (#[trigger] targets@[j]) == functions@[k].target,
        decreases fs@.len() - i,
    {
        assert(transition_fn_ok(fs@[i as int], machine.name@, state.variants@));
        let target = return_variant(&fs[i], &machine, &state).unwrap();
        let mut t: usize = 0;
        let mut seen = false;
        while t < targets.len()
            invariant
                t <= targets@.len(),
                !seen ==> forall|j: int| 0 <= j < t ==> (#[trigger] targets@[j]).name@ != target.name@,
                seen ==> exists|j: int| 0 <= j < targets@.len() && (#[trigger] targets@[j]).name@ == target.name@,
            decreases targets@.len() - t,
        {
            if !seen && str_eq(targets[t].name.as_str(), target.name.as_str()) {
                seen = true;
            }
            t = t + 1;
        }
        let ghost old_targets = targets@;
        let ghost old_functions = functions@;
        functions.push(TransitionFnPlan { name: fs[i].name.clone(), target: target.clone() });
        if !seen {
            targets.push(target);
        }
        proof {
            assert forall|k: int| 0 <= k < i + 1 implies exists|j: int|
                0 <= j < targets@.len() && targets@[j].name@ == (#[trigger] functions@[k]).target.name@ by {
                if k < i {
                    assert(functions@[k] == old_functions[k]);
                    let j = choose|j: int|
                        0 <= j < old_targets.len() && old_targets[j].name@ == (#[trigger] old_functions[k]).target.name@;
                    assert(targets@[j] == old_targets[j]);
                } else if seen {
                    let j = choose|j: int| 0 <= j < targets@.len() && (#[trigger] targets@[j]).name@ == target.name@;
                    assert(targets@[j].name@ == functions@[k].target.name@);
                } else {
                    assert(targets@[old_targets.len() as int].name@ == functions@[k].target.name@);
                }
            }
            assert forall|j: int| 0 <= j < targets@.len() implies exists|k: int|
                0 <= k < i + 1 && (#[trigger] targets@[j]) == functions@[k].target by {
                if j < old_targets.len() {
                    assert(targets@[j] == old_targets[j]);
                    let k = choose|k: int| 0 <= k < i && (#[trigger] old_targets[j]) == old_functions[k].target;
                    assert(functions@[k] == old_functions[k]);
                } else {
                    assert(targets@[j] == functions@[i as int].target);
                }
            }
            assert forall|p: int, q: int|
                0 <= p < targets@.len() && 0 <= q < targets@.len() && p != q implies targets@[p].name@
                != targets@[q].name@ by {
                if p < old_targets.len() && q < old_targets.len() {
                    assert(targets@[p] == old_targets[p]);
                    assert(targets@[q] == old_targets[q]);
                } else if p < old_targets.len() {
                    assert(targets@[p] == old_targets[p]);
                } else {
                    assert(targets@[q] == old_targets[q]);
                }
            }
            assert forall|k: int| 0 <= k < i + 1 implies (#[trigger] functions@[k]).name@ == fs@[k].name@
                && exists|q: int|
                is_first_match(state.variants@, resolved_state(fs@[k].output->0, machine.name@)->0, q)
                    && functions@[k].target == state.variants@[q] by {
                if k < i {
                    assert(functions@[k] == old_functions[k]);
                }
            }
        }
        i = i + 1;
    }
    let machine_name = machine.name.clone();
    Ok(TransitionPlan { machine: machine_name, source, functions, targets })
}

} // verus!
