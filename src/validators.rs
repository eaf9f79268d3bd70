//! Validators blocks: each predicate `is_<variant>` recognises one variant
//! of the paired state. The block is checked for exact coverage and
//! matching payloads, and the classification code is planned.
use vstd::prelude::*;
use crate::decl::{ImplDecl, MethodDecl, Receiver, TypeDecl};
use crate::diag::GenError;
use crate::model::{MachineField, MachineName, MachinePath, StateEnumName, StateFilePath, VariantInfo};
use crate::naming::{
    accessor_name_of, batch_builder_name_of, batch_trait_name_of, snake_case, superstate_name_of,
    validator_name_of,
};
use crate::attr::ModelAttr;
use crate::registry::{get_machine_fields, get_machine_metadata, get_state_variants, lookup_state, Registry};
use crate::text::str_eq;

verus! {

/// The name of the predicate for the variant named `v`.
pub open spec fn predicate_name(v: Seq<char>) -> Seq<char> {
    "is_"@ + snake_case(v)
}

/// Some method of `ms` is named `n`.
pub open spec fn has_method_named(ms: Seq<MethodDecl>, n: Seq<char>) -> bool {
    exists|j: int| 0 <= j < ms.len() && (#[trigger] ms[j]).name@ == n
}

/// The block declares the predicate of `v`.
pub open spec fn covered(ms: Seq<MethodDecl>, v: VariantInfo) -> bool {
    has_method_named(ms, predicate_name(v.name@))
}

/// `i` is the first variant of `vs` whose predicate the block lacks.
pub open spec fn first_uncovered(ms: Seq<MethodDecl>, vs: Seq<VariantInfo>, i: int) -> bool {
    &&& 0 <= i < vs.len()
    &&& !covered(ms, vs[i])
    &&& forall|j: int| 0 <= j < i ==> covered(ms, #[trigger] vs[j])
}

/// The name starts with `is_`, which marks a predicate.
pub open spec fn is_predicate_name(n: Seq<char>) -> bool {
    n.len() >= 3 && n.subrange(0, 3) == "is_"@
}

/// The name is the predicate of some variant of `vs`.
pub open spec fn known_predicate(n: Seq<char>, vs: Seq<VariantInfo>) -> bool {
    exists|i: int| 0 <= i < vs.len() && n == predicate_name((#[trigger] vs[i]).name@)
}

/// A type text without its spaces.
pub open spec fn no_spaces(s: Seq<char>) -> Seq<char> {
    s.filter(|c: char| c != ' ')
}

/// The success payload that the predicate of `v` must declare.
pub open spec fn expected_payload(v: VariantInfo) -> Seq<char> {
    match v.data_type {
        Some(t) => no_spaces(t@),
        None => "()"@,
    }
}

/// The text of a type.
pub open spec fn type_text(t: TypeDecl) -> Seq<char> {
    match t {
        TypeDecl::Path { text, .. } => text@,
        TypeDecl::Other { text } => text@,
    }
}

/// The declared return type is `Result<P, ..>` with `P` the expected payload.
pub open spec fn return_matches(f: MethodDecl, v: VariantInfo) -> bool {
    match f.output {
        Some(TypeDecl::Path { ident, args, .. }) => ident@ == "Result"@ && args@.len() > 0 && type_text(
            args@[0],
        ) == expected_payload(v),
        _ => false,
    }
}

/// The predicate `f` of variant `v` takes `&self` alone and returns the
/// variant's payload on success.
pub open spec fn predicate_ok(f: MethodDecl, v: VariantInfo) -> bool {
    &&& f.receiver matches Receiver::Ref
    &&& f.params@.len() == 0
    &&& return_matches(f, v)
}

/// Every predicate of the block has the signature its variant asks for.
pub open spec fn signatures_ok(ms: Seq<MethodDecl>, vs: Seq<VariantInfo>) -> bool {
    forall|i: int, j: int|
        0 <= i < vs.len() && 0 <= j < ms.len() && (#[trigger] ms[j]).name@ == predicate_name(
            (#[trigger] vs[i]).name@,
        ) ==> predicate_ok(ms[j], vs[i])
}

/// The whole block is acceptable for the variants `vs`.
pub open spec fn block_ok(ms: Seq<MethodDecl>, vs: Seq<VariantInfo>) -> bool {
    &&& ms.len() > 0
    &&& forall|i: int| 0 <= i < vs.len() ==> covered(ms, #[trigger] vs[i])
    &&& forall|j: int|
        0 <= j < ms.len() && is_predicate_name((#[trigger] ms[j]).name@) ==> known_predicate(
            ms[j].name@,
            vs,
        )
    &&& signatures_ok(ms, vs)
}

fn strip_spaces(s: &String) -> (r: String)
    ensures
        r@ == no_spaces(s@),
{
    let n = s.unicode_len();
    let mut r = String::new();
    let mut i: usize = 0;
    while i < n
        invariant
            n == s@.len(),
            i <= n,
            r@ == no_spaces(s@.subrange(0, i as int)),
        decreases n - i,
    {
        let c = s.as_str().get_char(i);
        proof {
            let next = s@.subrange(0, i + 1);
            assert(next.drop_last() =~= s@.subrange(0, i as int));
            reveal_with_fuel(Seq::filter, 1);
        }
        if c != ' ' {
            crate::text::push_char(&mut r, c);
        }
        i = i + 1;
    }
    assert(s@.subrange(0, n as int) =~= s@);
    r
}

fn starts_with_is(n: &String) -> (r: bool)
    ensures
        r == is_predicate_name(n@),
{
    proof {
        reveal_strlit("is_");
    }
    let len = n.as_str().unicode_len();
    if len < 3 {
        return false;
    }
    let a = n.as_str().get_char(0);
    let b = n.as_str().get_char(1);
    let c = n.as_str().get_char(2);
    let r = a == 'i' && b == 's' && c == '_';
    assert("is_"@.len() == 3 && "is_"@[0] == 'i' && "is_"@[1] == 's' && "is_"@[2] == '_');
    if r {
        assert(n@.subrange(0, 3) =~= "is_"@);
    } else {
        assert(n@.subrange(0, 3) != "is_"@) by {
            if n@.subrange(0, 3) == "is_"@ {
                assert(n@.subrange(0, 3)[0] == a);
                assert(n@.subrange(0, 3)[1] == b);
                assert(n@.subrange(0, 3)[2] == c);
            }
        }
    }
    r
}

fn has_method(ms: &Vec<MethodDecl>, name: &String) -> (r: Option<usize>)
    ensures
        r is Some <==> has_method_named(ms@, name@),
        r matches Some(j) ==> j < ms@.len() && ms@[j as int].name@ == name@,
{
    let mut j: usize = 0;
    while j < ms.len()
        invariant
            j <= ms@.len(),
            forall|k: int| 0 <= k < j ==> (#[trigger] ms@[k]).name@ != name@,
        decreases ms@.len() - j,
    {
        if str_eq(ms[j].name.as_str(), name.as_str()) {
            return Some(j);
        }
        j = j + 1;
    }
    None
}

fn is_known(n: &String, vs: &Vec<VariantInfo>) -> (r: bool)
    ensures
        r == known_predicate(n@, vs@),
{
    let mut i: usize = 0;
    while i < vs.len()
        invariant
            i <= vs@.len(),
            forall|k: int| 0 <= k < i ==> n@ != predicate_name((#[trigger] vs@[k]).name@),
        decreases vs@.len() - i,
    {
        let p = validator_name_of(vs[i].name.as_str());
        if str_eq(p.as_str(), n.as_str()) {
            return true;
        }
        i = i + 1;
    }
    false
}

fn text_of(t: &TypeDecl) -> (r: &String)
    ensures
        r@ == type_text(*t),
{
    match t {
        TypeDecl::Path { text, .. } => text,
        TypeDecl::Other { text } => text,
    }
}

/// Checks one predicate's signature against its variant.
fn check_predicate(f: &MethodDecl, v: &VariantInfo) -> (r: Option<GenError>)
    ensures
        r is None <==> predicate_ok(*f, *v),
        r matches Some(GenError::ValidatorReceiver { func }) ==> func@ == f.name@ && !(f.receiver matches Receiver::Ref),
        r matches Some(GenError::ValidatorArity { func }) ==> func@ == f.name@ && (f.receiver matches Receiver::Ref)
            && f.params@.len() != 0,
        r matches Some(GenError::ValidatorReturn { func, expected, .. }) ==> func@ == f.name@ && expected@
            == expected_payload(*v) && !return_matches(*f, *v),
        r matches Some(e) ==> e matches GenError::ValidatorReceiver { .. } || e matches GenError::ValidatorArity {
            ..
        } || e matches GenError::ValidatorReturn { .. },
{
    match f.receiver {
        Receiver::Ref => {},
        _ => {
            return Some(GenError::ValidatorReceiver { func: f.name.clone() });
        },
    }
    if f.params.len() != 0 {
        return Some(GenError::ValidatorArity { func: f.name.clone() });
    }
    let expected = match &v.data_type {
        Some(t) => strip_spaces(t),
        None => String::from_str("()"),
    };
    let ok = match &f.output {
        Some(TypeDecl::Path { ident, args, .. }) => str_eq(ident.as_str(), "Result") && args.len() > 0
            && str_eq(text_of(&args[0]).as_str(), expected.as_str()),
        _ => false,
    };
    if ok {
        None
    } else {
        let actual = match &f.output {
            Some(t) => text_of(t).clone(),
            None => String::new(),
        };
        Some(GenError::ValidatorReturn { func: f.name.clone(), expected, actual })
    }
}

/// One step of classification: run `predicate` and, on success, build the
/// machine in `variant` (with the returned payload when it has one).
pub struct CheckPlan {
    pub variant: String,
    pub predicate: String,
    pub accessor: String,
    pub data_type: Option<String>,
    pub is_async: bool,
}

/// What is generated for a validators block.
pub struct ValidatorPlan {
    pub machine: String,
    pub superstate: String,
    /// The machine's context fields, handed to every predicate.
    pub fields: Vec<MachineField>,
    /// The checks, in the state's declared variant order; the first that
    /// succeeds decides.
    pub checks: Vec<CheckPlan>,
    /// Whether the classification routine is asynchronous.
    pub is_async: bool,
    pub batch_trait: String,
    pub batch_builder: String,
}

/// `c` is the check planned for variant `v`.
pub open spec fn check_matches(c: CheckPlan, v: VariantInfo, ms: Seq<MethodDecl>) -> bool {
    &&& c.variant@ == v.name@
    &&& c.predicate@ == predicate_name(v.name@)
    &&& c.accessor@ == "try_to_"@ + snake_case(v.name@)
    &&& c.data_type == v.data_type
    &&& exists|j: int| 0 <= j < ms.len() && (#[trigger] ms[j]).name@ == c.predicate@ && ms[j].is_async == c.is_async
}

/// Checks the validators block `item` for the machine named `machine_ident`,
/// found under the scope key `scope`, and plans its code.
///
/// The block must declare exactly one predicate per variant of the paired
/// state. Where one is missing, the first variant without a predicate, in
/// declared order, is named.
pub fn parse_validators(machine_ident: &str, item: &ImplDecl, scope: &str, registry: &Registry) -> (r: Result<
    ValidatorPlan,
    GenError,
>)
    ensures
        ({
            let has_m = registry.machines@.contains_key(scope@);
            let has_s = registry.states@.contains_key(scope@);
            let m = registry.machines@[scope@];
            let vs = registry.states@[scope@].variants;
            let ms = item.methods@;
            &&& r is Ok <==> has_m && has_s && block_ok(ms, vs)
            &&& (r matches Err(GenError::MachineNotFound { .. })) <==> !has_m
            &&& (r matches Err(GenError::StateNotFound { .. })) <==> has_m && !has_s
            &&& (r matches Err(GenError::NoValidators)) <==> has_m && has_s && ms.len() == 0
            &&& (has_m && has_s && ms.len() > 0 && exists|i: int|
                0 <= i < vs.len() && !covered(ms, #[trigger] vs[i])) ==> (r matches Err(
                GenError::MissingValidator { .. },
            ))
            &&& r matches Err(GenError::MissingValidator { variant }) ==> exists|i: int|
                first_uncovered(ms, vs, i) && variant@ == (#[trigger] vs[i]).name@
            &&& r matches Err(GenError::UnknownValidator { func }) ==> (forall|i: int|
                0 <= i < vs.len() ==> covered(ms, #[trigger] vs[i])) && exists|j: int|
                0 <= j < ms.len() && is_predicate_name((#[trigger] ms[j]).name@) && !known_predicate(
                    ms[j].name@,
                    vs,
                ) && func@ == ms[j].name@
            &&& r matches Err(GenError::ValidatorReturn { func, expected, .. }) ==> exists|i: int, j: int|
                0 <= i < vs.len() && 0 <= j < ms.len() && (#[trigger] ms[j]).name@ == predicate_name(
                    (#[trigger] vs[i]).name@,
                ) && !return_matches(ms[j], vs[i]) && func@ == ms[j].name@ && expected@ == expected_payload(
                    vs[i],
                )
            &&& r matches Ok(plan) ==> {
                &&& plan.machine@ == machine_ident@
                &&& plan.superstate@ == machine_ident@ + "SuperState"@
                &&& plan.batch_trait@ == machine_ident@ + "BuilderExt"@
                &&& plan.batch_builder@ == machine_ident@ + "BatchBuilder"@
                &&& plan.fields@ == m.fields
                &&& plan.checks@.len() == vs.len()
                &&& forall|i: int| 0 <= i < vs.len() ==> check_matches(#[trigger] plan.checks@[i], vs[i], ms)
                &&& plan.is_async == exists|i: int| 0 <= i < vs.len() && (#[trigger] plan.checks@[i]).is_async
            }
        }),
{
    let machine = match get_machine_metadata(registry, &MachinePath(String::from_str(scope))) {
        Some(m) => m,
        None => {
            return Err(GenError::MachineNotFound { scope: String::from_str(scope) });
        },
    };
    let state = match lookup_state(registry, &StateFilePath(String::from_str(scope))) {
        Some(s) => s,
        None => {
            return Err(GenError::StateNotFound { scope: String::from_str(scope) });
        },
    };
    let ms = &item.methods;
    let vs = &state.variants;
    if ms.len() == 0 {
        return Err(GenError::NoValidators);
    }
    // Coverage, in the state's declared order.
    let mut i: usize = 0;
    while i < vs.len()
        invariant
            ms == &item.methods,
            vs == &state.variants,
            state@ == registry.states@[scope@],
            machine@ == registry.machines@[scope@],
            registry.states@.contains_key(scope@),
            registry.machines@.contains_key(scope@),
            ms@.len() > 0,
            i <= vs@.len(),
            forall|k: int| 0 <= k < i ==> covered(ms@, #[trigger] vs@[k]),
        decreases vs@.len() - i,
    {
        let p = validator_name_of(vs[i].name.as_str());
        if has_method(ms, &p).is_none() {
            return Err(GenError::MissingValidator { variant: vs[i].name.clone() });
        }
        i = i + 1;
    }
    // No predicate beyond the declared variants.
    let mut j: usize = 0;
    while j < ms.len()
        invariant
            ms == &item.methods,
            vs == &state.variants,
            state@ == registry.states@[scope@],
            machine@ == registry.machines@[scope@],
            registry.states@.contains_key(scope@),
            registry.machines@.contains_key(scope@),
            ms@.len() > 0,
            forall|k: int| 0 <= k < vs@.len() ==> covered(ms@, #[trigger] vs@[k]),
            j <= ms@.len(),
            forall|k: int|
                0 <= k < j && is_predicate_name((#[trigger] ms@[k]).name@) ==> known_predicate(
                    ms@[k].name@,
                    vs@,
                ),
        decreases ms@.len() - j,
    {
        if starts_with_is(&ms[j].name) && !is_known(&ms[j].name, vs) {
            return Err(GenError::UnknownValidator { func: ms[j].name.clone() });
        }
        j = j + 1;
    }
    // Signatures.
    let mut a: usize = 0;
    while a < vs.len()
        invariant
            ms == &item.methods,
            vs == &state.variants,
            state@ == registry.states@[scope@],
            machine@ == registry.machines@[scope@],
            registry.states@.contains_key(scope@),
            registry.machines@.contains_key(scope@),
            ms@.len() > 0,
            forall|k: int| 0 <= k < vs@.len() ==> covered(ms@, #[trigger] vs@[k]),
            forall|k: int|
                0 <= k < ms@.len() && is_predicate_name((#[trigger] ms@[k]).name@) ==> known_predicate(
                    ms@[k].name@,
                    vs@,
                ),
            a <= vs@.len(),
            forall|p: int, q: int|
                0 <= p < a && 0 <= q < ms@.len() && (#[trigger] ms@[q]).name@ == predicate_name(
                    (#[trigger] vs@[p]).name@,
                ) ==> predicate_ok(ms@[q], vs@[p]),
        decreases vs@.len() - a,
    {
        let p = validator_name_of(vs[a].name.as_str());
        let mut b: usize = 0;
        while b < ms.len()
            invariant
                ms == &item.methods,
                vs == &state.variants,
                state@ == registry.states@[scope@],
                machine@ == registry.machines@[scope@],
                registry.states@.contains_key(scope@),
                registry.machines@.contains_key(scope@),
                ms@.len() > 0,
                forall|k: int| 0 <= k < vs@.len() ==> covered(ms@, #[trigger] vs@[k]),
                forall|k: int|
                    0 <= k < ms@.len() && is_predicate_name((#[trigger] ms@[k]).name@) ==> known_predicate(
                        ms@[k].name@,
                        vs@,
                    ),
                forall|p: int, q: int|
                    0 <= p < a && 0 <= q < ms@.len() && (#[trigger] ms@[q]).name@ == predicate_name(
                        (#[trigger] vs@[p]).name@,
                    ) ==> predicate_ok(ms@[q], vs@[p]),
                a < vs@.len(),
                p@ == predicate_name(vs@[a as int].name@),
                b <= ms@.len(),
                forall|q: int|
                    0 <= q < b && (#[trigger] ms@[q]).name@ == p@ ==> predicate_ok(ms@[q], vs@[a as int]),
            decreases ms@.len() - b,
        {
            if str_eq(ms[b].name.as_str(), p.as_str()) {
                match check_predicate(&ms[b], &vs[a]) {
                    Some(e) => {
                        return Err(e);
                    },
                    None => {},
                }
            }
            b = b + 1;
        }
        a = a + 1;
    }
    // The plan, in declared variant order.
    let mut checks: Vec<CheckPlan> = Vec::new();
    let mut is_async = false;
    let mut c: usize = 0;
    while c < vs.len()
        invariant
            ms == &item.methods,
            vs == &state.variants,
            state@ == registry.states@[scope@],
            machine@ == registry.machines@[scope@],
            registry.states@.contains_key(scope@),
            registry.machines@.contains_key(scope@),
            ms@.len() > 0,
            c <= vs@.len(),
            forall|k: int| 0 <= k < vs@.len() ==> covered(ms@, #[trigger] vs@[k]),
            checks@.len() == c,
            forall|k: int| 0 <= k < c ==> check_matches(#[trigger] checks@[k], vs@[k], ms@),
            is_async == exists|k: int| 0 <= k < c && (#[trigger] checks@[k]).is_async,
        decreases vs@.len() - c,
    {
        let p = validator_name_of(vs[c].name.as_str());
        assert(covered(ms@, vs@[c as int]));
        let j = has_method(ms, &p).unwrap();
        let f_async = ms[j].is_async;
        let check = CheckPlan {
            variant: vs[c].name.clone(),
            predicate: p,
            accessor: accessor_name_of(vs[c].name.as_str()),
            data_type: vs[c].data_type.clone(),
            is_async: f_async,
        };
        assert(check_matches(check, vs@[c as int], ms@));
        let ghost old_checks = checks@;
        checks.push(check);
        is_async = is_async || f_async;
        proof {
            assert forall|k: int| 0 <= k < c + 1 implies check_matches(#[trigger] checks@[k], vs@[k], ms@) by {
                if k < c {
                    assert(checks@[k] == old_checks[k]);
                }
            }
            if is_async {
                if f_async {
                    assert(checks@[c as int].is_async);
                } else {
                    let k = choose|k: int| 0 <= k < c && (#[trigger] old_checks[k]).is_async;
                    assert(checks@[k] == old_checks[k]);
                }
            } else {
                assert forall|k: int| 0 <= k < c + 1 implies !(#[trigger] checks@[k]).is_async by {
                    if k < c {
                        assert(checks@[k] == old_checks[k]);
                    }
                }
            }
        }
        c = c + 1;
    }
    let fields = machine.fields.clone();
    assert(fields@ =~= machine.fields@);
    Ok(
        ValidatorPlan {
            machine: String::from_str(machine_ident),
            superstate: superstate_name_of(machine_ident),
            fields,
            checks,
            is_async,
            batch_trait: batch_trait_name_of(machine_ident),
            batch_builder: batch_builder_name_of(machine_ident),
        },
    )
}

/// The type under which a context field is handed to a predicate, behind a
/// reference: `String` is handed as `str`, any other type as it is.
pub open spec fn field_param_type(ty: Seq<char>) -> Seq<char> {
    if ty == "String"@ {
        "str"@
    } else {
        ty
    }
}

/// The type under which a context field is handed to a predicate.
pub fn turn_string_ref_into_str_slice(input: &str) -> (r: &str)
    ensures
        r@ == field_param_type(input@),
{
    if str_eq(input, "String") {
        "str"
    } else {
        input
    }
}

/// One `try_to_<variant>` accessor: it runs `predicate` alone and, on
/// success, builds the machine in `variant`.
pub struct AccessorPlan {
    pub variant: String,
    pub predicate: String,
    pub accessor: String,
    pub data_type: Option<String>,
}

/// What is generated for a model: one accessor per variant of the state,
/// in declared order, each taking the machine's context fields.
pub struct ModelPlan {
    pub machine: String,
    pub fields: Vec<MachineField>,
    pub accessors: Vec<AccessorPlan>,
}

/// `a` is the accessor planned for variant `v`.
pub open spec fn accessor_matches(a: AccessorPlan, v: VariantInfo) -> bool {
    &&& a.variant@ == v.name@
    &&& a.predicate@ == predicate_name(v.name@)
    &&& a.accessor@ == "try_to_"@ + snake_case(v.name@)
    &&& a.data_type == v.data_type
}

/// Plans the accessors of a model that pairs the machine named
/// `attr.machine` with the state named `attr.state`, both looked up by
/// name in any scope.
pub fn model_plan(registry: &Registry, attr: &ModelAttr) -> (r: Result<ModelPlan, GenError>)
    ensures
        ({
            let has_s = exists|k: Seq<char>|
                #[trigger] registry.states@.contains_key(k) && registry.states@[k].name == attr.state@;
            let has_m = exists|k: Seq<char>|
                #[trigger] registry.machines@.contains_key(k) && registry.machines@[k].name == attr.machine@;
            &&& r is Ok <==> has_s && has_m
            &&& (r matches Err(GenError::StateNotFound { .. })) <==> !has_s
            &&& (r matches Err(GenError::MachineNotFound { .. })) <==> has_s && !has_m
            &&& r matches Ok(plan) ==> plan.machine@ == attr.machine@ && (exists|k: Seq<char>|
                #[trigger] registry.machines@.contains_key(k) && registry.machines@[k].name == attr.machine@
                    && registry.machines@[k].fields == plan.fields@) && exists|k: Seq<char>|
                #[trigger] registry.states@.contains_key(k) && registry.states@[k].name == attr.state@
                    && plan.accessors@.len() == registry.states@[k].variants.len() && forall|i: int|
                    0 <= i < plan.accessors@.len() ==> accessor_matches(
                        #[trigger] plan.accessors@[i],
                        registry.states@[k].variants[i],
                    )
        }),
{
    let variants = match get_state_variants(registry, &StateEnumName(attr.state.clone())) {
        Some(vs) => vs,
        None => {
            return Err(GenError::StateNotFound { scope: attr.state.clone() });
        },
    };
    let fields = match get_machine_fields(registry, &MachineName(attr.machine.clone())) {
        Some(fs) => fs,
        None => {
            return Err(GenError::MachineNotFound { scope: attr.machine.clone() });
        },
    };
    let mut accessors: Vec<AccessorPlan> = Vec::new();
    let mut i: usize = 0;
    while i < variants.len()
        invariant
            i <= variants@.len(),
            accessors@.len() == i,
            forall|k: int| 0 <= k < i ==> accessor_matches(#[trigger] accessors@[k], variants@[k]),
        decreases variants@.len() - i,
    {
        let v = &variants[i];
        accessors.push(
            AccessorPlan {
                variant: v.name.clone(),
                predicate: validator_name_of(v.name.as_str()),
                accessor: accessor_name_of(v.name.as_str()),
                data_type: v.data_type.clone(),
            },
        );
        i = i + 1;
    }
    Ok(ModelPlan { machine: attr.machine.clone(), fields, accessors })
}

} // verus!
