//! Machine descriptions: parsing, cross-checks against the paired state
//! description, and the plan of the generated container and builders.
use vstd::prelude::*;
use crate::decl::{FieldDecl, StructDecl};
use crate::diag::GenError;
use crate::model::{copy_strings, EnumInfo, MachineField, MachineInfo, MachinePath, VariantInfo};
use crate::naming::{builder_mod_of, builder_type_of, lower_case_str, trait_name_of, uninitialized_name_of};
use crate::registry::{lookup_state, Registry};
use crate::state::{collect_derives, derives_of, strings_view};
use crate::text::str_eq;

verus! {

/// A field name that generated code reserves for itself.
pub open spec fn is_reserved_field(n: Seq<char>) -> bool {
    n == "marker"@ || n == "state_data"@
}

/// The views of a list of machine fields.
pub open spec fn field_views(fs: Seq<MachineField>) -> Seq<(Seq<char>, Seq<char>)> {
    fs.map_values(|f: MachineField| (f.name@, f.field_type@))
}

/// The context fields that a struct declaration gives: its named fields,
/// in order, without the reserved ones.
pub open spec fn context_fields_of(fs: Seq<FieldDecl>) -> Seq<(Seq<char>, Seq<char>)>
    decreases fs.len(),
{
    if fs.len() == 0 {
        seq![]
    } else {
        let rest = context_fields_of(fs.drop_last());
        match fs.last().name {
            Some(n) => if is_reserved_field(n@) {
                rest
            } else {
                rest.push((n@, fs.last().ty@))
            },
            None => rest,
        }
    }
}

fn is_reserved(n: &String) -> (r: bool)
    ensures
        r == is_reserved_field(n@),
{
    str_eq(n.as_str(), "marker") || str_eq(n.as_str(), "state_data")
}

/// `info` records the struct declaration `item`, found under `scope`.
pub open spec fn machine_info_matches(info: MachineInfo, item: StructDecl, scope: Seq<char>) -> bool {
    &&& info@.name == item.name@
    &&& info@.vis == item.vis@
    &&& info@.generics == item.generics@
    &&& info@.generic_params == strings_view(item.generic_params@)
    &&& info@.derives == derives_of(item.attrs@)
    &&& info@.scope_key == scope
    &&& field_views(info.fields@) == context_fields_of(item.fields@)
}

impl MachineInfo {
    /// Parses a machine declaration found under the scope key `scope`. It
    /// fails exactly when the declaration has no generic parameter.
    pub fn from_item_struct(item: &StructDecl, scope: &str) -> (r: Result<MachineInfo, GenError>)
        ensures
            r is Err <==> item.generic_params@.len() == 0,
            r matches Err(e) ==> e matches GenError::MachineNoGenerics,
            r matches Ok(info) ==> machine_info_matches(info, *item, scope@) && info.wf(),
    {
        if item.generic_params.len() == 0 {
            return Err(GenError::MachineNoGenerics);
        }
        let mut fields: Vec<MachineField> = Vec::new();
        let mut i: usize = 0;
        while i < item.fields.len()
            invariant
                i <= item.fields@.len(),
                field_views(fields@) == context_fields_of(item.fields@.subrange(0, i as int)),
            decreases item.fields@.len() - i,
        {
            let f = &item.fields[i];
            proof {
                assert(item.fields@.subrange(0, i + 1).drop_last() =~= item.fields@.subrange(0, i as int));
            }
            match &f.name {
                Some(n) => {
                    if !is_reserved(n) {
                        fields.push(MachineField { name: n.clone(), field_type: f.ty.clone() });
                    }
                },
                None => {},
            }
            i = i + 1;
            assert(field_views(fields@) =~= context_fields_of(item.fields@.subrange(0, i as int)));
        }
        assert(item.fields@.subrange(0, item.fields@.len() as int) =~= item.fields@);
        let generic_params = copy_strings(&item.generic_params);
        let info = MachineInfo {
            name: item.name.clone(),
            vis: item.vis.clone(),
            derives: collect_derives(&item.attrs),
            fields,
            scope_key: MachinePath(String::from_str(scope)),
            generics: item.generics.clone(),
            generic_params,
        };
        assert(info@.generic_params =~= strings_view(item.generic_params@));
        Ok(info)
    }

    /// The state description paired with this machine: the one registered
    /// under the same scope key.
    pub fn get_matching_state_enum(&self, registry: &Registry) -> (r: Result<EnumInfo, GenError>)
        ensures
            r is Ok <==> registry.states@.contains_key(self.scope_key.0@),
            r matches Ok(s) ==> s@ == registry.states@[self.scope_key.0@],
            r matches Err(e) ==> e matches GenError::StateNotFound { scope } && scope@
                == self.scope_key.0@,
    {
        let path = self.scope_key.to_state_path();
        match lookup_state(registry, &path) {
            Some(s) => Ok(s),
            None => Err(GenError::StateNotFound { scope: self.scope_key.0.clone() }),
        }
    }
}

/// The capabilities of `machine` that `state` lacks, in order.
pub open spec fn missing_derives(machine: Seq<Seq<char>>, state: Seq<Seq<char>>) -> Seq<Seq<char>> {
    machine.filter(|d: Seq<char>| !state.contains(d))
}

fn contains_string(v: &Vec<String>, s: &String) -> (r: bool)
    ensures
        r == strings_view(v@).contains(s@),
{
    let mut i: usize = 0;
    while i < v.len()
        invariant
            i <= v@.len(),
            forall|j: int| 0 <= j < i ==> (#[trigger] v@[j])@ != s@,
        decreases v@.len() - i,
    {
        if str_eq(v[i].as_str(), s.as_str()) {
            assert(strings_view(v@)[i as int] == s@);
            return true;
        }
        i = i + 1;
    }
    assert forall|j: int| 0 <= j < strings_view(v@).len() implies strings_view(v@)[j] != s@ by {
        assert(v@[j]@ != s@);
    }
    false
}

fn find_missing(machine: &Vec<String>, state: &Vec<String>) -> (r: Vec<String>)
    ensures
        strings_view(r@) == missing_derives(strings_view(machine@), strings_view(state@)),
{
    let ghost st = strings_view(state@);
    let mut r: Vec<String> = Vec::new();
    let mut i: usize = 0;
    while i < machine.len()
        invariant
            st == strings_view(state@),
            i <= machine@.len(),
            strings_view(r@) == missing_derives(strings_view(machine@.subrange(0, i as int)), st),
        decreases machine@.len() - i,
    {
        let ghost prev = strings_view(machine@.subrange(0, i as int));
        let ghost next = strings_view(machine@.subrange(0, i + 1));
        proof {
            assert(next =~= prev.push(machine@[i as int]@));
            reveal_with_fuel(Seq::filter, 1);
            assert(next.drop_last() =~= prev);
        }
        if !contains_string(state, &machine[i]) {
            r.push(machine[i].clone());
        }
        i = i + 1;
        assert(strings_view(r@) =~= missing_derives(next, st));
    }
    assert(machine@.subrange(0, machine@.len() as int) =~= machine@);
    r
}

/// Checks a parsed machine against the state registered under its scope
/// key: the state must exist, must have every capability the machine asks
/// for, and must be named by the machine's first generic parameter.
pub fn validate_machine_struct(registry: &Registry, machine_info: &MachineInfo) -> (r: Option<GenError>)
    ensures
        ({
            let found = registry.states@.contains_key(machine_info.scope_key.0@);
            let s = registry.states@[machine_info.scope_key.0@];
            let missing = missing_derives(machine_info@.derives, s.derives);
            let params = machine_info@.generic_params;
            &&& r is None <==> found && missing.len() == 0 && params.len() > 0 && params[0] == s.name
            &&& (r matches Some(GenError::StateNotFound { .. })) <==> !found
            &&& r matches Some(GenError::StateNotFound { scope }) ==> scope@ == machine_info.scope_key.0@
            &&& (r matches Some(GenError::MissingDerives { .. })) <==> found && missing.len() > 0
            &&& r matches Some(GenError::MissingDerives { missing: m }) ==> strings_view(m@) == missing
            &&& (r matches Some(GenError::GenericMismatch { .. })) <==> found && missing.len() == 0 && (
            params.len() == 0 || params[0] != s.name)
            &&& r matches Some(GenError::GenericMismatch { machine, expected, found: f }) ==> machine@
                == machine_info.name@ && expected@ == s.name && (f is None <==> params.len() == 0) && (
            f matches Some(p) ==> p@ == params[0])
        }),
{
    let state = match machine_info.get_matching_state_enum(registry) {
        Ok(s) => s,
        Err(e) => {
            return Some(e);
        },
    };
    let missing = find_missing(&machine_info.derives, &state.derives);
    if missing.len() > 0 {
        return Some(GenError::MissingDerives { missing });
    }
    let params = &machine_info.generic_params;
    if params.len() == 0 {
        return Some(
            GenError::GenericMismatch {
                machine: machine_info.name.clone(),
                expected: state.name.clone(),
                found: None,
            },
        );
    }
    if !str_eq(params[0].as_str(), state.name.as_str()) {
        assert(machine_info@.generic_params[0] == params@[0]@);
        return Some(
            GenError::GenericMismatch {
                machine: machine_info.name.clone(),
                expected: state.name.clone(),
                found: Some(params[0].clone()),
            },
        );
    }
    assert(machine_info@.generic_params[0] == params@[0]@);
    None
}

/// The builder generated for one variant.
pub struct BuilderPlan {
    pub variant: String,
    pub builder_type: String,
    pub state_mod: String,
    /// The payload that must be set before completion, if the variant has one.
    pub data_type: Option<String>,
    /// The context fields that must each be set exactly once.
    pub required_fields: Vec<MachineField>,
}

/// What is generated for one machine and its paired state.
pub struct MachinePlan {
    pub name: String,
    pub vis: String,
    pub derives: Vec<String>,
    pub fields: Vec<MachineField>,
    /// The interface that bounds the state parameter.
    pub state_trait: String,
    /// The marker that the state parameter defaults to.
    pub default_state: String,
    /// The generic parameters after the state parameter, as written.
    pub other_params: Vec<String>,
    pub builders: Vec<BuilderPlan>,
}

/// `b` is the builder planned for variant `v` of a machine with `fields`.
pub open spec fn builder_matches(b: BuilderPlan, v: VariantInfo, fields: Seq<MachineField>) -> bool {
    &&& b.variant@ == v.name@
    &&& b.builder_type@ == v.name@ + "Builder"@
    &&& b.state_mod@ == lower_case_str(v.name@) + "_builder"@
    &&& b.data_type == v.data_type
    &&& b.required_fields@ == fields
}

fn copy_fields(fs: &Vec<MachineField>) -> (r: Vec<MachineField>)
    ensures
        r@ == fs@,
{
    let r = fs.clone();
    assert(r@ =~= fs@);
    r
}

/// Plans the container and the builders for the machine registered under
/// `machine_path`, paired with the state under the same key: one builder
/// per variant, in declared order, each requiring every context field and,
/// for a payload variant, the payload.
pub fn generate_machine_impls(registry: &Registry, machine_path: &MachinePath) -> (r: Result<
    MachinePlan,
    GenError,
>)
    ensures
        r is Ok <==> registry.machines@.contains_key(machine_path.0@) && registry.states@.contains_key(
            machine_path.0@,
        ),
        r matches Err(e) ==> (!registry.machines@.contains_key(machine_path.0@) && e matches GenError::MachineNotFound { .. })
            || (registry.machines@.contains_key(machine_path.0@) && e matches GenError::StateNotFound { .. }),
        r matches Ok(plan) ==> {
            let m = registry.machines@[machine_path.0@];
            let s = registry.states@[machine_path.0@];
            &&& plan.name@ == m.name
            &&& plan.vis@ == m.vis
            &&& strings_view(plan.derives@) == m.derives
            &&& plan.fields@ == m.fields
            &&& plan.state_trait@ == s.name + "Trait"@
            &&& plan.default_state@ == "Uninitialized"@ + s.name
            &&& m.generic_params.len() > 0 ==> strings_view(plan.other_params@) == m.generic_params.drop_first()
            &&& m.generic_params.len() == 0 ==> plan.other_params@.len() == 0
            &&& plan.builders@.len() == s.variants.len()
            &&& forall|i: int|
                0 <= i < s.variants.len() ==> builder_matches(
                    #[trigger] plan.builders@[i],
                    s.variants[i],
                    m.fields,
                )
        },
{
    let machine = match registry.machines.get(machine_path.0.as_str()) {
        Some(m) => m,
        None => {
            return Err(GenError::MachineNotFound { scope: machine_path.0.clone() });
        },
    };
    let state = match lookup_state(registry, &machine_path.to_state_path()) {
        Some(s) => s,
        None => {
            return Err(GenError::StateNotFound { scope: machine_path.0.clone() });
        },
    };
    let mut builders: Vec<BuilderPlan> = Vec::new();
    let mut i: usize = 0;
    while i < state.variants.len()
        invariant
            i <= state.variants@.len(),
            builders@.len() == i,
            forall|k: int|
                0 <= k < i ==> builder_matches(#[trigger] builders@[k], state.variants@[k], machine.fields@),
        decreases state.variants@.len() - i,
    {
        let v = &state.variants[i];
        builders.push(
            BuilderPlan {
                variant: v.name.clone(),
                builder_type: builder_type_of(v.name.as_str()),
                state_mod: builder_mod_of(v.name.as_str()),
                data_type: v.data_type.clone(),
                required_fields: copy_fields(&machine.fields),
            },
        );
        i = i + 1;
    }
    let mut other_params: Vec<String> = Vec::new();
    let n = machine.generic_params.len();
    if n > 0 {
        let ghost params = strings_view(machine.generic_params@);
        let mut j: usize = 1;
        while j < n
            invariant
                n == machine.generic_params@.len(),
                params == strings_view(machine.generic_params@),
                1 <= j <= n,
                strings_view(other_params@) == params.subrange(1, j as int),
            decreases n - j,
        {
            let ghost before = other_params@;
            let p = machine.generic_params[j].clone();
            assert(p@ == params[j as int]);
            other_params.push(p);
            assert(strings_view(other_params@) =~= strings_view(before).push(p@));
            j = j + 1;
            assert(strings_view(other_params@) =~= params.subrange(1, j as int));
        }
        assert(params.subrange(1, n as int) =~= machine@.generic_params.drop_first());
    }
    Ok(
        MachinePlan {
            name: machine.name.clone(),
            vis: machine.vis.clone(),
            derives: copy_strings(&machine.derives),
            fields: copy_fields(&machine.fields),
            state_trait: trait_name_of(state.name.as_str()),
            default_state: uninitialized_name_of(state.name.as_str()),
            other_params,
            builders,
        },
    )
}

} // verus!
