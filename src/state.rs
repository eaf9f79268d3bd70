//! State descriptions: parsing, structural checks, lookups and the plan of
//! the marker types generated for them.
use vstd::prelude::*;
use crate::decl::{AttrDecl, EnumDecl, FieldsDecl, VariantDecl};
use crate::diag::GenError;
use crate::model::{copy_strings, names_unique, EnumInfo, StateFilePath, VariantInfo};
use crate::naming::{snake_case, to_snake_case, trait_name_of, uninitialized_name_of};
use crate::registry::{lookup_state, Registry};
use crate::text::str_eq;

verus! {

/// The views of a list of strings.
pub open spec fn strings_view(v: Seq<String>) -> Seq<Seq<char>> {
    v.map_values(|s: String| s@)
}

/// The capabilities that one attribute requests.
pub open spec fn derive_list(a: AttrDecl) -> Seq<Seq<char>> {
    if a.path@ == "derive"@ {
        match a.list {
            Some(l) => strings_view(l@),
            None => seq![],
        }
    } else {
        seq![]
    }
}

/// The capabilities that a list of attributes requests, in order.
pub open spec fn derives_of(attrs: Seq<AttrDecl>) -> Seq<Seq<char>>
    decreases attrs.len(),
{
    if attrs.len() == 0 {
        seq![]
    } else {
        derives_of(attrs.drop_last()) + derive_list(attrs.last())
    }
}

/// The paths listed by a `derive` attribute; `None` for any other attribute.
pub fn extract_derive(attr: &AttrDecl) -> (r: Option<Vec<String>>)
    ensures
        r is Some <==> (attr.path@ == "derive"@ && attr.list is Some),
        r matches Some(l) ==> strings_view(l@) == derive_list(*attr),
{
    if str_eq(attr.path.as_str(), "derive") {
        match &attr.list {
            Some(l) => {
                let c = copy_strings(l);
                Some(c)
            },
            None => None,
        }
    } else {
        None
    }
}

/// All capabilities requested by `attrs`, in order.
pub fn collect_derives(attrs: &Vec<AttrDecl>) -> (r: Vec<String>)
    ensures
        strings_view(r@) == derives_of(attrs@),
{
    let mut r: Vec<String> = Vec::new();
    let mut i: usize = 0;
    while i < attrs.len()
        invariant
            i <= attrs@.len(),
            strings_view(r@) == derives_of(attrs@.subrange(0, i as int)),
        decreases attrs@.len() - i,
    {
        let ghost before = r@;
        let listed = extract_derive(&attrs[i]);
        proof {
            assert(attrs@.subrange(0, i + 1).drop_last() =~= attrs@.subrange(0, i as int));
        }
        match listed {
            Some(l) => {
                let mut j: usize = 0;
                while j < l.len()
                    invariant
                        j <= l@.len(),
                        r@ == before + l@.subrange(0, j as int),
                    decreases l@.len() - j,
                {
                    r.push(l[j].clone());
                    j = j + 1;
                    assert(r@ =~= before + l@.subrange(0, j as int));
                }
                assert(l@.subrange(0, l@.len() as int) =~= l@);
                assert(strings_view(r@) =~= strings_view(before) + strings_view(l@));
                assert(strings_view(r@) =~= derives_of(attrs@.subrange(0, i + 1)));
            },
            None => {
                assert(strings_view(r@) =~= derives_of(attrs@.subrange(0, i + 1)));
            },
        }
        i = i + 1;
    }
    assert(attrs@.subrange(0, attrs@.len() as int) =~= attrs@);
    r
}

/// A variant is a unit variant or carries exactly one payload.
pub open spec fn variant_shape_ok(v: VariantDecl) -> bool {
    match v.fields {
        FieldsDecl::Unit => true,
        FieldsDecl::Unnamed(ts) => ts@.len() == 1,
        FieldsDecl::Named(_) => false,
    }
}

/// The payload type that a variant declares, if it declares one.
pub open spec fn payload_of(v: VariantDecl) -> Option<Seq<char>> {
    match v.fields {
        FieldsDecl::Unnamed(ts) => if ts@.len() == 1 {
            Some(ts@[0]@)
        } else {
            None
        },
        _ => None,
    }
}

/// `info` records the variant `d`.
pub open spec fn variant_info_matches(info: VariantInfo, d: VariantDecl) -> bool {
    &&& info.name@ == d.name@
    &&& match info.data_type {
        Some(t) => payload_of(d) == Some(t@),
        None => payload_of(d) is None,
    }
}

/// No two declared variants share a name.
pub open spec fn decl_names_unique(vs: Seq<VariantDecl>) -> bool {
    forall|i: int, j: int|
        0 <= i < vs.len() && 0 <= j < vs.len() && i != j ==> vs[i].name@ != vs[j].name@
}

/// The structural rules of a state description.
pub open spec fn state_decl_ok(item: EnumDecl) -> bool {
    &&& item.generic_params@.len() == 0
    &&& item.variants@.len() > 0
    &&& forall|i: int| 0 <= i < item.variants@.len() ==> variant_shape_ok(#[trigger] item.variants@[i])
    &&& decl_names_unique(item.variants@)
}

fn shape_ok(v: &VariantDecl) -> (r: bool)
    ensures
        r == variant_shape_ok(*v),
{
    match &v.fields {
        FieldsDecl::Unit => true,
        FieldsDecl::Unnamed(ts) => ts.len() == 1,
        FieldsDecl::Named(_) => false,
    }
}

/// Checks the structural rules of a state description. The first rule that
/// fails is reported: generic parameters, then an empty variant list, then
/// the first variant of a wrong shape, then a repeated name.
pub fn validate_state_enum(item: &EnumDecl) -> (r: Option<GenError>)
    ensures
        r is None <==> state_decl_ok(*item),
        r matches Some(GenError::StateHasGenerics) <==> item.generic_params@.len() > 0,
        r matches Some(GenError::EmptyState) <==> item.generic_params@.len() == 0
            && item.variants@.len() == 0,
        r matches Some(GenError::InvalidVariant { variant }) ==> exists|i: int|
            0 <= i < item.variants@.len() && !variant_shape_ok(#[trigger] item.variants@[i])
                && item.variants@[i].name@ == variant@,
        (item.generic_params@.len() == 0 && exists|i: int|
            0 <= i < item.variants@.len() && !variant_shape_ok(#[trigger] item.variants@[i]))
            ==> r matches Some(GenError::InvalidVariant { .. }),
        r matches Some(GenError::DuplicateVariant { variant }) ==> exists|i: int, j: int|
            0 <= i < j < item.variants@.len() && item.variants@[i].name@ == variant@
                && item.variants@[j].name@ == variant@,
        r is Some ==> r matches Some(GenError::StateHasGenerics) || r matches Some(GenError::EmptyState)
            || r matches Some(GenError::InvalidVariant { .. }) || r matches Some(
            GenError::DuplicateVariant { .. }),
{
    if item.generic_params.len() > 0 {
        return Some(GenError::StateHasGenerics);
    }
    let vs = &item.variants;
    if vs.len() == 0 {
        return Some(GenError::EmptyState);
    }
    let mut i: usize = 0;
    while i < vs.len()
        invariant
            vs == &item.variants,
            item.generic_params@.len() == 0,
            vs@.len() > 0,
            i <= vs@.len(),
            forall|k: int| 0 <= k < i ==> variant_shape_ok(#[trigger] vs@[k]),
        decreases vs@.len() - i,
    {
        if !shape_ok(&vs[i]) {
            return Some(GenError::InvalidVariant { variant: vs[i].name.clone() });
        }
        i = i + 1;
    }
    let mut a: usize = 0;
    while a < vs.len()
        invariant
            vs == &item.variants,
            item.generic_params@.len() == 0,
            vs@.len() > 0,
            a <= vs@.len(),
            forall|k: int| 0 <= k < vs@.len() ==> variant_shape_ok(#[trigger] vs@[k]),
            forall|p: int, q: int| 0 <= p < a && 0 <= q < a && p != q ==> vs@[p].name@ != vs@[q].name@,
        decreases vs@.len() - a,
    {
        let mut b: usize = 0;
        while b < a
            invariant
                vs == &item.variants,
                item.generic_params@.len() == 0,
                forall|k: int| 0 <= k < vs@.len() ==> variant_shape_ok(#[trigger] vs@[k]),
                a < vs@.len(),
                b <= a,
                forall|q: int| 0 <= q < b ==> vs@[q].name@ != vs@[a as int].name@,
            decreases a - b,
        {
            if str_eq(vs[b].name.as_str(), vs[a].name.as_str()) {
                return Some(GenError::DuplicateVariant { variant: vs[a].name.clone() });
            }
            b = b + 1;
        }
        a = a + 1;
    }
    None
}

/// The metadata a variant declaration gives.
fn variant_info_of(v: &VariantDecl) -> (r: VariantInfo)
    requires
        variant_shape_ok(*v),
    ensures
        variant_info_matches(r, *v),
{
    let data_type = match &v.fields {
        FieldsDecl::Unnamed(ts) => Some(ts[0].clone()),
        _ => None,
    };
    VariantInfo { name: v.name.clone(), data_type }
}

/// `info` records the declaration `item`, registered under `scope`.
pub open spec fn state_info_matches(info: EnumInfo, item: EnumDecl, scope: Seq<char>) -> bool {
    &&& info@.name == item.name@
    &&& info@.vis == item.vis@
    &&& info@.generics == item.generics@
    &&& info@.derives == derives_of(item.attrs@)
    &&& info@.file_path == scope
    &&& info.variants@.len() == item.variants@.len()
    &&& forall|i: int|
        0 <= i < item.variants@.len() ==> variant_info_matches(
            #[trigger] info.variants@[i],
            item.variants@[i],
        )
}

impl EnumInfo {
    /// Parses a state declaration found under the scope key `file_path`.
    /// Fails exactly where `validate_state_enum` reports a problem.
    pub fn from_item_enum(item: &EnumDecl, file_path: &str) -> (r: Result<EnumInfo, GenError>)
        ensures
            r is Ok <==> state_decl_ok(*item),
            r matches Ok(info) ==> state_info_matches(info, *item, file_path@) && info.wf(),
    {
        match validate_state_enum(item) {
            Some(e) => {
                return Err(e);
            },
            None => {},
        }
        let mut variants: Vec<VariantInfo> = Vec::new();
        let mut i: usize = 0;
        while i < item.variants.len()
            invariant
                state_decl_ok(*item),
                i <= item.variants@.len(),
                variants@.len() == i,
                forall|k: int|
                    0 <= k < i ==> variant_info_matches(#[trigger] variants@[k], item.variants@[k]),
            decreases item.variants@.len() - i,
        {
            let v = variant_info_of(&item.variants[i]);
            variants.push(v);
            i = i + 1;
        }
        let info = EnumInfo {
            derives: collect_derives(&item.attrs),
            vis: item.vis.clone(),
            name: item.name.clone(),
            variants,
            generics: item.generics.clone(),
            file_path: StateFilePath(String::from_str(file_path)),
        };
        assert(names_unique(info.variants@)) by {
            assert forall|p: int, q: int|
                0 <= p < info.variants@.len() && 0 <= q < info.variants@.len() && p != q implies
                info.variants@[p].name@ != info.variants@[q].name@ by {
                assert(variant_info_matches(info.variants@[p], item.variants@[p]));
                assert(variant_info_matches(info.variants@[q], item.variants@[q]));
            }
        }
        Ok(info)
    }

    /// The name of the interface shared by this state's markers.
    pub fn get_trait_name(&self) -> (r: String)
        ensures
            r@ == self.name@ + "Trait"@,
    {
        trait_name_of(self.name.as_str())
    }
}

/// `v` is named `n`, either as declared or in snake case.
pub open spec fn variant_name_matches(v: VariantInfo, n: Seq<char>) -> bool {
    v.name@ == n || snake_case(v.name@) == n
}

/// `i` is the first variant of `vs` named `n`.
pub open spec fn is_first_match(vs: Seq<VariantInfo>, n: Seq<char>, i: int) -> bool {
    &&& 0 <= i < vs.len()
    &&& variant_name_matches(vs[i], n)
    &&& forall|j: int| 0 <= j < i ==> !variant_name_matches(#[trigger] vs[j], n)
}

/// Some variant of `vs` is named `n`.
pub open spec fn has_variant_named(vs: Seq<VariantInfo>, n: Seq<char>) -> bool {
    exists|i: int| 0 <= i < vs.len() && variant_name_matches(#[trigger] vs[i], n)
}

impl EnumInfo {
    /// The first variant named `variant_name`, as declared or in snake case.
    pub fn get_variant_from_name(&self, variant_name: &str) -> (r: Option<&VariantInfo>)
        ensures
            r is None <==> !has_variant_named(self.variants@, variant_name@),
            r matches Some(v) ==> exists|i: int|
                is_first_match(self.variants@, variant_name@, i) && *v == #[trigger] self.variants@[i],
    {
        let mut i: usize = 0;
        while i < self.variants.len()
            invariant
                i <= self.variants@.len(),
                forall|j: int| 0 <= j < i ==> !variant_name_matches(#[trigger] self.variants@[j], variant_name@),
            decreases self.variants@.len() - i,
        {
            let v = &self.variants[i];
            if str_eq(v.name.as_str(), variant_name) {
                return Some(v);
            }
            let snake = to_snake_case(v.name.as_str());
            if str_eq(snake.as_str(), variant_name) {
                return Some(v);
            }
            i = i + 1;
        }
        None
    }
}

/// The variant named `variant_name` of the state registered under
/// `enum_path`, if both exist.
pub fn get_state_enum_variant(registry: &Registry, enum_path: &StateFilePath, variant_name: &str) -> (r:
    Option<VariantInfo>)
    ensures
        r is Some <==> registry.states@.contains_key(enum_path.0@) && has_variant_named(
            registry.states@[enum_path.0@].variants,
            variant_name@,
        ),
        r matches Some(v) ==> exists|i: int|
            is_first_match(registry.states@[enum_path.0@].variants, variant_name@, i) && v
                == #[trigger] registry.states@[enum_path.0@].variants[i],
{
    match lookup_state(registry, enum_path) {
        Some(info) => match info.get_variant_from_name(variant_name) {
            Some(v) => Some(v.clone()),
            None => None,
        },
        None => None,
    }
}

/// One generated marker type.
pub struct MarkerPlan {
    pub name: String,
    /// The payload type, `None` for a unit variant.
    pub data_type: Option<String>,
    /// Whether the marker gets the "requires payload" capability marker
    /// rather than the "does not require payload" one.
    pub requires_data: bool,
}

/// What is generated for one state description: the description itself, a
/// shared interface, one marker per variant and the uninitialized marker.
pub struct StatePlan {
    pub state_enum: EnumInfo,
    pub trait_name: String,
    pub vis: String,
    pub derives: Vec<String>,
    pub markers: Vec<MarkerPlan>,
    pub uninitialized_name: String,
}

/// `m` is the marker planned for variant `v`.
pub open spec fn marker_matches(m: MarkerPlan, v: VariantInfo) -> bool {
    &&& m.name@ == v.name@
    &&& m.data_type == v.data_type
    &&& m.requires_data == v.data_type is Some
}

/// Plans the code for the state registered under `enum_path`: exactly one
/// marker per variant, in declared order.
pub fn generate_state_impls(registry: &Registry, enum_path: &StateFilePath) -> (r: Result<
    StatePlan,
    GenError,
>)
    ensures
        r is Ok <==> registry.states@.contains_key(enum_path.0@),
        r matches Err(e) ==> e matches GenError::StateNotFound { scope } && scope@ == enum_path.0@,
        r matches Ok(plan) ==> {
            let s = registry.states@[enum_path.0@];
            &&& plan.state_enum@ == s
            &&& plan.trait_name@ == s.name + "Trait"@
            &&& plan.vis@ == s.vis
            &&& strings_view(plan.derives@) == s.derives
            &&& plan.uninitialized_name@ == "Uninitialized"@ + s.name
            &&& plan.markers@.len() == s.variants.len()
            &&& forall|i: int|
                0 <= i < s.variants.len() ==> marker_matches(#[trigger] plan.markers@[i], s.variants[i])
        },
{
    let info = match lookup_state(registry, enum_path) {
        Some(info) => info,
        None => {
            return Err(GenError::StateNotFound { scope: enum_path.0.clone() });
        },
    };
    let mut markers: Vec<MarkerPlan> = Vec::new();
    let mut i: usize = 0;
    while i < info.variants.len()
        invariant
            i <= info.variants@.len(),
            markers@.len() == i,
            forall|k: int| 0 <= k < i ==> marker_matches(#[trigger] markers@[k], info.variants@[k]),
        decreases info.variants@.len() - i,
    {
        let v = &info.variants[i];
        let requires_data = v.data_type.is_some();
        markers.push(MarkerPlan { name: v.name.clone(), data_type: v.data_type.clone(), requires_data });
        i = i + 1;
    }
    let trait_name = info.get_trait_name();
    let uninitialized_name = uninitialized_name_of(info.name.as_str());
    let derives = copy_strings(&info.derives);
    let vis = info.vis.clone();
    Ok(StatePlan { state_enum: info, trait_name, vis, derives, markers, uninitialized_name })
}

/// The capabilities requested by a list of attributes, with flags for those
/// that change the bounds of a state's payload.
pub struct DeriveAnalysis {
    pub derives: Vec<String>,
    pub wants_serialize: bool,
    pub wants_deserialize: bool,
    pub wants_debug: bool,
    pub wants_clone: bool,
}

fn contains_name(v: &Vec<String>, n: &str) -> (r: bool)
    ensures
        r == strings_view(v@).contains(n@),
{
    let mut i: usize = 0;
    while i < v.len()
        invariant
            i <= v@.len(),
            forall|j: int| 0 <= j < i ==> (#[trigger] v@[j])@ != n@,
        decreases v@.len() - i,
    {
        if str_eq(v[i].as_str(), n) {
            assert(strings_view(v@)[i as int] == n@);
            return true;
        }
        i = i + 1;
    }
    assert forall|j: int| 0 <= j < strings_view(v@).len() implies strings_view(v@)[j] != n@ by {
        assert(v@[j]@ != n@);
    }
    false
}

/// Collects the requested capabilities and notes whether `Serialize`,
/// `Deserialize`, `Debug` and `Clone` are among them.
pub fn analyze_user_derives(attrs: &Vec<AttrDecl>) -> (r: DeriveAnalysis)
    ensures
        strings_view(r.derives@) == derives_of(attrs@),
        r.wants_serialize == derives_of(attrs@).contains("Serialize"@),
        r.wants_deserialize == derives_of(attrs@).contains("Deserialize"@),
        r.wants_debug == derives_of(attrs@).contains("Debug"@),
        r.wants_clone == derives_of(attrs@).contains("Clone"@),
{
    let derives = collect_derives(attrs);
    let wants_serialize = contains_name(&derives, "Serialize");
    let wants_deserialize = contains_name(&derives, "Deserialize");
    let wants_debug = contains_name(&derives, "Debug");
    let wants_clone = contains_name(&derives, "Clone");
    DeriveAnalysis { derives, wants_serialize, wants_deserialize, wants_debug, wants_clone }
}

} // verus!
