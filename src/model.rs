//! Metadata parsed from state and machine declarations.
use vstd::prelude::*;

verus! {

/// One variant of a state description: a unit variant, or one that carries
/// a single payload of the named type.
#[derive(Debug)]
pub struct VariantInfo {
    pub name: String,
    pub data_type: Option<String>,
}

impl Clone for VariantInfo {
    fn clone(&self) -> (r: Self)
        ensures
            r == *self,
    {
        VariantInfo { name: self.name.clone(), data_type: self.data_type.clone() }
    }
}

/// Scope key under which a state description is registered.
#[derive(Debug)]
pub struct StateFilePath(pub String);

impl Clone for StateFilePath {
    fn clone(&self) -> (r: Self)
        ensures
            r == *self,
    {
        StateFilePath(self.0.clone())
    }
}

/// Scope key under which a machine description is registered.
#[derive(Debug)]
pub struct MachinePath(pub String);

impl Clone for MachinePath {
    fn clone(&self) -> (r: Self)
        ensures
            r == *self,
    {
        MachinePath(self.0.clone())
    }
}

impl MachinePath {
    /// The state scope key that pairs with this machine scope key.
    pub fn to_state_path(&self) -> (r: StateFilePath)
        ensures
            r.0@ == self.0@,
    {
        StateFilePath(self.0.clone())
    }
}

/// The declared name of a state description.
#[derive(Debug)]
pub struct StateEnumName(pub String);

/// The declared name of a machine description.
#[derive(Debug)]
pub struct MachineName(pub String);

/// Copies a list of strings.
pub fn copy_strings(v: &Vec<String>) -> (r: Vec<String>)
    ensures
        r@ == v@,
{
    let r = v.clone();
    assert(r@ =~= v@);
    r
}

/// A parsed state description.
#[derive(Debug)]
pub struct EnumInfo {
    pub derives: Vec<String>,
    pub vis: String,
    pub name: String,
    pub variants: Vec<VariantInfo>,
    pub generics: String,
    pub file_path: StateFilePath,
}

/// What a state description says, as mathematical values.
pub struct StateModel {
    pub derives: Seq<Seq<char>>,
    pub vis: Seq<char>,
    pub name: Seq<char>,
    pub variants: Seq<VariantInfo>,
    pub generics: Seq<char>,
    pub file_path: Seq<char>,
}

impl View for EnumInfo {
    type V = StateModel;

    open spec fn view(&self) -> StateModel {
        StateModel {
            derives: self.derives@.map_values(|d: String| d@),
            vis: self.vis@,
            name: self.name@,
            variants: self.variants@,
            generics: self.generics@,
            file_path: self.file_path.0@,
        }
    }
}

impl Clone for EnumInfo {
    fn clone(&self) -> (r: Self)
        ensures
            r@ == self@,
    {
        let variants = self.variants.clone();
        assert(variants@ =~= self.variants@);
        let r = EnumInfo {
            derives: copy_strings(&self.derives),
            vis: self.vis.clone(),
            name: self.name.clone(),
            variants,
            generics: self.generics.clone(),
            file_path: self.file_path.clone(),
        };
        assert(r@.derives =~= self@.derives);
        r
    }
}

/// No two variants share a name.
pub open spec fn names_unique(vs: Seq<VariantInfo>) -> bool {
    forall|i: int, j: int|
        0 <= i < vs.len() && 0 <= j < vs.len() && i != j ==> vs[i].name@ != vs[j].name@
}

impl EnumInfo {
    /// A well-formed state description has at least one variant and unique
    /// variant names.
    pub open spec fn wf(&self) -> bool {
        &&& self.variants@.len() > 0
        &&& names_unique(self.variants@)
    }
}

/// One state-independent field of a machine.
#[derive(Debug)]
pub struct MachineField {
    pub name: String,
    pub field_type: String,
}

impl Clone for MachineField {
    fn clone(&self) -> (r: Self)
        ensures
            r == *self,
    {
        MachineField { name: self.name.clone(), field_type: self.field_type.clone() }
    }
}

/// A parsed machine description.
#[derive(Debug)]
pub struct MachineInfo {
    pub name: String,
    pub vis: String,
    pub derives: Vec<String>,
    pub fields: Vec<MachineField>,
    pub scope_key: MachinePath,
    pub generics: String,
    /// The generic parameters, each as written; the first one names the state.
    pub generic_params: Vec<String>,
}

/// What a machine description says, as mathematical values.
pub struct MachineModel {
    pub name: Seq<char>,
    pub vis: Seq<char>,
    pub derives: Seq<Seq<char>>,
    pub fields: Seq<MachineField>,
    pub scope_key: Seq<char>,
    pub generics: Seq<char>,
    pub generic_params: Seq<Seq<char>>,
}

impl View for MachineInfo {
    type V = MachineModel;

    open spec fn view(&self) -> MachineModel {
        MachineModel {
            name: self.name@,
            vis: self.vis@,
            derives: self.derives@.map_values(|d: String| d@),
            fields: self.fields@,
            scope_key: self.scope_key.0@,
            generics: self.generics@,
            generic_params: self.generic_params@.map_values(|d: String| d@),
        }
    }
}

impl MachineInfo {
    /// A well-formed machine description has at least one generic
    /// parameter; the first one stands for the state.
    pub open spec fn wf(&self) -> bool {
        self.generic_params@.len() > 0
    }
}

impl Clone for MachineInfo {
    fn clone(&self) -> (r: Self)
        ensures
            r@ == self@,
    {
        let fields = self.fields.clone();
        assert(fields@ =~= self.fields@);
        let r = MachineInfo {
            name: self.name.clone(),
            vis: self.vis.clone(),
            derives: copy_strings(&self.derives),
            fields,
            scope_key: self.scope_key.clone(),
            generics: self.generics.clone(),
            generic_params: copy_strings(&self.generic_params),
        };
        assert(r@.derives =~= self@.derives);
        assert(r@.generic_params =~= self@.generic_params);
        r
    }
}

} // verus!
