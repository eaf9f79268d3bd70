use statum::model::{MachineName, StateEnumName};
use statum::registry::{get_machine_fields, get_state_variants};
use statum::attr::{AttrError, ModelAttr, ValidatorsAttr};
use statum::state::analyze_user_derives;
use statum::validators::turn_string_ref_into_str_slice;
use statum::classify::{classify, classify_batch, reassemble, Error};
use statum::decl::{AttrDecl, EnumDecl, FieldDecl, FieldsDecl, ImplDecl, MethodDecl, Receiver, StructDecl, TypeDecl, VariantDecl};
use statum::diag::GenError;
use statum::machine::{generate_machine_impls, validate_machine_struct};
use statum::model::{EnumInfo, MachineInfo, MachinePath, StateFilePath};
use statum::naming::{builder_mod_of, to_snake_case, validator_name_of};
use statum::registry::{get_machine_map, get_state_enum_map, read_machine_map, get_machine_metadata, lookup_state, read_state_enum_map, store_machine_struct, store_state_enum, Registry};
use statum::runtime::{Machine, StateTrait};
use statum::scope_path::{
    join_module_path, module_file_candidates, module_path_at_line, module_path_from_file, module_path_from_file_with_root,
    module_root_from_file, ModuleSpan,
};
use statum::state::{get_state_enum_variant, extract_derive, generate_state_impls, validate_state_enum};
use statum::transition::{generate_transition_impl, parse_machine_and_state, validate_transition_functions};
use statum::validators::{model_plan, parse_validators};

fn s(x: &str) -> String {
    x.to_string()
}

fn unit(name: &str) -> VariantDecl {
    VariantDecl { name: s(name), fields: FieldsDecl::Unit }
}

fn payload(name: &str, ty: &str) -> VariantDecl {
    VariantDecl { name: s(name), fields: FieldsDecl::Unnamed(vec![s(ty)]) }
}

fn derive(list: &[&str]) -> Vec<AttrDecl> {
    vec![AttrDecl { path: s("derive"), list: Some(list.iter().map(|d| s(d)).collect()) }]
}

fn state_decl(name: &str, variants: Vec<VariantDecl>) -> EnumDecl {
    EnumDecl { name: s(name), vis: s("pub"), generics: String::new(), generic_params: vec![], attrs: vec![], variants }
}

fn machine_decl(name: &str, params: &[&str], fields: &[(&str, &str)]) -> StructDecl {
    StructDecl {
        name: s(name),
        vis: s("pub"),
        generics: format!("< {} >", params.join(", ")),
        generic_params: params.iter().map(|p| s(p)).collect(),
        attrs: vec![],
        fields: fields.iter().map(|(n, t)| FieldDecl { name: Some(s(n)), ty: s(t) }).collect(),
    }
}

fn path(ident: &str, args: Vec<TypeDecl>) -> TypeDecl {
    let text = if args.is_empty() {
        s(ident)
    } else {
        let inner: Vec<String> = args
            .iter()
            .map(|a| match a {
                TypeDecl::Path { text, .. } => text.clone(),
                TypeDecl::Other { text } => text.clone(),
            })
            .collect();
        format!("{}<{}>", ident, inner.join(","))
    };
    TypeDecl::Path { ident: s(ident), args, text }
}

fn machine_ty(machine: &str, state: &str) -> TypeDecl {
    path(machine, vec![path(state, vec![])])
}

fn method(name: &str, receiver: Receiver, output: Option<TypeDecl>) -> MethodDecl {
    MethodDecl { name: s(name), receiver, params: vec![], output, is_async: false, calls_data_mut: false }
}

fn predicate(name: &str, ok: &str) -> MethodDecl {
    let output = path("Result", vec![path(ok, vec![]), path("Error", vec![])]);
    method(name, Receiver::Ref, Some(output))
}

fn setup(scope: &str, state: EnumDecl, machine: StructDecl) -> Registry {
    let mut registry = Registry::new();
    let info = EnumInfo::from_item_enum(&state, scope).ok().unwrap();
    store_state_enum(&mut registry, &info);
    let m = MachineInfo::from_item_struct(&machine, scope).ok().unwrap();
    store_machine_struct(&mut registry, &m);
    registry
}

fn task_registry() -> Registry {
    let state = state_decl("TaskState", vec![unit("Draft"), payload("InProgress", "Progress"), unit("Complete")]);
    setup("tasks", state, machine_decl("TaskMachine", &["TaskState"], &[("name", "String")]))
}

#[test]
fn one_marker_per_variant_in_order() {
    let state = state_decl("State", vec![unit("A"), payload("B", "u8"), unit("C")]);
    let registry = setup("m", state, machine_decl("Machine", &["State"], &[]));
    let plan = generate_state_impls(&registry, &StateFilePath(s("m"))).ok().unwrap();
    let names: Vec<&str> = plan.markers.iter().map(|m| m.name.as_str()).collect();
    assert_eq!(names, vec!["A", "B", "C"]);
    assert_eq!(plan.trait_name, "StateTrait");
    assert_eq!(plan.uninitialized_name, "UninitializedState");
    assert!(plan.markers[1].requires_data);
    assert!(!plan.markers[2].requires_data);
}

#[test]
fn state_plan_needs_registered_state() {
    let registry = Registry::new();
    match generate_state_impls(&registry, &StateFilePath(s("nowhere"))) {
        Err(GenError::StateNotFound { scope }) => assert_eq!(scope, "nowhere"),
        _ => panic!("expected a missing state"),
    }
}

struct Ready;
impl StateTrait for Ready {
    type Data = Vec<u8>;
}
struct Done;
impl StateTrait for Done {
    type Data = ();
}

#[derive(Clone, Debug, PartialEq)]
struct Ctx {
    id: u64,
    label: String,
}

#[test]
fn builder_order_does_not_matter() {
    let ctx = Ctx { id: 7, label: s("x") };
    let a = Machine::<Ready, Ctx>::builder().context(ctx.clone()).state_data(vec![1, 2]).build();
    let b = Machine::<Ready, Ctx>::builder().state_data(vec![1, 2]).context(ctx.clone()).build();
    assert_eq!(a.context, b.context);
    assert_eq!(a.state_data, b.state_data);
    assert_eq!(a.context, ctx);
}

#[test]
fn transition_keeps_context() {
    let ctx = Ctx { id: 99, label: s("keep me") };
    let m = Machine::<Ready, Ctx>::new(ctx.clone(), vec![3]);
    let done: Machine<Done, Ctx> = m.transition();
    assert_eq!(done.context, ctx);
}

#[test]
fn transition_with_sets_payload() {
    let m = Machine::<Done, u8>::builder().context(5).build();
    let ready: Machine<Ready, u8> = m.transition_with(vec![4, 5, 6]);
    assert_eq!(ready.get_data(), &vec![4, 5, 6]);
    assert_eq!(ready.context, 5);
}

#[test]
fn first_match_wins() {
    assert!(matches!(classify(&vec![false, true, true]), Ok(1)));
    assert!(matches!(classify(&vec![true, true, true]), Ok(0)));
    assert!(matches!(classify(&vec![false, false, false]), Err(Error::InvalidState)));
    assert!(matches!(classify(&vec![]), Err(Error::InvalidState)));
}

#[test]
fn batch_keeps_order() {
    let rows = vec![vec![true, false, false], vec![false, true, false], vec![false, false, false]];
    let out = classify_batch(&rows);
    assert_eq!(out.len(), 3);
    assert!(matches!(out[0], Ok(0)));
    assert!(matches!(out[1], Ok(1)));
    assert!(matches!(out[2], Err(Error::InvalidState)));
    let arrived = vec![(2, classify(&rows[2])), (0, classify(&rows[0])), (1, classify(&rows[1]))];
    let put_back = reassemble(&arrived);
    assert!(matches!(put_back[0], Ok(0)));
    assert!(matches!(put_back[1], Ok(1)));
    assert!(matches!(put_back[2], Err(Error::InvalidState)));
}

#[test]
fn validators_missing_variant_is_named() {
    let registry = task_registry();
    let block = ImplDecl {
        self_ty: path("DbRow", vec![]),
        methods: vec![predicate("is_draft", "()"), predicate("is_in_progress", "Progress")],
    };
    match parse_validators("TaskMachine", &block, "tasks", &registry) {
        Err(GenError::MissingValidator { variant }) => assert_eq!(variant, "Complete"),
        _ => panic!("expected a missing validator"),
    }
}

#[test]
fn validators_plan_follows_state_order() {
    let registry = task_registry();
    let mut slow = predicate("is_in_progress", "Progress");
    slow.is_async = true;
    let block = ImplDecl {
        self_ty: path("DbRow", vec![]),
        methods: vec![predicate("is_complete", "()"), slow, predicate("is_draft", "()"), method("helper", Receiver::Ref, None)],
    };
    let plan = parse_validators("TaskMachine", &block, "tasks", &registry).ok().unwrap();
    let order: Vec<&str> = plan.checks.iter().map(|c| c.predicate.as_str()).collect();
    assert_eq!(order, vec!["is_draft", "is_in_progress", "is_complete"]);
    assert_eq!(plan.checks[1].accessor, "try_to_in_progress");
    assert_eq!(plan.checks[1].data_type, Some(s("Progress")));
    assert!(plan.is_async);
    assert_eq!(plan.superstate, "TaskMachineSuperState");
    assert_eq!(plan.batch_trait, "TaskMachineBuilderExt");
    assert_eq!(plan.batch_builder, "TaskMachineBatchBuilder");
    assert_eq!(plan.fields[0].name, "name");
}

#[test]
fn validators_errors() {
    let registry = task_registry();
    let empty = ImplDecl { self_ty: path("DbRow", vec![]), methods: vec![] };
    assert!(matches!(parse_validators("TaskMachine", &empty, "tasks", &registry), Err(GenError::NoValidators)));
    let all = || vec![predicate("is_draft", "()"), predicate("is_in_progress", "Progress"), predicate("is_complete", "()")];
    let mut extra = all();
    extra.push(predicate("is_archived", "()"));
    let block = ImplDecl { self_ty: path("DbRow", vec![]), methods: extra };
    assert!(matches!(parse_validators("TaskMachine", &block, "tasks", &registry), Err(GenError::UnknownValidator { .. })));
    let mut wrong_return = all();
    wrong_return[1] = predicate("is_in_progress", "()");
    let block = ImplDecl { self_ty: path("DbRow", vec![]), methods: wrong_return };
    match parse_validators("TaskMachine", &block, "tasks", &registry) {
        Err(GenError::ValidatorReturn { func, expected, actual }) => {
            assert_eq!(func, "is_in_progress");
            assert_eq!(expected, "Progress");
            assert_eq!(actual, "Result<(),Error>");
        }
        _ => panic!("expected a wrong return"),
    }
    let mut arity = all();
    arity[0].params = vec![s("u8")];
    let block = ImplDecl { self_ty: path("DbRow", vec![]), methods: arity };
    assert!(matches!(parse_validators("TaskMachine", &block, "tasks", &registry), Err(GenError::ValidatorArity { .. })));
    let mut receiver = all();
    receiver[2].receiver = Receiver::Value;
    let block = ImplDecl { self_ty: path("DbRow", vec![]), methods: receiver };
    assert!(matches!(parse_validators("TaskMachine", &block, "tasks", &registry), Err(GenError::ValidatorReceiver { .. })));
    let block = ImplDecl { self_ty: path("DbRow", vec![]), methods: all() };
    assert!(matches!(parse_validators("TaskMachine", &block, "elsewhere", &registry), Err(GenError::MachineNotFound { .. })));
}

#[test]
fn last_registration_wins() {
    let mut registry = Registry::new();
    let first = EnumInfo::from_item_enum(&state_decl("First", vec![unit("A")]), "k").ok().unwrap();
    let second = EnumInfo::from_item_enum(&state_decl("Second", vec![unit("B"), unit("C")]), "k").ok().unwrap();
    store_state_enum(&mut registry, &first);
    store_state_enum(&mut registry, &second);
    let found = lookup_state(&registry, &StateFilePath(s("k"))).unwrap();
    assert_eq!(found.name, "Second");
    assert_eq!(found.variants.len(), 2);
    let snapshot = read_state_enum_map(&registry);
    assert_eq!(snapshot.get("k").unwrap().name, "Second");
    assert!(snapshot.get("other").is_none());
}

#[test]
fn state_structural_errors() {
    let mut generic = state_decl("S", vec![unit("A")]);
    generic.generic_params = vec![s("T")];
    assert!(matches!(validate_state_enum(&generic), Some(GenError::StateHasGenerics)));
    assert!(matches!(validate_state_enum(&state_decl("S", vec![])), Some(GenError::EmptyState)));
    let named = VariantDecl { name: s("Bad"), fields: FieldsDecl::Named(vec![FieldDecl { name: Some(s("x")), ty: s("u8") }]) };
    match validate_state_enum(&state_decl("S", vec![unit("A"), named])) {
        Some(GenError::InvalidVariant { variant }) => assert_eq!(variant, "Bad"),
        _ => panic!("expected an invalid variant"),
    }
    let two = VariantDecl { name: s("Two"), fields: FieldsDecl::Unnamed(vec![s("u8"), s("u8")]) };
    assert!(matches!(validate_state_enum(&state_decl("S", vec![two])), Some(GenError::InvalidVariant { .. })));
    match validate_state_enum(&state_decl("S", vec![unit("A"), unit("B"), unit("A")])) {
        Some(GenError::DuplicateVariant { variant }) => assert_eq!(variant, "A"),
        _ => panic!("expected a duplicate"),
    }
    assert!(validate_state_enum(&state_decl("S", vec![unit("A"), payload("B", "String")])).is_none());
    assert!(EnumInfo::from_item_enum(&state_decl("S", vec![]), "k").is_err());
}

#[test]
fn state_info_records_declaration() {
    let mut decl = state_decl("S", vec![unit("A"), payload("B", "Vec < u8 >")]);
    decl.attrs = vec![AttrDecl { path: s("doc"), list: None }, AttrDecl { path: s("derive"), list: Some(vec![s("Clone"), s("Debug")]) }];
    let info = EnumInfo::from_item_enum(&decl, "scope").ok().unwrap();
    assert_eq!(info.derives, vec![s("Clone"), s("Debug")]);
    assert_eq!(info.variants[1].data_type, Some(s("Vec < u8 >")));
    assert_eq!(info.file_path.0, "scope");
    assert_eq!(info.get_trait_name(), "STrait");
    assert!(extract_derive(&AttrDecl { path: s("doc"), list: None }).is_none());
    assert_eq!(extract_derive(&derive(&["Clone"])[0]).unwrap(), vec![s("Clone")]);
    let v = info.get_variant_from_name("b").unwrap();
    assert_eq!(v.name, "B");
}

#[test]
fn machine_parse_and_checks() {
    let mut decl = machine_decl("M", &["S"], &[("a", "u8"), ("state_data", "u8"), ("marker", "u8"), ("b", "String")]);
    decl.attrs = derive(&["Debug", "Clone"]);
    let info = MachineInfo::from_item_struct(&decl, "k").ok().unwrap();
    let names: Vec<&str> = info.fields.iter().map(|f| f.name.as_str()).collect();
    assert_eq!(names, vec!["a", "b"]);
    assert!(matches!(MachineInfo::from_item_struct(&machine_decl("M", &[], &[]), "k"), Err(GenError::MachineNoGenerics)));

    let mut registry = Registry::new();
    assert!(matches!(validate_machine_struct(&registry, &info), Some(GenError::StateNotFound { .. })));
    let mut state = state_decl("S", vec![unit("A")]);
    state.attrs = derive(&["Debug"]);
    let sinfo = EnumInfo::from_item_enum(&state, "k").ok().unwrap();
    store_state_enum(&mut registry, &sinfo);
    match validate_machine_struct(&registry, &info) {
        Some(GenError::MissingDerives { missing }) => assert_eq!(missing, vec![s("Clone")]),
        _ => panic!("expected missing derives"),
    }
    let swapped = MachineInfo::from_item_struct(&machine_decl("BadMachine", &["T", "S"], &[]), "k").ok().unwrap();
    match validate_machine_struct(&registry, &swapped) {
        Some(GenError::GenericMismatch { machine, expected, found }) => {
            assert_eq!(machine, "BadMachine");
            assert_eq!(expected, "S");
            assert_eq!(found, Some(s("T")));
        }
        _ => panic!("expected a generic mismatch"),
    }
    let good = MachineInfo::from_item_struct(&machine_decl("M", &["S", "T"], &[("x", "T")]), "k").ok().unwrap();
    assert!(validate_machine_struct(&registry, &good).is_none());
    store_machine_struct(&mut registry, &good);
    assert_eq!(get_machine_metadata(&registry, &MachinePath(s("k"))).unwrap().name, "M");
    let plan = generate_machine_impls(&registry, &MachinePath(s("k"))).ok().unwrap();
    assert_eq!(plan.state_trait, "STrait");
    assert_eq!(plan.default_state, "UninitializedS");
    assert_eq!(plan.other_params, vec![s("T")]);
    assert_eq!(plan.builders[0].builder_type, "ABuilder");
    assert_eq!(plan.builders[0].state_mod, "a_builder");
    assert!(matches!(generate_machine_impls(&registry, &MachinePath(s("none"))), Err(GenError::MachineNotFound { .. })));
}

#[test]
fn return_shapes_resolve_one_layer() {
    let m = machine_ty("Machine", "B");
    assert_eq!(parse_machine_and_state(&m, "Machine"), Some((s("Machine"), s("B"))));
    let opt = path("Option", vec![machine_ty("Machine", "B")]);
    assert_eq!(parse_machine_and_state(&opt, "Machine").unwrap().1, "B");
    let res = path("Result", vec![machine_ty("Machine", "C"), path("E", vec![])]);
    assert_eq!(parse_machine_and_state(&res, "Machine").unwrap().1, "C");
    let nested = path("Option", vec![path("Option", vec![machine_ty("Machine", "B")])]);
    assert_eq!(parse_machine_and_state(&nested, "Machine"), None);
    assert_eq!(parse_machine_and_state(&path("u64", vec![]), "Machine"), None);
    assert_eq!(parse_machine_and_state(&machine_ty("Other", "B"), "Machine"), None);
}

#[test]
fn transition_errors() {
    let state = state_decl("ProcessState", vec![unit("Init"), unit("NextState"), unit("OtherState")]);
    let registry = setup("p", state, machine_decl("ProcessMachine", &["ProcessState"], &[("id", "u64")]));
    let machine = get_machine_metadata(&registry, &MachinePath(s("p"))).unwrap();
    let state = lookup_state(&registry, &StateFilePath(s("p"))).unwrap();
    assert!(matches!(validate_transition_functions(&vec![], &machine, &state), Some(GenError::NoTransitionMethods)));
    let not_method = vec![method("go", Receiver::Ref, Some(machine_ty("ProcessMachine", "NextState")))];
    assert!(matches!(validate_transition_functions(&not_method, &machine, &state), Some(GenError::NotAMethod { .. })));
    let conditional = vec![method("decide", Receiver::Value, Some(path("Decision", vec![])))];
    match validate_transition_functions(&conditional, &machine, &state) {
        Some(GenError::UnresolvedReturn { func }) => assert_eq!(func, "decide"),
        _ => panic!("expected an unresolved return"),
    }
    let unknown = vec![method("go", Receiver::MutValue, Some(machine_ty("ProcessMachine", "Finished")))];
    assert!(matches!(validate_transition_functions(&unknown, &machine, &state), Some(GenError::UnresolvedReturn { .. })));
    let block = ImplDecl { self_ty: machine_ty("ProcessMachine", "Missing"), methods: vec![method("go", Receiver::Ref, Some(machine_ty("ProcessMachine", "NextState")))] };
    match generate_transition_impl(&block, "p", &registry) {
        Err(GenError::InvalidStateVariant { state, state_enum }) => {
            assert_eq!(state, Some(s("Missing")));
            assert_eq!(state_enum, "ProcessState");
        }
        _ => panic!("expected an invalid state variant"),
    }
    let block = ImplDecl { self_ty: machine_ty("ProcessMachine", "Init"), methods: vec![] };
    assert!(matches!(generate_transition_impl(&block, "nowhere", &registry), Err(GenError::MachineNotFound { .. })));
    let twice = ImplDecl {
        self_ty: machine_ty("ProcessMachine", "Init"),
        methods: vec![
            method("a", Receiver::Value, Some(machine_ty("ProcessMachine", "NextState"))),
            method("b", Receiver::Value, Some(path("Option", vec![machine_ty("ProcessMachine", "NextState")]))),
            method("c", Receiver::Value, Some(machine_ty("ProcessMachine", "OtherState"))),
        ],
    };
    let plan = generate_transition_impl(&twice, "p", &registry).ok().unwrap();
    let targets: Vec<&str> = plan.targets.iter().map(|t| t.name.as_str()).collect();
    assert_eq!(targets, vec!["NextState", "OtherState"]);
    assert_eq!(plan.functions.len(), 3);
    assert_eq!(plan.source.name, "Init");
}

#[test]
fn derived_names() {
    assert_eq!(to_snake_case("InReview"), "in_review");
    assert_eq!(to_snake_case("Draft"), "draft");
    assert_eq!(to_snake_case(""), "");
    assert_eq!(validator_name_of("InProgress"), "is_in_progress");
    assert_eq!(builder_mod_of("InProgress"), "inprogress_builder");
}

#[test]
fn module_paths_from_files() {
    assert_eq!(module_path_from_file("/home/u/app/src/lib.rs"), "crate");
    assert_eq!(module_path_from_file("/home/u/app/src/main.rs"), "crate");
    assert_eq!(module_path_from_file("/home/u/app/src/a/b.rs"), "a::b");
    assert_eq!(module_path_from_file("C:\\app\\src\\a\\mod.rs"), "a");
    assert_eq!(module_path_from_file("plain.rs"), "plain");
    assert_eq!(module_path_from_file(""), "crate");
    assert_eq!(module_root_from_file("/home/u/app/src/a/b.rs"), "/home/u/app/src");
    assert_eq!(module_root_from_file("dir/file.rs"), "dir");
    assert_eq!(module_root_from_file("file.rs"), "");
    assert_eq!(module_path_from_file_with_root("/w/src/x/y.rs", "/w/src"), "x::y");
    assert_eq!(module_path_from_file_with_root("/w/src/lib.rs", "/w/src"), "crate");
    assert_eq!(module_path_from_file_with_root("/other/src/z.rs", "/w/src"), "z");
    assert_eq!(module_file_candidates("crate::a::b", "cur.rs", "/r/src"), vec![s("/r/src/a/b.rs"), s("/r/src/a/b/mod.rs")]);
    assert_eq!(module_file_candidates("crate", "cur.rs", "/r/src"), vec![s("/r/src/lib.rs"), s("/r/src/main.rs"), s("cur.rs")]);
}

#[test]
fn module_path_of_nested_modules() {
    let inner = ModuleSpan { name: s("inner"), start_line: 3, end_line: 5, children: vec![] };
    let outer = ModuleSpan { name: s("outer"), start_line: 1, end_line: 10, children: vec![inner] };
    let other = ModuleSpan { name: s("other"), start_line: 11, end_line: 20, children: vec![] };
    let items = vec![outer, other];
    assert_eq!(module_path_at_line("crate", &items, 4), "outer::inner");
    assert_eq!(module_path_at_line("crate", &items, 8), "outer");
    assert_eq!(module_path_at_line("a::b", &items, 12), "a::b::other");
    assert_eq!(module_path_at_line("a::b", &items, 30), "a::b");
    assert_eq!(join_module_path("crate", &vec![s("x"), s("y")]), "x::y");
}

#[test]
fn data_mut_needs_clone() {
    let state = state_decl("S", vec![payload("A", "u8"), unit("B")]);
    let registry = setup("d", state, machine_decl("M", &["S"], &[]));
    let mut body = method("edit", Receiver::MutValue, Some(machine_ty("M", "B")));
    body.calls_data_mut = true;
    let block = ImplDecl { self_ty: machine_ty("M", "A"), methods: vec![body] };
    assert!(matches!(generate_transition_impl(&block, "d", &registry), Err(GenError::DataMutNeedsMachineClone)));

    let mut state = state_decl("S", vec![payload("A", "u8"), unit("B")]);
    state.attrs = derive(&["Clone"]);
    let mut machine = machine_decl("M", &["S"], &[]);
    machine.attrs = derive(&["Clone"]);
    let registry = setup("d", state, machine);
    let mut body = method("edit", Receiver::MutValue, Some(machine_ty("M", "B")));
    body.calls_data_mut = true;
    let block = ImplDecl { self_ty: machine_ty("M", "A"), methods: vec![body] };
    let plan = generate_transition_impl(&block, "d", &registry).ok().unwrap();
    assert_eq!(plan.source.data_type, Some(s("u8")));

    let mut machine = machine_decl("M", &["S"], &[]);
    machine.attrs = derive(&["Clone"]);
    let registry = setup("d", state_decl("S", vec![payload("A", "u8"), unit("B")]), machine);
    let mut body = method("edit", Receiver::MutValue, Some(machine_ty("M", "B")));
    body.calls_data_mut = true;
    let block = ImplDecl { self_ty: machine_ty("M", "A"), methods: vec![body] };
    assert!(matches!(generate_transition_impl(&block, "d", &registry), Err(GenError::DataMutNeedsStateClone)));
}

#[test]
fn registry_search_by_name() {
    let registry = task_registry();
    let vs = get_state_variants(&registry, &StateEnumName(s("TaskState"))).unwrap();
    let names: Vec<&str> = vs.iter().map(|v| v.name.as_str()).collect();
    assert_eq!(names, vec!["Draft", "InProgress", "Complete"]);
    assert!(get_state_variants(&registry, &StateEnumName(s("Nope"))).is_none());
    let fs = get_machine_fields(&registry, &MachineName(s("TaskMachine"))).unwrap();
    assert_eq!(fs[0].field_type, "String");
    assert!(get_machine_fields(&registry, &MachineName(s("Nope"))).is_none());
}

#[test]
fn attribute_arguments() {
    let pairs = vec![(s("state"), s("TaskState")), (s("machine"), s("TaskMachine"))];
    let a = ModelAttr::from_pairs(&pairs).ok().unwrap();
    assert_eq!(a.machine, "TaskMachine");
    assert_eq!(a.state, "TaskState");
    let dup = vec![(s("machine"), s("A")), (s("machine"), s("B"))];
    assert!(matches!(ModelAttr::from_pairs(&dup), Err(AttrError::DuplicateMachine)));
    let dup = vec![(s("state"), s("A")), (s("state"), s("B"))];
    assert!(matches!(ModelAttr::from_pairs(&dup), Err(AttrError::DuplicateState)));
    let bad = vec![(s("machin"), s("A")), (s("state"), s("B"))];
    match ModelAttr::from_pairs(&bad) {
        Err(AttrError::ExpectedMachineOrState { name }) => assert_eq!(name, "machin"),
        _ => panic!("expected an unknown name"),
    }
    assert!(matches!(ModelAttr::from_pairs(&vec![]), Err(AttrError::WrongArity)));
    let v = ValidatorsAttr::from_pairs(&pairs).ok().unwrap();
    assert_eq!(v.state, "TaskState");
    assert_eq!(v.machine, "TaskMachine");
}

#[test]
fn derive_analysis_and_field_types() {
    let a = analyze_user_derives(&derive(&["Debug", "Serialize", "serde::Deserialize"]));
    assert!(a.wants_debug && a.wants_serialize);
    assert!(!a.wants_deserialize && !a.wants_clone);
    assert_eq!(a.derives.len(), 3);
    assert_eq!(turn_string_ref_into_str_slice("String"), "str");
    assert_eq!(turn_string_ref_into_str_slice("u64"), "u64");
}

#[test]
fn registry_maps_and_variant_lookup() {
    let registry = task_registry();
    assert_eq!(get_state_enum_map(&registry).get("tasks").unwrap().name, "TaskState");
    assert_eq!(get_machine_map(&registry).get("tasks").unwrap().name, "TaskMachine");
    assert!(read_machine_map(&registry).contains("tasks"));
    assert!(!read_machine_map(&registry).contains("other"));
    let v = get_state_enum_variant(&registry, &StateFilePath(s("tasks")), "in_progress").unwrap();
    assert_eq!(v.name, "InProgress");
    assert_eq!(v.data_type, Some(s("Progress")));
    assert!(get_state_enum_variant(&registry, &StateFilePath(s("tasks")), "Archived").is_none());
    assert!(get_state_enum_variant(&registry, &StateFilePath(s("other")), "Draft").is_none());
}

#[test]
fn model_accessors_follow_state_order() {
    let registry = task_registry();
    let attr = ModelAttr { machine: s("TaskMachine"), state: s("TaskState") };
    let plan = model_plan(&registry, &attr).ok().unwrap();
    let accessors: Vec<&str> = plan.accessors.iter().map(|a| a.accessor.as_str()).collect();
    assert_eq!(accessors, vec!["try_to_draft", "try_to_in_progress", "try_to_complete"]);
    assert_eq!(plan.accessors[1].predicate, "is_in_progress");
    assert_eq!(plan.fields.len(), 1);
    let missing = ModelAttr { machine: s("TaskMachine"), state: s("Other") };
    assert!(matches!(model_plan(&registry, &missing), Err(GenError::StateNotFound { .. })));
    let missing = ModelAttr { machine: s("Other"), state: s("TaskState") };
    assert!(matches!(model_plan(&registry, &missing), Err(GenError::MachineNotFound { .. })));
}
