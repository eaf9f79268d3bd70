use statum::decl::{AttrDecl, EnumDecl, FieldDecl, FieldsDecl, ImplDecl, MethodDecl, Receiver, StructDecl, TypeDecl, VariantDecl};
use statum::machine::{generate_machine_impls, validate_machine_struct};
use statum::model::{EnumInfo, MachineInfo, MachinePath, StateFilePath};
use statum::registry::{store_machine_struct, store_state_enum, Registry};
use statum::runtime::{DoesNotRequireStateData, Machine, RequiresStateData, StateTrait};
use statum::state::generate_state_impls;
use statum::transition::generate_transition_impl;

fn s(x: &str) -> String {
    x.to_string()
}

fn unit(name: &str) -> VariantDecl {
    VariantDecl { name: s(name), fields: FieldsDecl::Unit }
}

fn payload(name: &str, ty: &str) -> VariantDecl {
    VariantDecl { name: s(name), fields: FieldsDecl::Unnamed(vec![s(ty)]) }
}

fn derive(list: &[&str]) -> Vec<AttrDecl> {
    if list.is_empty() {
        return vec![];
    }
    vec![AttrDecl { path: s("derive"), list: Some(list.iter().map(|d| s(d)).collect()) }]
}

fn state_decl(name: &str, variants: Vec<VariantDecl>, derives: &[&str]) -> EnumDecl {
    EnumDecl {
        name: s(name),
        vis: s("pub"),
        generics: String::new(),
        generic_params: vec![],
        attrs: derive(derives),
        variants,
    }
}

fn machine_decl(name: &str, state: &str, fields: &[(&str, &str)], derives: &[&str]) -> StructDecl {
    StructDecl {
        name: s(name),
        vis: s("pub"),
        generics: format!("< {} >", state),
        generic_params: vec![s(state)],
        attrs: derive(derives),
        fields: fields.iter().map(|(n, t)| FieldDecl { name: Some(s(n)), ty: s(t) }).collect(),
    }
}

fn path(ident: &str, args: Vec<TypeDecl>) -> TypeDecl {
    let text = if args.is_empty() {
        s(ident)
    } else {
        let inner: Vec<String> = args
            .iter()
            .map(|a| match a {
                TypeDecl::Path { text, .. } => text.clone(),
                TypeDecl::Other { text } => text.clone(),
            })
            .collect();
        format!("{}<{}>", ident, inner.join(","))
    };
    TypeDecl::Path { ident: s(ident), args, text }
}

fn machine_ty(machine: &str, state: &str) -> TypeDecl {
    path(machine, vec![path(state, vec![])])
}

fn method(name: &str, output: TypeDecl) -> MethodDecl {
    MethodDecl { name: s(name), receiver: Receiver::Value, params: vec![], output: Some(output), is_async: false, calls_data_mut: false }
}

/// Registers a state and a machine under `scope` and checks both plans.
fn declare(registry: &mut Registry, scope: &str, state: &EnumDecl, machine: &StructDecl) {
    let info = EnumInfo::from_item_enum(state, scope).ok().unwrap();
    store_state_enum(registry, &info);
    let plan = generate_state_impls(registry, &StateFilePath(s(scope))).ok().unwrap();
    assert_eq!(plan.markers.len(), state.variants.len());
    let m = MachineInfo::from_item_struct(machine, scope).ok().unwrap();
    assert!(validate_machine_struct(registry, &m).is_none());
    store_machine_struct(registry, &m);
    let mplan = generate_machine_impls(registry, &MachinePath(s(scope))).ok().unwrap();
    assert_eq!(mplan.builders.len(), state.variants.len());
}

fn transitions(registry: &Registry, scope: &str, machine: &str, source: &str, methods: Vec<MethodDecl>) -> Vec<String> {
    let block = ImplDecl { self_ty: machine_ty(machine, source), methods };
    let plan = generate_transition_impl(&block, scope, registry).ok().unwrap();
    plan.functions.iter().map(|f| f.target.name.clone()).collect()
}

struct Draft;
struct InReview;
struct Published;

impl StateTrait for Draft {
    type Data = ();
}
impl StateTrait for InReview {
    type Data = ();
}
impl StateTrait for Published {
    type Data = ();
}
impl DoesNotRequireStateData for Draft {}
impl DoesNotRequireStateData for InReview {}
impl DoesNotRequireStateData for Published {}

fn review_state() -> EnumDecl {
    state_decl("State", vec![unit("Draft"), unit("InReview"), unit("Published")], &[])
}

#[test]
fn example_01_setup() {
    let mut registry = Registry::new();
    declare(&mut registry, "crate", &review_state(), &machine_decl("Machine", "State", &[], &[]));
    let _machine: Machine<Draft, ()> = Machine::<Draft, ()>::builder().build();
}

#[derive(Clone, Debug, PartialEq)]
struct Context {
    client: String,
    db_pool: String,
}

#[test]
fn example_02_machine_context() {
    let mut registry = Registry::new();
    let machine = machine_decl("Machine", "State", &[("client", "String"), ("db_pool", "String")], &[]);
    declare(&mut registry, "crate", &review_state(), &machine);
    let plan = generate_machine_impls(&registry, &MachinePath(s("crate"))).ok().unwrap();
    let names: Vec<&str> = plan.builders[0].required_fields.iter().map(|f| f.name.as_str()).collect();
    assert_eq!(names, vec!["client", "db_pool"]);
    let ctx = Context { client: s("Pretend this is some client"), db_pool: s("Pretend this is a db pool") };
    let machine = Machine::<Draft, Context>::builder().context(ctx.clone()).build();
    assert_eq!(machine.context, ctx);
}

#[test]
fn example_03_derives() {
    let mut registry = Registry::new();
    let state = state_decl("State", vec![unit("Draft"), unit("InReview"), unit("Published")], &["Clone", "Debug"]);
    declare(&mut registry, "crate", &state, &machine_decl("Machine", "State", &[], &["Clone", "Debug"]));
    let plan = generate_state_impls(&registry, &StateFilePath(s("crate"))).ok().unwrap();
    assert_eq!(plan.derives, vec![s("Clone"), s("Debug")]);
    let machine = Machine::<Draft, u8>::builder().context(1).build();
    let copy = Machine::<Draft, u8>::new(machine.context, ());
    assert_eq!(copy.context, 1);
}

#[test]
fn example_04_transitions() {
    let mut registry = Registry::new();
    declare(&mut registry, "crate", &review_state(), &machine_decl("Machine", "State", &[], &[]));
    let first = transitions(&registry, "crate", "Machine", "Draft", vec![method("into_in_review", machine_ty("Machine", "InReview"))]);
    assert_eq!(first, vec![s("InReview")]);
    let second = transitions(&registry, "crate", "Machine", "InReview", vec![method("into_published", machine_ty("Machine", "Published"))]);
    assert_eq!(second, vec![s("Published")]);
    let machine = Machine::<Draft, ()>::builder().build();
    let machine: Machine<InReview, ()> = machine.transition();
    let _machine: Machine<Published, ()> = machine.transition();
}

struct Cart;
struct PaymentPending;
struct PaymentConfirmed;

impl StateTrait for Cart {
    type Data = ();
}
impl StateTrait for PaymentPending {
    type Data = String;
}
impl StateTrait for PaymentConfirmed {
    type Data = ();
}
impl RequiresStateData for PaymentPending {}

#[test]
fn example_05_split_transition() {
    let mut registry = Registry::new();
    let state = state_decl(
        "CheckoutState",
        vec![unit("Cart"), payload("PaymentPending", "String"), unit("PaymentConfirmed"), unit("Shipped")],
        &["Clone"],
    );
    let machine = machine_decl("OrderMachine", "CheckoutState", &[("user_id", "u64")], &["Clone"]);
    declare(&mut registry, "crate", &state, &machine);
    let from_cart = transitions(&registry, "crate", "OrderMachine", "Cart", vec![method("proceed_to_payment", machine_ty("OrderMachine", "PaymentPending"))]);
    assert_eq!(from_cart, vec![s("PaymentPending")]);
    let from_pending = transitions(
        &registry,
        "crate",
        "OrderMachine",
        "PaymentPending",
        vec![
            method("confirm_payment", machine_ty("OrderMachine", "PaymentConfirmed")),
            method("cancel_payment", machine_ty("OrderMachine", "Cart")),
        ],
    );
    assert_eq!(from_pending, vec![s("PaymentConfirmed"), s("Cart")]);
    let cart = Machine::<Cart, u64>::builder().context(123).build();
    let pending: Machine<PaymentPending, u64> = cart.transition_with(s("txn_123"));
    assert_eq!(pending.state_data, "txn_123");
    let confirmed: Machine<PaymentConfirmed, u64> = Machine::<PaymentPending, u64>::new(pending.context, pending.state_data.clone()).transition();
    assert_eq!(confirmed.context, 123);
    let back: Machine<Cart, u64> = pending.transition();
    assert_eq!(back.context, 123);
}

#[derive(Clone, Debug, PartialEq)]
struct MyDraft {
    title: String,
    content: String,
}

struct DraftWithData;
impl StateTrait for DraftWithData {
    type Data = MyDraft;
}

#[test]
fn example_07_state_data() {
    let mut registry = Registry::new();
    let state = state_decl("State", vec![payload("Draft", "MyDraft"), unit("InReview"), unit("Published")], &[]);
    declare(&mut registry, "crate", &state, &machine_decl("Machine", "State", &[], &[]));
    let plan = generate_state_impls(&registry, &StateFilePath(s("crate"))).ok().unwrap();
    assert!(plan.markers[0].requires_data);
    assert_eq!(plan.markers[0].data_type, Some(s("MyDraft")));
    assert!(!plan.markers[1].requires_data);
    let draft = MyDraft { title: s("My first article"), content: s("This is the content of my first article") };
    let machine = Machine::<DraftWithData, ()>::builder().state_data(draft.clone()).build();
    assert_eq!(machine.get_data(), &draft);
    let _next: Machine<InReview, ()> = machine.transition();
}

#[derive(Clone, Debug, PartialEq)]
struct DraftWithComment {
    draft: MyDraft,
    comment: String,
}

struct Commented;
impl StateTrait for Commented {
    type Data = DraftWithComment;
}

#[test]
fn example_08_transition_with_data() {
    let mut registry = Registry::new();
    let state = state_decl("State", vec![payload("Draft", "MyDraft"), payload("InReview", "DraftWithComment"), unit("Published")], &[]);
    declare(&mut registry, "crate", &state, &machine_decl("Machine", "State", &[], &[]));
    let block = ImplDecl { self_ty: machine_ty("Machine", "Draft"), methods: vec![method("into_review", machine_ty("Machine", "InReview"))] };
    let plan = generate_transition_impl(&block, "crate", &registry).ok().unwrap();
    assert_eq!(plan.functions[0].target.data_type, Some(s("DraftWithComment")));
    assert_eq!(plan.source.data_type, Some(s("MyDraft")));
    let draft = MyDraft { title: s("t"), content: s("c") };
    let machine = Machine::<DraftWithData, ()>::builder().state_data(draft.clone()).build();
    let with_comment = DraftWithComment { draft: machine.state_data.clone(), comment: s("This is a comment") };
    let reviewed: Machine<Commented, ()> = machine.transition_with(with_comment.clone());
    assert_eq!(reviewed.state_data, with_comment);
    let _published: Machine<Published, ()> = reviewed.transition();
}

struct Running;
impl StateTrait for Running {
    type Data = ();
}
struct NotStarted;
impl StateTrait for NotStarted {
    type Data = ();
}
struct InProgress;
impl StateTrait for InProgress {
    type Data = Machine<Running, ()>;
}

#[test]
fn example_11_hierarchical_machines() {
    let mut registry = Registry::new();
    let task = state_decl("State", vec![unit("Idle"), unit("Running"), unit("Completed")], &["Debug"]);
    declare(&mut registry, "task", &task, &machine_decl("Machine", "State", &[], &["Debug"]));
    let workflow = state_decl("State", vec![unit("NotStarted"), payload("InProgress", "task::Machine<task::Running>"), unit("Finished")], &["Debug"]);
    declare(&mut registry, "workflow", &workflow, &machine_decl("Machine", "State", &[], &["Debug"]));
    let targets = transitions(&registry, "workflow", "Machine", "NotStarted", vec![method("start", machine_ty("Machine", "InProgress"))]);
    assert_eq!(targets, vec![s("InProgress")]);
    let task_plan = generate_state_impls(&registry, &StateFilePath(s("task"))).ok().unwrap();
    assert_eq!(task_plan.markers[1].name, "Running");
    let task_machine = Machine::<Running, ()>::builder().build();
    let workflow_machine = Machine::<NotStarted, ()>::builder().build();
    let workflow_machine: Machine<InProgress, ()> = workflow_machine.transition_with(task_machine);
    let _inner: &Machine<Running, ()> = &workflow_machine.state_data;
}

struct Pending;
struct Confirmed;
struct Reverted;
impl StateTrait for Pending {
    type Data = ();
}
impl StateTrait for Confirmed {
    type Data = ();
}
impl StateTrait for Reverted {
    type Data = ();
}

#[test]
fn example_12_rollbacks() {
    let mut registry = Registry::new();
    let state = state_decl("State", vec![unit("Pending"), unit("Confirmed"), unit("Reverted")], &[]);
    declare(&mut registry, "transaction", &state, &machine_decl("Machine", "State", &[], &[]));
    let wrapped = path("Result", vec![machine_ty("Machine", "Confirmed"), machine_ty("Machine", "Reverted")]);
    let targets = transitions(
        &registry,
        "transaction",
        "Machine",
        "Pending",
        vec![method("confirm", wrapped), method("rollback", machine_ty("Machine", "Reverted"))],
    );
    assert_eq!(targets, vec![s("Confirmed"), s("Reverted")]);
    let machine = Machine::<Pending, ()>::builder().build();
    let confirmed: Result<Machine<Confirmed, ()>, Machine<Reverted, ()>> = Ok(machine.transition());
    assert!(confirmed.is_ok());
}

#[derive(Clone, Debug, PartialEq)]
struct ReviewData {
    reviewer: String,
}

struct UnderReview;
impl StateTrait for UnderReview {
    type Data = ReviewData;
}
struct Approved;
impl StateTrait for Approved {
    type Data = ();
}

#[test]
fn example_13_review_flow() {
    let mut registry = Registry::new();
    let state = state_decl("TaskState", vec![unit("Draft"), payload("InReview", "ReviewData"), unit("Approved")], &[]);
    declare(&mut registry, "crate", &state, &machine_decl("Task", "TaskState", &[("id", "u64")], &[]));
    let first = transitions(&registry, "crate", "Task", "Draft", vec![method("submit_for_review", machine_ty("Task", "InReview"))]);
    assert_eq!(first, vec![s("InReview")]);
    let second = transitions(&registry, "crate", "Task", "InReview", vec![method("approve", machine_ty("Task", "Approved"))]);
    assert_eq!(second, vec![s("Approved")]);
    let task = Machine::<Draft, u64>::builder().context(42).build();
    let task: Machine<UnderReview, u64> = task.transition_with(ReviewData { reviewer: s("sam") });
    assert_eq!(task.state_data.reviewer.as_str(), "sam");
    let task: Machine<Approved, u64> = task.transition();
    assert_eq!(task.context, 42);
}
