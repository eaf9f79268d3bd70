//! The runtime side of generated code: state markers, the generic machine
//! container, its builder, transitions and classification.
use vstd::prelude::*;
use core::marker::PhantomData;

verus! {

/// The interface shared by every state marker; `Data` is the payload that
/// a machine in that state carries (`()` for a unit state).
pub trait StateTrait {
    type Data;
}

/// Marks a state whose machines carry a payload.
pub trait RequiresStateData {}

/// Marks a state whose machines carry no payload.
pub trait DoesNotRequireStateData {}

/// The state a machine type refers to before it is put in any state.
pub struct UninitializedState;

impl StateTrait for UninitializedState {
    type Data = ();
}

/// A machine in state `S`, carrying the state-independent context `C` and
/// the payload of its state.
pub struct Machine<S: StateTrait, C> {
    pub context: C,
    pub state_data: S::Data,
    pub marker: PhantomData<S>,
}

/// Whether a builder slot has been set.
pub trait SlotState {
    spec fn is_set() -> bool;
}

/// A builder slot not set yet.
pub struct Empty;

/// A builder slot already set.
pub struct Filled;

impl SlotState for Empty {
    open spec fn is_set() -> bool {
        false
    }
}

impl SlotState for Filled {
    open spec fn is_set() -> bool {
        true
    }
}

/// A builder of a machine in state `S`. The slot states `CS` (context) and
/// `DS` (payload) record in the type what has been set, so that each part
/// can be set once, in any order, and the machine is only built when every
/// required part is there.
pub struct MachineBuilder<S: StateTrait, C, CS: SlotState, DS: SlotState> {
    context: Option<C>,
    state_data: Option<S::Data>,
    marker: PhantomData<(S, CS, DS)>,
}

impl<S: StateTrait, C, CS: SlotState, DS: SlotState> MachineBuilder<S, C, CS, DS> {
    #[verifier::type_invariant]
    spec fn slots_match(self) -> bool {
        &&& self.context is Some <==> CS::is_set()
        &&& self.state_data is Some <==> DS::is_set()
    }

    /// The context set so far.
    pub closed spec fn context_value(self) -> Option<C> {
        self.context
    }

    /// The payload set so far.
    pub closed spec fn data_value(self) -> Option<S::Data> {
        self.state_data
    }
}

impl<S: StateTrait, C> Machine<S, C> {
    /// A machine in state `S` from its context and payload.
    pub fn new(context: C, state_data: S::Data) -> (r: Self)
        ensures
            r.context == context,
            r.state_data == state_data,
    {
        Machine { context, state_data, marker: PhantomData }
    }

    /// Starts building a machine in state `S`, with nothing set.
    pub fn builder() -> (r: MachineBuilder<S, C, Empty, Empty>)
        ensures
            r.context_value() is None,
            r.data_value() is None,
    {
        MachineBuilder { context: None, state_data: None, marker: PhantomData }
    }

    /// The payload of the current state.
    pub fn get_data(&self) -> (r: &S::Data)
        ensures
            *r == self.state_data,
    {
        &self.state_data
    }

    /// Moves to the unit state `N`. The context is kept as it is.
    pub fn transition<N: StateTrait<Data = ()>>(self) -> (r: Machine<N, C>)
        ensures
            r.context == self.context,
    {
        Machine { context: self.context, state_data: (), marker: PhantomData }
    }

    /// Moves to the state `N` with the payload `data`. The context is kept
    /// as it is.
    pub fn transition_with<N: StateTrait>(self, data: N::Data) -> (r: Machine<N, C>)
        ensures
            r.context == self.context,
            r.state_data == data,
    {
        Machine { context: self.context, state_data: data, marker: PhantomData }
    }
}

impl<S: StateTrait, C, DS: SlotState> MachineBuilder<S, C, Empty, DS> {
    /// Sets the context.
    pub fn context(self, value: C) -> (r: MachineBuilder<S, C, Filled, DS>)
        ensures
            r.context_value() == Some(value),
            r.data_value() == self.data_value(),
    {
        proof {
            use_type_invariant(&self);
        }
        MachineBuilder { context: Some(value), state_data: self.state_data, marker: PhantomData }
    }
}

impl<S: StateTrait, C, CS: SlotState> MachineBuilder<S, C, CS, Empty> {
    /// Sets the payload.
    pub fn state_data(self, value: S::Data) -> (r: MachineBuilder<S, C, CS, Filled>)
        ensures
            r.data_value() == Some(value),
            r.context_value() == self.context_value(),
    {
        proof {
            use_type_invariant(&self);
        }
        MachineBuilder { context: self.context, state_data: Some(value), marker: PhantomData }
    }
}

impl<S: StateTrait, C> MachineBuilder<S, C, Filled, Filled> {
    /// Builds the machine from the context and payload that were set.
    pub fn build(self) -> (r: Machine<S, C>)
        ensures
            Some(r.context) == self.context_value(),
            Some(r.state_data) == self.data_value(),
    {
        proof {
            use_type_invariant(&self);
        }
        Machine { context: self.context.unwrap(), state_data: self.state_data.unwrap(), marker: PhantomData }
    }
}

impl<S: StateTrait<Data = ()>, C> MachineBuilder<S, C, Filled, Empty> {
    /// Builds a machine in a unit state from the context that was set.
    pub fn build(self) -> (r: Machine<S, C>)
        ensures
            Some(r.context) == self.context_value(),
    {
        proof {
            use_type_invariant(&self);
        }
        Machine { context: self.context.unwrap(), state_data: (), marker: PhantomData }
    }
}

impl<S: StateTrait> MachineBuilder<S, (), Empty, Filled> {
    /// Builds a machine without context from the payload that was set.
    pub fn build(self) -> (r: Machine<S, ()>)
        ensures
            Some(r.state_data) == self.data_value(),
    {
        proof {
            use_type_invariant(&self);
        }
        Machine { context: (), state_data: self.state_data.unwrap(), marker: PhantomData }
    }
}

impl<S: StateTrait<Data = ()>> MachineBuilder<S, (), Empty, Empty> {
    /// Builds a machine in a unit state without context.
    pub fn build(self) -> (r: Machine<S, ()>) {
        Machine { context: (), state_data: (), marker: PhantomData }
    }
}

/// Moving to the unit state `N`, keeping the context.
pub trait TransitionTo<N: StateTrait> {
    type Output;

    fn transition(self) -> Self::Output;
}

impl<S: StateTrait, N: StateTrait<Data = ()>, C> TransitionTo<N> for Machine<S, C> {
    type Output = Machine<N, C>;

    fn transition(self) -> Machine<N, C> {
        Machine::<S, C>::transition::<N>(self)
    }
}

/// Moving to the state `N` with a payload, keeping the context.
pub trait TransitionWith<N: StateTrait> {
    type Output;

    fn transition_with(self, data: N::Data) -> Self::Output;
}

impl<S: StateTrait, N: StateTrait, C> TransitionWith<N> for Machine<S, C> {
    type Output = Machine<N, C>;

    fn transition_with(self, data: N::Data) -> Machine<N, C> {
        Machine::<S, C>::transition_with::<N>(self, data)
    }
}

} // verus!
