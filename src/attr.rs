//! Arguments of the `model` and `validators` attributes, read from the
//! `name = value` pairs they are written as.
use vstd::prelude::*;
use crate::text::str_eq;

verus! {

/// Why attribute arguments were refused.
#[derive(Debug)]
pub enum AttrError {
    /// The attribute does not hold exactly two `name = value` pairs.
    WrongArity,
    /// A name is neither `machine` nor `state`.
    ExpectedMachineOrState { name: String },
    /// `machine` is given twice.
    DuplicateMachine,
    /// `state` is given twice.
    DuplicateState,
}

/// The arguments of `#[model(machine = .., state = ..)]`, in either order.
pub struct ModelAttr {
    pub machine: String,
    pub state: String,
}

/// The name is one that the attribute accepts.
pub open spec fn known_param(n: Seq<char>) -> bool {
    n == "machine"@ || n == "state"@
}

impl ModelAttr {
    /// Reads the two pairs `machine = ..` and `state = ..`, in either order.
    pub fn from_pairs(pairs: &Vec<(String, String)>) -> (r: Result<ModelAttr, AttrError>)
        ensures
            (r matches Err(AttrError::WrongArity)) <==> pairs@.len() != 2,
            pairs@.len() == 2 ==> {
                let n1 = pairs@[0].0@;
                let n2 = pairs@[1].0@;
                &&& r is Ok <==> known_param(n1) && known_param(n2) && n1 != n2
                &&& r matches Ok(a) ==> (if n1 == "machine"@ {
                    a.machine@ == pairs@[0].1@ && a.state@ == pairs@[1].1@
                } else {
                    a.machine@ == pairs@[1].1@ && a.state@ == pairs@[0].1@
                })
                &&& r matches Err(AttrError::ExpectedMachineOrState { name }) ==> (!known_param(n1)
                    && name@ == n1) || (known_param(n1) && !known_param(n2) && name@ == n2)
                &&& (r matches Err(AttrError::DuplicateMachine)) <==> n1 == "machine"@ && n2 == "machine"@
                &&& (r matches Err(AttrError::DuplicateState)) <==> n1 == "state"@ && n2 == "state"@
            },
    {
        proof {
            reveal_strlit("machine");
            reveal_strlit("state");
            assert("machine"@[0] != "state"@[0]);
        }
        if pairs.len() != 2 {
            return Err(AttrError::WrongArity);
        }
        let (n1, v1) = (&pairs[0].0, &pairs[0].1);
        let (n2, v2) = (&pairs[1].0, &pairs[1].1);
        let first_machine = str_eq(n1.as_str(), "machine");
        let first_state = str_eq(n1.as_str(), "state");
        if !first_machine && !first_state {
            return Err(AttrError::ExpectedMachineOrState { name: n1.clone() });
        }
        let second_machine = str_eq(n2.as_str(), "machine");
        let second_state = str_eq(n2.as_str(), "state");
        if !second_machine && !second_state {
            return Err(AttrError::ExpectedMachineOrState { name: n2.clone() });
        }
        if first_machine && second_machine {
            return Err(AttrError::DuplicateMachine);
        }
        if first_state && second_state {
            return Err(AttrError::DuplicateState);
        }
        if first_machine {
            Ok(ModelAttr { machine: v1.clone(), state: v2.clone() })
        } else {
            Ok(ModelAttr { machine: v2.clone(), state: v1.clone() })
        }
    }
}

/// The arguments of `#[validators(state = .., machine = ..)]`: the first
/// value names the state, the second the machine.
pub struct ValidatorsAttr {
    pub state: String,
    pub machine: String,
}

impl ValidatorsAttr {
    /// Reads the two pairs, by position.
    pub fn from_pairs(pairs: &Vec<(String, String)>) -> (r: Result<ValidatorsAttr, AttrError>)
        ensures
            r is Err <==> pairs@.len() != 2,
            r matches Ok(a) ==> a.state@ == pairs@[0].1@ && a.machine@ == pairs@[1].1@,
    {
        if pairs.len() != 2 {
            return Err(AttrError::WrongArity);
        }
        Ok(ValidatorsAttr { state: pairs[0].1.clone(), machine: pairs[1].1.clone() })
    }
}

} // verus!
