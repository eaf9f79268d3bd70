//! Names derived from declared names.
use vstd::prelude::*;

verus! {

/// Whether a character has Unicode's Uppercase property.
pub uninterp spec fn upper_case_char(c: char) -> bool;

/// The first character of a character's lowercase mapping.
pub uninterp spec fn lower_case_char(c: char) -> char;

/// The lowercase mapping of a whole string.
pub uninterp spec fn lower_case_str(s: Seq<char>) -> Seq<char>;

/// Relies on `char::is_uppercase`: whether `c` has the Uppercase property.
#[verifier::external_body]
fn is_upper(c: char) -> (r: bool)
    ensures
        r == upper_case_char(c),
{
    c.is_uppercase()
}

/// Relies on `char::to_lowercase`: the first character of the mapping, which
/// always yields at least one character.
#[verifier::external_body]
fn lower_first(c: char) -> (r: char)
    ensures
        r == lower_case_char(c),
{
    c.to_lowercase().next().unwrap_or(c)
}

/// Relies on `str::to_lowercase`: the lowercase mapping of `s`.
#[verifier::external_body]
fn lowercase(s: &str) -> (r: String)
    ensures
        r@ == lower_case_str(s@),
{
    s.to_lowercase()
}

/// Snake case: each character lowercased, with `_` before every uppercase
/// character but the first one.
pub open spec fn snake_case(s: Seq<char>) -> Seq<char>
    decreases s.len(),
{
    if s.len() == 0 {
        seq![]
    } else {
        let c = s.last();
        let prefix = snake_case(s.drop_last());
        if s.len() > 1 && upper_case_char(c) {
            prefix.push('_').push(lower_case_char(c))
        } else {
            prefix.push(lower_case_char(c))
        }
    }
}

/// Converts a camel-case name into snake case (`InReview` gives `in_review`).
pub fn to_snake_case(s: &str) -> (r: String)
    ensures
        r@ == snake_case(s@),
{
    let n = s.unicode_len();
    let mut result = String::new();
    let mut i: usize = 0;
    while i < n
        invariant
            n == s@.len(),
            i <= n,
            result@ == snake_case(s@.subrange(0, i as int)),
        decreases n - i,
    {
        let c = s.get_char(i);
        let ghost before = s@.subrange(0, i as int);
        if i > 0 && is_upper(c) {
            crate::text::push_char(&mut result, '_');
        }
        crate::text::push_char(&mut result, lower_first(c));
        i = i + 1;
        assert(s@.subrange(0, i as int).drop_last() =~= before);
    }
    assert(s@.subrange(0, n as int) =~= s@);
    result
}

/// `a` followed by `b`.
pub fn join2(a: &str, b: &str) -> (r: String)
    ensures
        r@ == a@ + b@,
{
    let r = String::from_str(a);
    r.concat(b)
}

/// Name of the interface shared by all markers of a state description.
pub fn trait_name_of(state_name: &str) -> (r: String)
    ensures
        r@ == state_name@ + "Trait"@,
{
    join2(state_name, "Trait")
}

/// Name of the marker that stands for a machine not yet in any state.
pub fn uninitialized_name_of(state_name: &str) -> (r: String)
    ensures
        r@ == "Uninitialized"@ + state_name@,
{
    join2("Uninitialized", state_name)
}

/// Name of the builder type of one variant.
pub fn builder_type_of(variant: &str) -> (r: String)
    ensures
        r@ == variant@ + "Builder"@,
{
    join2(variant, "Builder")
}

/// Name of the module that holds one variant's builder states.
pub fn builder_mod_of(variant: &str) -> (r: String)
    ensures
        r@ == lower_case_str(variant@) + "_builder"@,
{
    let low = lowercase(variant);
    low.concat("_builder")
}

/// Name of the predicate that recognises one variant.
pub fn validator_name_of(variant: &str) -> (r: String)
    ensures
        r@ == "is_"@ + snake_case(variant@),
{
    let snake = to_snake_case(variant);
    join2("is_", snake.as_str())
}

/// Name of the accessor that runs one variant's predicate alone.
pub fn accessor_name_of(variant: &str) -> (r: String)
    ensures
        r@ == "try_to_"@ + snake_case(variant@),
{
    let snake = to_snake_case(variant);
    join2("try_to_", snake.as_str())
}

/// Name of the discriminated result of classification.
pub fn superstate_name_of(machine: &str) -> (r: String)
    ensures
        r@ == machine@ + "SuperState"@,
{
    join2(machine, "SuperState")
}

/// Name of the batch extension interface.
pub fn batch_trait_name_of(machine: &str) -> (r: String)
    ensures
        r@ == machine@ + "BuilderExt"@,
{
    join2(machine, "BuilderExt")
}

/// Name of the batch builder type.
pub fn batch_builder_name_of(machine: &str) -> (r: String)
    ensures
        r@ == machine@ + "BatchBuilder"@,
{
    join2(machine, "BatchBuilder")
}

} // verus!
