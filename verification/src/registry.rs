//! Descriptors of the natively implemented functions and the registry
//! that orders them and resolves their names.

use vstd::prelude::*;
use crate::values::ValueType;

verus! {

/// Lowest function index that denotes a native function.
///
/// Indices below it belong to the wrapped module; an index `i` at or above
/// it denotes the native function at position `i - NATIVE_INDEX_FUNC_MIN`
/// of the registry.  The value is part of the index encoding the embedding
/// engine hard-codes and must be reproduced exactly.
pub const NATIVE_INDEX_FUNC_MIN: u32 = 10001;

/// Descriptor of one native function: its name and call signature.
#[derive(Clone, Debug)]
pub struct UserFunction {
    /// Exported name of the function.
    pub name: String,
    /// Parameter types, in order.
    pub params: Vec<ValueType>,
    /// Result type, or `None` for a void function.
    pub result: Option<ValueType>,
}

impl UserFunction {
    /// New function from statically known name and parameters.
    pub fn statik(name: &'static str, params: &'static [ValueType], result: Option<ValueType>) -> (r: Self)
        ensures
            r.name@ == name@,
            r.params@ == params@,
            r.result == result,
    {
        UserFunction { name: name.to_owned(), params: vstd::slice::slice_to_vec(params), result }
    }

    /// New function from name and parameters built at run time.
    pub fn heap(name: String, params: Vec<ValueType>, result: Option<ValueType>) -> (r: Self)
        ensures
            r.name@ == name@,
            r.params@ == params@,
            r.result == result,
    {
        UserFunction { name, params, result }
    }

    /// Name of the function.
    pub fn name(&self) -> (r: &str)
        ensures
            r@ == self.name@,
    {
        self.name.as_str()
    }

    /// Arguments of the function.
    pub fn params(&self) -> (r: &[ValueType])
        ensures
            r@ == self.params@,
    {
        self.params.as_slice()
    }

    /// Return type of the function.
    pub fn result(&self) -> (r: Option<ValueType>)
        ensures
            r == self.result,
    {
        self.result
    }
}

/// Whether some descriptor in `s` bears the name `name`.
pub open spec fn contains_name(s: Seq<UserFunction>, name: Seq<char>) -> bool {
    exists|i: int| 0 <= i < s.len() && s[i].name@ == name
}

/// Position of the last descriptor in `s` bearing `name`, or `-1` if none
/// does.  The last one counts: a duplicate registered later shadows the
/// earlier one in name resolution.
pub open spec fn last_position_of(s: Seq<UserFunction>, name: Seq<char>) -> int
    decreases s.len(),
{
    if s.len() == 0 {
        -1
    } else if s[s.len() - 1].name@ == name {
        s.len() - 1
    } else {
        last_position_of(s.drop_last(), name)
    }
}

/// What `last_position_of` finds: a valid position exactly when the name
/// occurs, bearing the name, with no later occurrence of it.
pub proof fn lemma_last_position_of(s: Seq<UserFunction>, name: Seq<char>)
    ensures
        contains_name(s, name) <==> 0 <= last_position_of(s, name) < s.len(),
        !contains_name(s, name) ==> last_position_of(s, name) == -1,
        contains_name(s, name) ==> s[last_position_of(s, name)].name@ == name,
        forall|j: int| last_position_of(s, name) < j < s.len() ==> s[j].name@ != name,
    decreases s.len(),
{
    if s.len() == 0 {
    } else if s[s.len() - 1].name@ == name {
    } else {
        lemma_last_position_of(s.drop_last(), name);
        assert forall|i: int| 0 <= i < s.drop_last().len() implies s.drop_last()[i] == s[i] by {}
        assert forall|j: int| last_position_of(s, name) < j < s.len() implies s[j].name@ != name by {
            if j < s.len() - 1 {
                assert(s.drop_last()[j] == s[j]);
                assert(s.drop_last()[j].name@ != name);
            }
        }
        if contains_name(s, name) {
            let w = choose|i: int| 0 <= i < s.len() && s[i].name@ == name;
            assert(w < s.len() - 1);
            assert(s.drop_last()[w].name@ == name);
            assert(contains_name(s.drop_last(), name));
        }
        if contains_name(s.drop_last(), name) {
            let w = choose|i: int| 0 <= i < s.drop_last().len() && s.drop_last()[i].name@ == name;
            assert(s[w].name@ == name);
            assert(contains_name(s, name));
        }
    }
}

/// Ordered, immutable collection of native-function descriptors.
///
/// A descriptor's position doubles as its offset within the reserved
/// native index range, so the registry never holds more descriptors than
/// that range has indices.
pub struct FunctionRegistry {
    functions: Vec<UserFunction>,
}

impl View for FunctionRegistry {
    type V = Seq<UserFunction>;

    closed spec fn view(&self) -> Seq<UserFunction> {
        self.functions@
    }
}

impl FunctionRegistry {
    /// Every position fits in the native index range.
    #[verifier::type_invariant]
    pub open spec fn wf(self) -> bool {
        self@.len() <= (u32::MAX - NATIVE_INDEX_FUNC_MIN) as nat
    }

    /// Build a registry holding exactly `functions`, in their order.
    /// Duplicate names are not an error: the later descriptor shadows the
    /// earlier one in name resolution.
    pub fn build(functions: Vec<UserFunction>) -> (r: Self)
        requires
            functions@.len() <= (u32::MAX - NATIVE_INDEX_FUNC_MIN) as nat,
        ensures
            r@ == functions@,
    {
        FunctionRegistry { functions }
    }

    /// Number of registered native functions.
    pub fn len(&self) -> (r: usize)
        ensures
            r == self@.len(),
    {
        self.functions.len()
    }

    /// The descriptor at `position`, or `None` beyond the end.
    pub fn get(&self, position: u32) -> (r: Option<&UserFunction>)
        ensures
            match r {
                Some(f) => position < self@.len() && *f == self@[position as int],
                None => position >= self@.len(),
            },
    {
        proof {
            use_type_invariant(&*self);
        }
        if (position as usize) < self.functions.len() {
            Some(&self.functions[position as usize])
        } else {
            None
        }
    }

    /// Position of the descriptor exported under `name`, or `None` if no
    /// descriptor bears that name.  Of several, the last registered wins.
    pub fn lookup_by_name(&self, name: &str) -> (r: Option<u32>)
        ensures
            match r {
                Some(p) => {
                    &&& contains_name(self@, name@)
                    &&& p as int == last_position_of(self@, name@)
                    &&& p < self@.len()
                },
                None => !contains_name(self@, name@),
            },
    {
        let key: String = name.to_owned();
        let n: usize = self.functions.len();
        let mut i: usize = n;
        while i > 0
            invariant
                i <= n,
                n == self@.len(),
                key@ == name@,
                forall|j: int| i <= j < n ==> self@[j].name@ != name@,
            decreases i,
        {
            i = i - 1;
            if self.functions[i].name == key {
                proof {
                    use_type_invariant(&*self);
                    lemma_last_position_of(self@, name@);
                    assert(contains_name(self@, name@));
                }
                return Some(i as u32);
            }
        }
        None
    }
}

/// A registry's descriptors together with the executor that implements
/// them, as handed to the composed module at construction.
pub struct UserFunctions<E> {
    /// Functions list.
    pub functions: Vec<UserFunction>,
    /// Functions executor.
    pub executor: E,
}

} // verus!
