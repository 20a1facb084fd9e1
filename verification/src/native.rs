//! The composed module: a wrapped module plus a registry of native
//! functions merged into its index space.

use vstd::prelude::*;
use std::sync::Arc;
use crate::executor_lock::execute_with_lock;
use crate::executor_lock::executor_lock_new;
use crate::interface::ExecutionParams;
use crate::interface::ModuleInstanceInterface;
use crate::interface::UserFunctionExecutor;
use crate::registry::contains_name;
use crate::registry::last_position_of;
use crate::registry::FunctionRegistry;
use crate::registry::UserFunctions;
use crate::registry::NATIVE_INDEX_FUNC_MIN;
use crate::values::CallerContext;
use crate::values::Error;
use crate::values::ExportEntryType;
use crate::values::FunctionType;
use crate::values::Internal;
use crate::values::ItemIndex;
use crate::values::RuntimeValue;
use crate::values::ValueType;

verus! {

/// A module that answers native-range requests from its registry and
/// forwards everything else to the module it wraps.
///
/// An index `i >= NATIVE_INDEX_FUNC_MIN` denotes the native function at
/// registry position `i - NATIVE_INDEX_FUNC_MIN`; every other index, and
/// every name the registry does not hold, is handed to the wrapped module
/// unchanged.
#[verifier::reject_recursive_types(E)]
pub struct NativeModuleInstance<M: ModuleInstanceInterface, E: UserFunctionExecutor> {
    /// Underlying module reference, shared with whoever else holds it.
    pub env: Arc<M>,
    /// User function executor, taken exclusively for the span of a call.
    pub executor: parking_lot::RwLock<E>,
    /// Descriptors of the native functions, in index order.
    pub registry: FunctionRegistry,
}

impl<M: ModuleInstanceInterface, E: UserFunctionExecutor> NativeModuleInstance<M, E> {
    /// Create a new native module wrapping `env`.
    ///
    /// The descriptor count is bounded so that every native index fits in
    /// the `u32` index space above `NATIVE_INDEX_FUNC_MIN`.
    pub fn new(env: Arc<M>, functions: UserFunctions<E>) -> (r: Result<Self, Error>)
        requires
            functions.functions@.len() <= (u32::MAX - NATIVE_INDEX_FUNC_MIN) as nat,
        ensures
            r is Ok,
            r matches Ok(m) ==> m.env == env && m.registry@ == functions.functions@,
    {
        Ok(NativeModuleInstance {
            env,
            executor: executor_lock_new(functions.executor),
            registry: FunctionRegistry::build(functions.functions),
        })
    }

    /// How a type lookup at native index `index` relates to its outcome:
    /// the signature of the descriptor at `index - NATIVE_INDEX_FUNC_MIN`,
    /// or the missing-native failure beyond the registry's end.
    pub open spec fn native_type_rel(self, index: u32, r: Result<FunctionType, Error>) -> bool {
        if index - NATIVE_INDEX_FUNC_MIN < self.registry@.len() {
            &&& r is Ok
            &&& r matches Ok(t) ==> {
                &&& t.params@ == self.registry@[index - NATIVE_INDEX_FUNC_MIN].params@
                &&& t.result == self.registry@[index - NATIVE_INDEX_FUNC_MIN].result
            }
        } else {
            r == Err::<FunctionType, Error>(Error::NativeMissing(index))
        }
    }

    /// How a call at native index `index` relates to its outcome: one
    /// `execute` step of the executor on the registered name and the given
    /// context, whose result passes through unchanged; or the
    /// missing-native failure beyond the registry's end, with the executor
    /// never invoked.
    pub open spec fn native_call_rel(self, outer: CallerContext, index: u32, r: Result<Option<RuntimeValue>, Error>) -> bool {
        if index - NATIVE_INDEX_FUNC_MIN < self.registry@.len() {
            exists|pre: E, post: E|
                #[trigger] E::executed(pre, post, self.registry@[index - NATIVE_INDEX_FUNC_MIN].name@, outer, r)
        } else {
            r == Err::<Option<RuntimeValue>, Error>(Error::NativeMissing(index))
        }
    }
}

impl<M: ModuleInstanceInterface, E: UserFunctionExecutor> ModuleInstanceInterface for NativeModuleInstance<M, E> {
    type Externals = M::Externals;

    type Table = M::Table;

    type Memory = M::Memory;

    type Global = M::Global;

    open spec fn instantiate_rel(self, is_user_module: bool, r: Result<(), Error>) -> bool {
        self.env.instantiate_rel(is_user_module, r)
    }

    open spec fn execute_index_rel(self, index: u32, args: Seq<RuntimeValue>, r: Result<Option<RuntimeValue>, Error>) -> bool {
        self.env.execute_index_rel(index, args, r)
    }

    open spec fn execute_export_rel(self, name: Seq<char>, args: Seq<RuntimeValue>, r: Result<Option<RuntimeValue>, Error>) -> bool {
        self.env.execute_export_rel(name, args, r)
    }

    open spec fn export_entry_rel(self, name: Seq<char>, r: Result<Internal, Error>) -> bool {
        if contains_name(self.registry@, name) {
            r == Ok::<Internal, Error>(Internal::Function(
                (NATIVE_INDEX_FUNC_MIN + last_position_of(self.registry@, name)) as u32,
            ))
        } else {
            self.env.export_entry_rel(name, r)
        }
    }

    open spec fn function_type_req(self, function_index: ItemIndex) -> bool {
        match function_index {
            ItemIndex::IndexSpace(i) => i < NATIVE_INDEX_FUNC_MIN ==> self.env.function_type_req(function_index),
            ItemIndex::Internal(i) => i < NATIVE_INDEX_FUNC_MIN ==> self.env.function_type_req(function_index),
            ItemIndex::External(_) => false,
        }
    }

    open spec fn function_type_rel(self, function_index: ItemIndex, r: Result<FunctionType, Error>) -> bool {
        match function_index {
            ItemIndex::IndexSpace(i) => if i < NATIVE_INDEX_FUNC_MIN {
                self.env.function_type_rel(function_index, r)
            } else {
                self.native_type_rel(i, r)
            },
            ItemIndex::Internal(i) => if i < NATIVE_INDEX_FUNC_MIN {
                self.env.function_type_rel(function_index, r)
            } else {
                self.native_type_rel(i, r)
            },
            ItemIndex::External(_) => true,
        }
    }

    open spec fn table_rel(self, index: ItemIndex, r: Result<Arc<M::Table>, Error>) -> bool {
        self.env.table_rel(index, r)
    }

    open spec fn memory_rel(self, index: ItemIndex, r: Result<Arc<M::Memory>, Error>) -> bool {
        self.env.memory_rel(index, r)
    }

    open spec fn global_rel(self, index: ItemIndex, variable_type: Option<ValueType>, r: Result<Arc<M::Global>, Error>) -> bool {
        self.env.global_rel(index, variable_type, r)
    }

    open spec fn call_function_rel(self, outer: CallerContext, index: ItemIndex, r: Result<Option<RuntimeValue>, Error>) -> bool {
        self.env.call_function_rel(outer, index, r)
    }

    open spec fn call_function_indirect_rel(self, outer: CallerContext, table_index: ItemIndex, type_index: u32, func_index: u32, r: Result<Option<RuntimeValue>, Error>) -> bool {
        self.env.call_function_indirect_rel(outer, table_index, type_index, func_index, r)
    }

    open spec fn call_internal_function_rel(self, outer: CallerContext, index: u32, r: Result<Option<RuntimeValue>, Error>) -> bool {
        if index < NATIVE_INDEX_FUNC_MIN {
            self.env.call_internal_function_rel(outer, index, r)
        } else {
            self.native_call_rel(outer, index, r)
        }
    }

    fn instantiate(&self, is_user_module: bool, externals: Option<&M::Externals>) -> Result<(), Error> {
        self.env.instantiate(is_user_module, externals)
    }

    fn execute_index(&self, index: u32, params: ExecutionParams<M::Externals>) -> Result<Option<RuntimeValue>, Error> {
        self.env.execute_index(index, params)
    }

    fn execute_export(&self, name: &str, params: ExecutionParams<M::Externals>) -> Result<Option<RuntimeValue>, Error> {
        self.env.execute_export(name, params)
    }

    fn export_entry(&self, name: &str, externals: Option<&M::Externals>, required_type: &ExportEntryType) -> Result<Internal, Error> {
        if let Some(position) = self.registry.lookup_by_name(name) {
            proof {
                use_type_invariant(&self.registry);
            }
            return Ok(Internal::Function(NATIVE_INDEX_FUNC_MIN + position));
        }
        self.env.export_entry(name, externals, required_type)
    }

    fn function_type(&self, function_index: ItemIndex, externals: Option<&M::Externals>) -> Result<FunctionType, Error> {
        let index: u32 = match function_index {
            ItemIndex::IndexSpace(i) => i,
            ItemIndex::Internal(i) => i,
            ItemIndex::External(_) => vstd::pervasive::unreached(),
        };
        if index < NATIVE_INDEX_FUNC_MIN {
            return self.env.function_type(function_index, externals);
        }
        match self.registry.get(index - NATIVE_INDEX_FUNC_MIN) {
            Some(f) => Ok(FunctionType::new(copy_value_types(&f.params), f.result)),
            None => Err(Error::NativeMissing(index)),
        }
    }

    fn table(&self, index: ItemIndex) -> Result<Arc<M::Table>, Error> {
        self.env.table(index)
    }

    fn memory(&self, index: ItemIndex) -> Result<Arc<M::Memory>, Error> {
        self.env.memory(index)
    }

    fn global(&self, index: ItemIndex, variable_type: Option<ValueType>) -> Result<Arc<M::Global>, Error> {
        self.env.global(index, variable_type)
    }

    fn call_function(&self, outer: CallerContext, index: ItemIndex, function_type: Option<&FunctionType>) -> Result<Option<RuntimeValue>, Error> {
        self.env.call_function(outer, index, function_type)
    }

    fn call_function_indirect(&self, outer: CallerContext, table_index: ItemIndex, type_index: u32, func_index: u32) -> Result<Option<RuntimeValue>, Error> {
        self.env.call_function_indirect(outer, table_index, type_index, func_index)
    }

    /// The expected type in `function_type` is accepted but deliberately
    /// not checked against the descriptor, matching the wrapped-module
    /// call path, which receives it unchecked as well.
    fn call_internal_function(&self, outer: CallerContext, index: u32, function_type: Option<&FunctionType>) -> Result<Option<RuntimeValue>, Error> {
        if index < NATIVE_INDEX_FUNC_MIN {
            return self.env.call_internal_function(outer, index, function_type);
        }
        match self.registry.get(index - NATIVE_INDEX_FUNC_MIN) {
            Some(f) => execute_with_lock(&self.executor, f.name(), outer),
            None => Err(Error::NativeMissing(index)),
        }
    }
}

/// Copy of a list of value-type tags, used to build an owned signature
/// from a descriptor held by the registry.
fn copy_value_types(v: &Vec<ValueType>) -> (r: Vec<ValueType>)
    ensures
        r@ == v@,
{
    let mut r: Vec<ValueType> = Vec::new();
    let mut i: usize = 0;
    while i < v.len()
        invariant
            i <= v@.len(),
            r@ == v@.subrange(0, i as int),
        decreases v@.len() - i,
    {
        r.push(v[i]);
        proof {
            assert(r@ =~= v@.subrange(0, (i + 1) as int));
        }
        i = i + 1;
    }
    proof {
        assert(r@ =~= v@);
    }
    r
}

/// Law: a name the registry holds resolves to a function reference at
/// `NATIVE_INDEX_FUNC_MIN` plus the name's registry position, whatever
/// export type the caller required; and a type lookup at that index can
/// only return the signature built from exactly that descriptor's
/// parameters and result.
pub proof fn lemma_export_resolves_to_registry<M: ModuleInstanceInterface, E: UserFunctionExecutor>(
    m: NativeModuleInstance<M, E>,
    name: Seq<char>,
    r: Result<Internal, Error>,
)
    requires
        m.registry@.len() <= (u32::MAX - NATIVE_INDEX_FUNC_MIN) as nat,
        contains_name(m.registry@, name),
        m.export_entry_rel(name, r),
    ensures
        ({
            let position = last_position_of(m.registry@, name);
            let index = (NATIVE_INDEX_FUNC_MIN + position) as u32;
            &&& r == Ok::<Internal, Error>(Internal::Function(index))
            &&& forall|t: Result<FunctionType, Error>|
                #[trigger] m.function_type_rel(ItemIndex::IndexSpace(index), t) ==> {
                    &&& t is Ok
                    &&& t matches Ok(ft) ==> ft.params@ == m.registry@[position].params@
                        && ft.result == m.registry@[position].result
                }
            &&& forall|t: Result<FunctionType, Error>|
                #[trigger] m.function_type_rel(ItemIndex::Internal(index), t) ==> {
                    &&& t is Ok
                    &&& t matches Ok(ft) ==> ft.params@ == m.registry@[position].params@
                        && ft.result == m.registry@[position].result
                }
        }),
{
    crate::registry::lemma_last_position_of(m.registry@, name);
}

/// Law: for an index below the native threshold, and for the operations
/// that never consult the registry, the composed module's behaviour
/// relation is exactly the wrapped module's: forwarding adds nothing and
/// hides nothing.
pub proof fn lemma_below_threshold_forwards<M: ModuleInstanceInterface, E: UserFunctionExecutor>(
    m: NativeModuleInstance<M, E>,
    index: u32,
)
    requires
        index < NATIVE_INDEX_FUNC_MIN,
    ensures
        forall|u: bool, r: Result<(), Error>|
            #[trigger] m.instantiate_rel(u, r) <==> m.env.instantiate_rel(u, r),
        forall|args: Seq<RuntimeValue>, r: Result<Option<RuntimeValue>, Error>|
            #[trigger] m.execute_index_rel(index, args, r) <==> m.env.execute_index_rel(index, args, r),
        forall|n: Seq<char>, args: Seq<RuntimeValue>, r: Result<Option<RuntimeValue>, Error>|
            #[trigger] m.execute_export_rel(n, args, r) <==> m.env.execute_export_rel(n, args, r),
        forall|r: Result<FunctionType, Error>|
            #[trigger] m.function_type_rel(ItemIndex::IndexSpace(index), r)
                <==> m.env.function_type_rel(ItemIndex::IndexSpace(index), r),
        forall|r: Result<FunctionType, Error>|
            #[trigger] m.function_type_rel(ItemIndex::Internal(index), r)
                <==> m.env.function_type_rel(ItemIndex::Internal(index), r),
        forall|i: ItemIndex, r: Result<Arc<M::Table>, Error>|
            #[trigger] m.table_rel(i, r) <==> m.env.table_rel(i, r),
        forall|i: ItemIndex, r: Result<Arc<M::Memory>, Error>|
            #[trigger] m.memory_rel(i, r) <==> m.env.memory_rel(i, r),
        forall|i: ItemIndex, vt: Option<ValueType>, r: Result<Arc<M::Global>, Error>|
            #[trigger] m.global_rel(i, vt, r) <==> m.env.global_rel(i, vt, r),
        forall|outer: CallerContext, i: ItemIndex, r: Result<Option<RuntimeValue>, Error>|
            #[trigger] m.call_function_rel(outer, i, r) <==> m.env.call_function_rel(outer, i, r),
        forall|outer: CallerContext, ti: ItemIndex, tyi: u32, fi: u32, r: Result<Option<RuntimeValue>, Error>|
            #[trigger] m.call_function_indirect_rel(outer, ti, tyi, fi, r)
                <==> m.env.call_function_indirect_rel(outer, ti, tyi, fi, r),
        forall|outer: CallerContext, r: Result<Option<RuntimeValue>, Error>|
            #[trigger] m.call_internal_function_rel(outer, index, r)
                <==> m.env.call_internal_function_rel(outer, index, r),
{
}

/// Law: a name the registry does not hold resolves exactly as the wrapped
/// module resolves it.
pub proof fn lemma_absent_name_forwards<M: ModuleInstanceInterface, E: UserFunctionExecutor>(
    m: NativeModuleInstance<M, E>,
    name: Seq<char>,
)
    requires
        !contains_name(m.registry@, name),
    ensures
        forall|r: Result<Internal, Error>|
            #[trigger] m.export_entry_rel(name, r) <==> m.env.export_entry_rel(name, r),
{
}

/// Law: a native-range index whose offset lies beyond the registry's end
/// makes both the type lookup and the call fail with the missing-native
/// error carrying that index, and with nothing else.
pub proof fn lemma_missing_native_function<M: ModuleInstanceInterface, E: UserFunctionExecutor>(
    m: NativeModuleInstance<M, E>,
    index: u32,
)
    requires
        index >= NATIVE_INDEX_FUNC_MIN,
        index - NATIVE_INDEX_FUNC_MIN >= m.registry@.len(),
    ensures
        forall|r: Result<FunctionType, Error>|
            #[trigger] m.function_type_rel(ItemIndex::IndexSpace(index), r)
                <==> r == Err::<FunctionType, Error>(Error::NativeMissing(index)),
        forall|r: Result<FunctionType, Error>|
            #[trigger] m.function_type_rel(ItemIndex::Internal(index), r)
                <==> r == Err::<FunctionType, Error>(Error::NativeMissing(index)),
        forall|outer: CallerContext, r: Result<Option<RuntimeValue>, Error>|
            #[trigger] m.call_internal_function_rel(outer, index, r)
                <==> r == Err::<Option<RuntimeValue>, Error>(Error::NativeMissing(index)),
{
}

/// Law: a call on a valid native index returns exactly what one `execute`
/// step of the executor returns for the registered name and the very
/// context the caller passed.  The executor's starting state is whatever
/// earlier calls left behind, so the step is related, not fixed.
pub proof fn lemma_native_call_reaches_executor<M: ModuleInstanceInterface, E: UserFunctionExecutor>(
    m: NativeModuleInstance<M, E>,
    outer: CallerContext,
    index: u32,
    r: Result<Option<RuntimeValue>, Error>,
)
    requires
        index >= NATIVE_INDEX_FUNC_MIN,
        index - NATIVE_INDEX_FUNC_MIN < m.registry@.len(),
        m.call_internal_function_rel(outer, index, r),
    ensures
        exists|pre: E, post: E|
            #[trigger] E::executed(pre, post, m.registry@[index - NATIVE_INDEX_FUNC_MIN].name@, outer, r),
{
}

/// Create a wrapper for an env module with the given native user functions.
pub fn env_native_module<M: ModuleInstanceInterface, E: UserFunctionExecutor>(
    env: Arc<M>,
    user_functions: UserFunctions<E>,
) -> (r: Result<NativeModuleInstance<M, E>, Error>)
    requires
        user_functions.functions@.len() <= (u32::MAX - NATIVE_INDEX_FUNC_MIN) as nat,
    ensures
        r is Ok,
        r matches Ok(m) ==> m.env == env && m.registry@ == user_functions.functions@,
{
    NativeModuleInstance::new(env, user_functions)
}

} // verus!

