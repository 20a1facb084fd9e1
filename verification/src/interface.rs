//! The module-interface contract this layer both consumes (from the
//! wrapped module) and implements (as the composed module), and the
//! executor capability that performs native calls.

use vstd::prelude::*;
use std::sync::Arc;
use crate::values::CallerContext;
use crate::values::Error;
use crate::values::ExportEntryType;
use crate::values::FunctionType;
use crate::values::Internal;
use crate::values::ItemIndex;
use crate::values::RuntimeValue;
use crate::values::ValueType;

verus! {

/// Arguments of an execution request, together with the externals the
/// embedder supplies for resolving cross-module imports.
pub struct ExecutionParams<X> {
    /// Modules available for import resolution; passed through unchanged.
    pub externals: X,
    /// Argument values of the call.
    pub args: Vec<RuntimeValue>,
}

/// The operation set any executable unit implements to participate in the
/// embedding engine.
///
/// Each implementer describes its observable behaviour with one relation
/// per operation: the method promises that the value it returns stands in
/// that relation to the receiver and the arguments.  A stateless lookup
/// pins its result down exactly through its relation; an operation that
/// runs guest code relates the result to the module without fixing it.
///
/// `Externals` is the type of the map of other module instances used to
/// resolve imports; `Table`, `Memory` and `Global` are the storage
/// instances the module hands out.  All four are opaque to this layer.
pub trait ModuleInstanceInterface: Sized {
    /// Map of other module instances, keyed however the embedder keys it.
    type Externals;
    /// A table instance of the module.
    type Table;
    /// A linear-memory instance of the module.
    type Memory;
    /// A global-variable instance of the module.
    type Global;

    /// How an instantiation request relates to its outcome.
    spec fn instantiate_rel(self, is_user_module: bool, r: Result<(), Error>) -> bool;

    /// How executing the function at `index` with `args` relates to its outcome.
    spec fn execute_index_rel(self, index: u32, args: Seq<RuntimeValue>, r: Result<Option<RuntimeValue>, Error>) -> bool;

    /// How executing the export named `name` with `args` relates to its outcome.
    spec fn execute_export_rel(self, name: Seq<char>, args: Seq<RuntimeValue>, r: Result<Option<RuntimeValue>, Error>) -> bool;

    /// How resolving the export named `name` relates to its outcome.
    spec fn export_entry_rel(self, name: Seq<char>, r: Result<Internal, Error>) -> bool;

    /// Which indices a type lookup accepts.
    spec fn function_type_req(self, function_index: ItemIndex) -> bool;

    /// How a type lookup at `function_index` relates to its outcome.
    spec fn function_type_rel(self, function_index: ItemIndex, r: Result<FunctionType, Error>) -> bool;

    /// How a table lookup relates to its outcome.
    spec fn table_rel(self, index: ItemIndex, r: Result<Arc<Self::Table>, Error>) -> bool;

    /// How a memory lookup relates to its outcome.
    spec fn memory_rel(self, index: ItemIndex, r: Result<Arc<Self::Memory>, Error>) -> bool;

    /// How a global lookup relates to its outcome.
    spec fn global_rel(self, index: ItemIndex, variable_type: Option<ValueType>, r: Result<Arc<Self::Global>, Error>) -> bool;

    /// How a direct call relates to its outcome.
    spec fn call_function_rel(self, outer: CallerContext, index: ItemIndex, r: Result<Option<RuntimeValue>, Error>) -> bool;

    /// How an indirect call through a table relates to its outcome.
    spec fn call_function_indirect_rel(self, outer: CallerContext, table_index: ItemIndex, type_index: u32, func_index: u32, r: Result<Option<RuntimeValue>, Error>) -> bool;

    /// How a call of an internal function relates to its outcome.
    spec fn call_internal_function_rel(self, outer: CallerContext, index: u32, r: Result<Option<RuntimeValue>, Error>) -> bool;

    /// Run the instantiation post-processing of the module.
    fn instantiate(&self, is_user_module: bool, externals: Option<&Self::Externals>) -> (r: Result<(), Error>)
        ensures
            self.instantiate_rel(is_user_module, r),
    ;

    /// Execute the function at `index`.
    fn execute_index(&self, index: u32, params: ExecutionParams<Self::Externals>) -> (r: Result<Option<RuntimeValue>, Error>)
        ensures
            self.execute_index_rel(index, params.args@, r),
    ;

    /// Execute the function exported under `name`.
    fn execute_export(&self, name: &str, params: ExecutionParams<Self::Externals>) -> (r: Result<Option<RuntimeValue>, Error>)
        ensures
            self.execute_export_rel(name@, params.args@, r),
    ;

    /// Resolve the export named `name` to a reference to the item.
    fn export_entry(&self, name: &str, externals: Option<&Self::Externals>, required_type: &ExportEntryType) -> (r: Result<Internal, Error>)
        ensures
            self.export_entry_rel(name@, r),
    ;

    /// The type of the function at `function_index`.
    fn function_type(&self, function_index: ItemIndex, externals: Option<&Self::Externals>) -> (r: Result<FunctionType, Error>)
        requires
            self.function_type_req(function_index),
        ensures
            self.function_type_rel(function_index, r),
    ;

    /// The table at `index`.
    fn table(&self, index: ItemIndex) -> (r: Result<Arc<Self::Table>, Error>)
        ensures
            self.table_rel(index, r),
    ;

    /// The linear memory at `index`.
    fn memory(&self, index: ItemIndex) -> (r: Result<Arc<Self::Memory>, Error>)
        ensures
            self.memory_rel(index, r),
    ;

    /// The global at `index`, optionally checked against a value type.
    fn global(&self, index: ItemIndex, variable_type: Option<ValueType>) -> (r: Result<Arc<Self::Global>, Error>)
        ensures
            self.global_rel(index, variable_type, r),
    ;

    /// Call the function at `index` on behalf of the frame in `outer`.
    fn call_function(&self, outer: CallerContext, index: ItemIndex, function_type: Option<&FunctionType>) -> (r: Result<Option<RuntimeValue>, Error>)
        ensures
            self.call_function_rel(outer, index, r),
    ;

    /// Call a function indirectly through the table at `table_index`.
    fn call_function_indirect(&self, outer: CallerContext, table_index: ItemIndex, type_index: u32, func_index: u32) -> (r: Result<Option<RuntimeValue>, Error>)
        ensures
            self.call_function_indirect_rel(outer, table_index, type_index, func_index, r),
    ;

    /// Call an internal function directly, bypassing export indirection.
    fn call_internal_function(&self, outer: CallerContext, index: u32, function_type: Option<&FunctionType>) -> (r: Result<Option<RuntimeValue>, Error>)
        ensures
            self.call_internal_function_rel(outer, index, r),
    ;
}

/// The host-supplied capability that performs the behaviour of native
/// functions.
///
/// Each implementer describes one call of itself with the `executed`
/// relation: `execute` promises that its state change and its result stand
/// in that relation to the name and context it was given.
pub trait UserFunctionExecutor: Sized {
    /// How one call on `name` with `context`, taking the executor from
    /// state `pre` to state `post`, relates to its outcome.
    spec fn executed(pre: Self, post: Self, name: Seq<char>, context: CallerContext, r: Result<Option<RuntimeValue>, Error>) -> bool;

    /// Execute the native function with the given name.
    fn execute(&mut self, name: &str, context: CallerContext) -> (r: Result<Option<RuntimeValue>, Error>)
        ensures
            Self::executed(*old(self), *final(self), name@, context, r),
    ;
}

} // verus!
