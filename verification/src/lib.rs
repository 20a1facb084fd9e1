//! Composition of a set of natively implemented host functions with an
//! already-instantiated execution module.
//!
//! Guest code addresses functions by small integer indices or by export
//! name.  This crate merges a registry of host ("native") functions into
//! that addressing scheme: indices at or above a fixed threshold denote
//! native functions, indices below it denote functions of the wrapped
//! module and are forwarded to it unchanged.

mod executor_lock;
mod interface;
mod native;
mod registry;
mod values;

pub use native::env_native_module;
pub use native::lemma_absent_name_forwards;
pub use native::lemma_below_threshold_forwards;
pub use native::lemma_export_resolves_to_registry;
pub use native::lemma_missing_native_function;
pub use native::lemma_native_call_reaches_executor;
pub use native::NativeModuleInstance;

pub use interface::ExecutionParams;
pub use interface::ModuleInstanceInterface;
pub use interface::UserFunctionExecutor;

pub use registry::contains_name;
pub use registry::last_position_of;
pub use registry::lemma_last_position_of;
pub use registry::FunctionRegistry;
pub use registry::UserFunction;
pub use registry::UserFunctions;
pub use registry::NATIVE_INDEX_FUNC_MIN;

pub use values::decimal_digits;
pub use values::digit_char;
pub use values::CallerContext;
pub use values::Error;
pub use values::ExportEntryType;
pub use values::FunctionType;
pub use values::Internal;
pub use values::ItemIndex;
pub use values::RuntimeValue;
pub use values::ValueType;
