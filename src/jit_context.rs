//! The compilation context: one handle's type table, cursor and module,
//! with every type provider built once, in dependency order.
use vstd::prelude::*;
use vstd::string::StringExecFns;
use crate::builder::Builder;
use crate::ir::TypeTable;
use crate::providers::{
    CallbackTypes, EnvDataType, EvmConstants, EvmTypes, LLVMAttributeFactory, MemoryRepresentationType,
    RuntimeDataType, lemma_provides_extends,
};
use crate::rt_type::RuntimeType;

verus! {

/// The output module.
pub struct Module {
    pub name: String,
}

/// The context of one compilation session. It is never reconfigured after
/// it is made: the accessors read what `new` built.
pub struct JITContext {
    /// The handle's types.
    pub m_types: TypeTable,
    /// The insertion cursor.
    pub m_builder: Builder,
    /// The output module.
    pub m_module: Module,
    pub m_evm_types: EvmTypes,
    pub m_evm_constants: EvmConstants,
    pub m_attrs: LLVMAttributeFactory,
    pub m_rt_data: RuntimeDataType,
    pub m_env: EnvDataType,
    pub m_callbacks: CallbackTypes,
    pub m_memrep: MemoryRepresentationType,
    pub m_rt: RuntimeType,
}

impl JITContext {
    /// Every provider's type stands in the table as the provider says.
    pub open spec fn wf(&self) -> bool {
        let t = self.m_types@;
        &&& self.m_types.wf()
        &&& self.m_evm_types.wf(t)
        &&& self.m_evm_constants.wf(self.m_evm_types)
        &&& self.m_callbacks.wf(t, self.m_evm_types, self.m_env)
        &&& self.m_rt.wf(t, self.m_rt_data, self.m_env, self.m_memrep)
    }

    /// A fresh session: an empty table, a cursor in no function, the module
    /// `evm`, and the providers built in the order scalar types, constants,
    /// attributes, RuntimeData, environment, callbacks, memory
    /// representation, runtime argument type.
    pub fn new() -> (r: JITContext)
        ensures
            r.wf(),
            r.m_builder.function is None,
            r.m_builder.code@.len() == 0,
            r.m_module.name@ == "evm"@,
    {
        let mut tab = TypeTable::new();
        let builder = Builder::new();
        let module = Module { name: String::from_str("evm") };
        let types = EvmTypes::new(&mut tab);
        let constants = EvmConstants::new(&types);
        let attr_factory = LLVMAttributeFactory::new();
        let ghost t1 = tab@;
        let rt_data = RuntimeDataType::new(&mut tab);
        let ghost t2 = tab@;
        let env = EnvDataType::new(&mut tab);
        let ghost t3 = tab@;
        proof {
            lemma_provides_extends(t2, t3, rt_data.rt_data_type, rt_data.rt_data_ptr_type, crate::layout::Layout::RuntimeData);
        }
        let callbacks = CallbackTypes::new(&mut tab, &types, &env);
        let ghost t4 = tab@;
        let memrep = MemoryRepresentationType::new(&mut tab);
        let ghost t5 = tab@;
        proof {
            lemma_provides_extends(t3, t5, rt_data.rt_data_type, rt_data.rt_data_ptr_type, crate::layout::Layout::RuntimeData);
            lemma_provides_extends(t3, t5, env.env_type, env.env_ptr_type, crate::layout::Layout::Env);
        }
        let rt = RuntimeType::init(&mut tab, &rt_data, &env, &memrep);
        let ghost t6 = tab@;
        proof {
            assert(t6[types.word as int] == t1[types.word as int]);
            assert(t6[types.size as int] == t1[types.size as int]);
            assert(t6[types.byte as int] == t1[types.byte as int]);
            assert(t6[types.boolean as int] == t1[types.boolean as int]);
            assert(t6[types.byte_ptr as int] == t1[types.byte_ptr as int]);
            assert(t6[types.word_ptr as int] == t1[types.word_ptr as int]);
            assert(t6[callbacks.storage_load as int] == t4[callbacks.storage_load as int]);
            assert(t6[callbacks.storage_store as int] == t4[callbacks.storage_store as int]);
        }
        JITContext {
            m_types: tab,
            m_builder: builder,
            m_module: module,
            m_evm_types: types,
            m_evm_constants: constants,
            m_attrs: attr_factory,
            m_rt_data: rt_data,
            m_env: env,
            m_callbacks: callbacks,
            m_memrep: memrep,
            m_rt: rt,
        }
    }

    /// The handle's types.
    pub fn llvm_context(&self) -> (r: &TypeTable)
        ensures
            *r == self.m_types,
    {
        &self.m_types
    }

    pub fn builder(&self) -> (r: &Builder)
        ensures
            *r == self.m_builder,
    {
        &self.m_builder
    }

    /// The cursor, to move it between functions.
    pub fn builder_mut(&mut self) -> (r: &mut Builder)
        ensures
            *r == old(self).m_builder,
            *final(self) == (JITContext { m_builder: *final(r), ..*old(self) }),
    {
        &mut self.m_builder
    }

    pub fn module(&self) -> (r: &Module)
        ensures
            *r == self.m_module,
    {
        &self.m_module
    }

    pub fn evm_types(&self) -> (r: &EvmTypes)
        ensures
            *r == self.m_evm_types,
    {
        &self.m_evm_types
    }

    pub fn evm_constants(&self) -> (r: &EvmConstants)
        ensures
            *r == self.m_evm_constants,
    {
        &self.m_evm_constants
    }

    pub fn attributes(&self) -> (r: &LLVMAttributeFactory)
        ensures
            *r == self.m_attrs,
    {
        &self.m_attrs
    }

    pub fn rt_data(&self) -> (r: &RuntimeDataType)
        ensures
            *r == self.m_rt_data,
    {
        &self.m_rt_data
    }

    pub fn env(&self) -> (r: &EnvDataType)
        ensures
            *r == self.m_env,
    {
        &self.m_env
    }

    pub fn callback_types(&self) -> (r: &CallbackTypes)
        ensures
            *r == self.m_callbacks,
    {
        &self.m_callbacks
    }

    pub fn memrep(&self) -> (r: &MemoryRepresentationType)
        ensures
            *r == self.m_memrep,
    {
        &self.m_memrep
    }

    pub fn rt(&self) -> (r: &RuntimeType)
        ensures
            *r == self.m_rt,
    {
        &self.m_rt
    }
}

} // verus!
