//! The container that holds a virtual machine together with the instance data that the
//! interface asks for.

use crate::ffi::evmc_vm;
use crate::vm::EvmcVm;
use vstd::prelude::*;

verus! {

/// Container struct for EVMC instances and user-defined data.
pub struct EvmcContainer<T> where T: EvmcVm + Sized {
    instance: evmc_vm,
    vm: T,
}

impl<T> EvmcContainer<T> where T: EvmcVm + Sized {
    /// The instance data that the container was made with.
    pub closed spec fn instance(&self) -> evmc_vm {
        self.instance
    }

    /// The virtual machine in the container.
    pub closed spec fn vm(&self) -> T {
        self.vm
    }

    /// Basic constructor. The machine in the container is a freshly initialised one.
    pub fn new(_instance: evmc_vm) -> (container: Box<Self>)
        ensures
            container.instance() == _instance,
            call_ensures(T::init, (), container.vm()),
    {
        Box::new(Self { instance: _instance, vm: T::init() })
    }

    /// The instance data, as the other side of the boundary reads it.
    pub fn get_instance(&self) -> (instance: &evmc_vm)
        ensures
            *instance == self.instance(),
    {
        &self.instance
    }

    /// The virtual machine, to give it an option.
    pub fn vm_mut(&mut self) -> (vm: &mut T)
        ensures
            *vm == old(self).vm(),
            final(self).vm() == *final(vm),
            final(self).instance() == old(self).instance(),
    {
        &mut self.vm
    }
}

impl<T> core::ops::Deref for EvmcContainer<T> where T: EvmcVm {
    type Target = T;

    fn deref(&self) -> (vm: &T)
        ensures
            *vm == self.vm(),
    {
        &self.vm
    }
}

} // verus!
