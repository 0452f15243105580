use vstd::prelude::*;

verus! {

/// The address of a component: a 32-byte hash.
#[derive(Clone, Copy)]
pub struct ComponentAddress(pub crate::template_crypto::Hash);

impl View for ComponentAddress {
    type V = Seq<u8>;

    open spec fn view(&self) -> Seq<u8> {
        self.0@
    }
}

impl ComponentAddress {
    pub fn new(hash: crate::template_crypto::Hash) -> (r: ComponentAddress)
        ensures
            r@ == hash@,
    {
        ComponentAddress(hash)
    }
}

/// What a component invocation does.
#[derive(Clone, Copy, PartialEq, Eq, Structural)]
pub enum ComponentAction {
    Get,
    SetState,
    SetAccessRules,
}

/// How an invocation names its component.
pub enum ComponentRef {
    Ref(ComponentAddress),
}

/// What a call invocation does.
#[derive(Clone, Copy, PartialEq, Eq, Structural)]
pub enum CallAction {
    CallMethod,
}

/// A call of a method of a component: the component, the method's name and
/// its encoded arguments.
pub struct CallMethodArg {
    pub component_address: ComponentAddress,
    pub method: String,
    pub args: Vec<Vec<u8>>,
}

/// An invocation of the engine on a component, with its encoded arguments.
pub struct ComponentInvokeArg {
    pub component_ref: ComponentRef,
    pub action: ComponentAction,
    pub args: Vec<Vec<u8>>,
}

/// Whether `arg` invokes `action` on the component at `address` with `args`.
pub open spec fn invokes(arg: ComponentInvokeArg, address: Seq<u8>, action: ComponentAction, args: Seq<Seq<u8>>) -> bool {
    &&& arg.component_ref matches ComponentRef::Ref(a) && a@ == address
    &&& arg.action == action
    &&& arg.args@.len() == args.len()
    &&& forall|i: int| 0 <= i < args.len() ==> (#[trigger] arg.args@[i])@ == args[i]
}

/// A handle on a component of the engine, by its address.
pub struct ComponentManager {
    address: ComponentAddress,
}

impl View for ComponentManager {
    type V = Seq<u8>;

    /// The component's address.
    closed spec fn view(&self) -> Seq<u8> {
        self.address@
    }
}

impl ComponentManager {
    pub(crate) fn new(address: ComponentAddress) -> (r: ComponentManager)
        ensures
            r@ == address@,
    {
        ComponentManager { address }
    }

    pub fn get(address: ComponentAddress) -> (r: ComponentManager)
        ensures
            r@ == address@,
    {
        ComponentManager { address }
    }

    pub fn address(&self) -> (r: ComponentAddress)
        ensures
            r@ == self@,
    {
        self.address
    }

    /// The call that invokes `method` on this component with `args`.
    pub fn call_method_arg(&self, method: String, args: Vec<Vec<u8>>) -> (r: CallMethodArg)
        ensures
            r.component_address@ == self@,
            r.method@ == method@,
            r.args@ == args@,
    {
        CallMethodArg { component_address: self.address, method, args }
    }

    /// The invocation that reads this component's state.
    pub fn get_state_arg(&self) -> (r: ComponentInvokeArg)
        ensures
            invokes(r, self@, ComponentAction::Get, Seq::empty()),
    {
        ComponentInvokeArg {
            component_ref: ComponentRef::Ref(self.address),
            action: ComponentAction::Get,
            args: Vec::new(),
        }
    }

    /// The invocation that replaces this component's state by the encoded
    /// argument `state`.
    pub fn set_state_arg(&self, state: Vec<u8>) -> (r: ComponentInvokeArg)
        ensures
            invokes(r, self@, ComponentAction::SetState, seq![state@]),
    {
        let mut args: Vec<Vec<u8>> = Vec::new();
        args.push(state);
        ComponentInvokeArg { component_ref: ComponentRef::Ref(self.address), action: ComponentAction::SetState, args }
    }

    /// The invocation that replaces this component's access rules by the
    /// encoded argument `access_rules`.
    pub fn set_access_rules_arg(&self, access_rules: Vec<u8>) -> (r: ComponentInvokeArg)
        ensures
            invokes(r, self@, ComponentAction::SetAccessRules, seq![access_rules@]),
    {
        let mut args: Vec<Vec<u8>> = Vec::new();
        args.push(access_rules);
        ComponentInvokeArg {
            component_ref: ComponentRef::Ref(self.address),
            action: ComponentAction::SetAccessRules,
            args,
        }
    }
}

} // verus!
