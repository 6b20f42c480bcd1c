//! The network client units: one opens a connection, one reads text
//! messages, one sends them.
//!
//! The blocking work itself — connecting, waiting for a message,
//! transmitting — runs through the bridge: `execute` validates its
//! input and requests the blocking action, and `resume` takes the
//! worker's completion event and finishes the activation. The client
//! resource travels between units as a reference-counted object value
//! bound to a named pipeline variable.

use vstd::prelude::*;
use vstd::string::StringSliceAdditionalSpecFns;

use crate::bridge::BlockingAction;
use crate::bridge::BlockingActionModel;
use crate::bridge::BlockingEvent;
use crate::errors::UnitError;
use crate::handles::clone_obj_post;
use crate::handles::release_model;
use crate::handles::slot_at;
use crate::handles::slot_live;
use crate::handles::HandleSlot;
use crate::handles::ObjectRegistry;
use crate::hashing::register_hash;
use crate::hashing::spec_register_hash;
use crate::params::read_model;
use crate::params::BoundParameter;
use crate::params::ParamMode;
use crate::params::ParamModeModel;
use crate::scope::Scope;
use crate::unit::describe_unit;
use crate::unit::surroundings_unchanged;
use crate::unit::ParamDesc;
use crate::unit::ParamDescModel;
use crate::unit::Phase;
use crate::unit::ProcessingUnit;
use crate::unit::Registry;
use crate::unit::UnitStep;
use crate::unit::UnitStepModel;
use crate::values::ObjectRef;
use crate::values::TaggedValue;
use crate::values::ValueModel;
use crate::values::ValueType;
use crate::values::CLIENT_TYPE_TAG;
use crate::values::ENGINE_VENDOR_TAG;

verus! {

/// The connecting unit: takes a server address and produces a client
/// object other units reference through a pipeline variable.
pub struct Client {
    /// The unit's own keep-alive reference to the connected client.
    pub ws: Option<TaggedValue>,
    pub phase: Phase,
    /// A connect is in flight; only one blocking closure per unit.
    pub pending: bool,
}

impl Default for Client {
    fn default() -> (r: Client)
        ensures
            r.inv(),
            r.phase() == Phase::Unregistered,
            r.ws is None,
            !r.pending,
    {
        Client { ws: None, phase: Phase::Unregistered, pending: false }
    }
}

impl ProcessingUnit for Client {
    open spec fn phase(&self) -> Phase {
        self.phase
    }

    open spec fn inv(&self) -> bool {
        true
    }

    open spec fn param_count(&self) -> nat {
        0
    }

    open spec fn name_spec(&self) -> Seq<char> {
        "WS.Client"@
    }

    open spec fn hash_spec(&self) -> u32 {
        spec_register_hash("WS.Client-rust-0x20200101".spec_bytes())
    }

    open spec fn input_types_spec(&self) -> Seq<ValueType> {
        seq![ValueType::Text]
    }

    open spec fn output_types_spec(&self) -> Seq<ValueType> {
        seq![ValueType::Object(ENGINE_VENDOR_TAG, CLIENT_TYPE_TAG)]
    }

    open spec fn parameters_ens(&self, table: Seq<ParamDescModel>) -> bool {
        table == Seq::<ParamDescModel>::empty()
    }

    open spec fn compose_ens(
        &self,
        input: ValueType,
        post: Client,
        r: Result<ValueType, UnitError>,
    ) -> bool {
        &&& post.ws == self.ws
        &&& post.pending == self.pending
        &&& if self.phase is Warm {
            r == Err::<ValueType, UnitError>(UnitError::Lifecycle) && post == *self
        } else if input == ValueType::Text {
            r == Ok::<ValueType, UnitError>(
                ValueType::Object(ENGINE_VENDOR_TAG, CLIENT_TYPE_TAG),
            ) && post.phase == Phase::Composed
        } else {
            r == Err::<ValueType, UnitError>(UnitError::BuildTimeType) && post == *self
        }
    }

    open spec fn warmup_ens(&self, scope: Scope, post: Client, r: Result<(), UnitError>) -> bool {
        &&& post.ws == self.ws
        &&& post.pending == self.pending
        &&& if self.phase is Composed || self.phase is Cold {
            r == Ok::<(), UnitError>(()) && post.phase is Warm
        } else {
            r == Err::<(), UnitError>(UnitError::Lifecycle) && post == *self
        }
    }

    open spec fn execute_ens(
        &self,
        reg_pre: ObjectRegistry,
        scope_pre: Scope,
        input: ValueModel,
        post: Client,
        reg_post: ObjectRegistry,
        scope_post: Scope,
        r: Result<UnitStep, UnitError>,
    ) -> bool {
        self.phase is Warm ==> {
            &&& surroundings_unchanged(reg_pre, reg_post, scope_pre, scope_post)
            &&& post.phase == self.phase
            &&& post.ws == self.ws
            &&& if self.pending {
                r == Err::<UnitStep, UnitError>(UnitError::Lifecycle) && post == *self
            } else {
                match input {
                    ValueModel::Text(addr) => {
                        &&& (r matches Ok(step) && step@ == UnitStepModel::Suspend(
                            BlockingActionModel::Connect(addr),
                        ))
                        &&& post.pending
                    },
                    _ => r == Err::<UnitStep, UnitError>(UnitError::ResourceTypeMismatch)
                        && post == *self,
                }
            }
        }
    }

    open spec fn resume_ens(
        &self,
        reg_pre: ObjectRegistry,
        scope_pre: Scope,
        event: BlockingEvent,
        post: Client,
        reg_post: ObjectRegistry,
        scope_post: Scope,
        r: Result<TaggedValue, UnitError>,
    ) -> bool {
        self.phase is Warm ==> {
            &&& scope_post@ == scope_pre@
            &&& post.phase == self.phase
            &&& if !self.pending {
                r == Err::<TaggedValue, UnitError>(UnitError::Lifecycle) && post == *self
                    && surroundings_unchanged(reg_pre, reg_post, scope_pre, scope_post)
            } else {
                match event@ {
                    crate::bridge::BlockingEventModel::Connected(payload) => ({
                        let obj = ObjectRef {
                            vendor_tag: ENGINE_VENDOR_TAG,
                            type_tag: CLIENT_TYPE_TAG,
                            slot: reg_pre.slots@.len() as usize,
                        };
                        &&& reg_post.slots@ == reg_pre.slots@.push(
                            Some(
                                HandleSlot {
                                    refcount: 2,
                                    vendor_tag: ENGINE_VENDOR_TAG,
                                    type_tag: CLIENT_TYPE_TAG,
                                    payload,
                                },
                            ),
                        )
                        &&& reg_post.destroyed@ == reg_pre.destroyed@
                        &&& (r matches Ok(v) && v@ == ValueModel::Object(obj))
                        &&& (post.ws matches Some(w) && w@ == ValueModel::Object(obj))
                        &&& !post.pending
                    }),
                    crate::bridge::BlockingEventModel::ConnectFailed => {
                        &&& r == Err::<TaggedValue, UnitError>(UnitError::IoFailure)
                        &&& post.ws == self.ws
                        &&& !post.pending
                        &&& surroundings_unchanged(reg_pre, reg_post, scope_pre, scope_post)
                    },
                    _ => r == Err::<TaggedValue, UnitError>(UnitError::Lifecycle) && post
                        == *self && surroundings_unchanged(
                        reg_pre,
                        reg_post,
                        scope_pre,
                        scope_post,
                    ),
                }
            }
        }
    }

    open spec fn cleanup_ens(
        &self,
        reg_pre: ObjectRegistry,
        post: Client,
        reg_post: ObjectRegistry,
        r: Result<(), UnitError>,
    ) -> bool {
        if self.phase is Warm {
            &&& r == Ok::<(), UnitError>(())
            &&& post.phase is Cold
            &&& post.ws is None
            &&& post.pending == self.pending
            &&& match self.ws {
                Some(w) => match w@ {
                    ValueModel::Object(obj) => (reg_post.slots@, reg_post.destroyed@)
                        == release_model(reg_pre.slots@, reg_pre.destroyed@, obj),
                    _ => reg_post.slots@ == reg_pre.slots@ && reg_post.destroyed@
                        == reg_pre.destroyed@,
                },
                None => reg_post.slots@ == reg_pre.slots@ && reg_post.destroyed@
                    == reg_pre.destroyed@,
            }
        } else {
            &&& r == Err::<(), UnitError>(UnitError::Lifecycle)
            &&& post == *self
            &&& reg_post.slots@ == reg_pre.slots@
            &&& reg_post.destroyed@ == reg_pre.destroyed@
        }
    }

    open spec fn set_param_ens(
        &self,
        index: usize,
        mode: ParamMode,
        post: Client,
        r: Result<(), UnitError>,
    ) -> bool {
        r == Err::<(), UnitError>(UnitError::Parameter) && post == *self
    }

    open spec fn get_param_ens(&self, index: usize, r: Result<ParamMode, UnitError>) -> bool {
        r == Err::<ParamMode, UnitError>(UnitError::Parameter)
    }

    open spec fn required_variables_ens(&self, names: Seq<Seq<char>>) -> bool {
        names == Seq::<Seq<char>>::empty()
    }

    fn name(&self) -> (r: String) {
        String::from_str("WS.Client")
    }

    fn hash(&self) -> (r: u32) {
        register_hash("WS.Client-rust-0x20200101")
    }

    fn input_types(&self) -> (r: Vec<ValueType>) {
        let mut types: Vec<ValueType> = Vec::new();
        types.push(ValueType::Text);
        proof {
            assert(types@ =~= self.input_types_spec());
        }
        types
    }

    fn output_types(&self) -> (r: Vec<ValueType>) {
        let mut types: Vec<ValueType> = Vec::new();
        types.push(ValueType::Object(ENGINE_VENDOR_TAG, CLIENT_TYPE_TAG));
        proof {
            assert(types@ =~= self.output_types_spec());
        }
        types
    }

    fn parameters(&self) -> (r: Vec<ParamDesc>) {
        let table: Vec<ParamDesc> = Vec::new();
        proof {
            assert(table@.map_values(|d: ParamDesc| d@) =~= Seq::<ParamDescModel>::empty());
        }
        table
    }

    fn set_param(&mut self, index: usize, mode: ParamMode) -> (r: Result<(), UnitError>) {
        Err(UnitError::Parameter)
    }

    fn get_param(&self, index: usize) -> (r: Result<ParamMode, UnitError>) {
        Err(UnitError::Parameter)
    }

    fn required_variables(&self) -> (r: Vec<String>) {
        let names: Vec<String> = Vec::new();
        proof {
            assert(names@.map_values(|s: String| s@) =~= Seq::<Seq<char>>::empty());
        }
        names
    }

    fn compose(&mut self, input: ValueType) -> (r: Result<ValueType, UnitError>) {
        match self.phase {
            Phase::Warm => {
                return Err(UnitError::Lifecycle);
            },
            _ => {},
        }
        if input == ValueType::Text {
            self.phase = Phase::Composed;
            Ok(ValueType::Object(ENGINE_VENDOR_TAG, CLIENT_TYPE_TAG))
        } else {
            Err(UnitError::BuildTimeType)
        }
    }

    fn warmup(&mut self, scope: &Scope) -> (r: Result<(), UnitError>) {
        match self.phase {
            Phase::Composed | Phase::Cold => {},
            _ => {
                return Err(UnitError::Lifecycle);
            },
        }
        self.phase = Phase::Warm;
        Ok(())
    }

    fn execute(
        &mut self,
        registry: &mut ObjectRegistry,
        scope: &mut Scope,
        input: &TaggedValue,
    ) -> (r: Result<UnitStep, UnitError>) {
        match self.phase {
            Phase::Warm => {},
            _ => {
                return Err(UnitError::Lifecycle);
            },
        }
        if self.pending {
            return Err(UnitError::Lifecycle);
        }
        match input {
            TaggedValue::Text(addr) => {
                self.pending = true;
                Ok(UnitStep::Suspend(BlockingAction::Connect(addr.clone())))
            },
            _ => Err(UnitError::ResourceTypeMismatch),
        }
    }

    fn resume(
        &mut self,
        registry: &mut ObjectRegistry,
        scope: &mut Scope,
        event: BlockingEvent,
    ) -> (r: Result<TaggedValue, UnitError>) {
        match self.phase {
            Phase::Warm => {},
            _ => {
                return Err(UnitError::Lifecycle);
            },
        }
        if !self.pending {
            return Err(UnitError::Lifecycle);
        }
        match event {
            BlockingEvent::Connected(payload) => {
                let n = registry.slots.len();
                let held = registry.wrap(payload, ENGINE_VENDOR_TAG, CLIENT_TYPE_TAG);
                proof {
                    assert(slot_live(registry.slots@, n as int));
                }
                let out = match registry.clone_value(&held) {
                    Ok(v) => v,
                    Err(e) => {
                        proof {
                            assert(false);
                        }
                        return Err(e);
                    },
                };
                proof {
                    assert(registry.slots@ =~= old(registry).slots@.push(
                        Some(
                            HandleSlot {
                                refcount: 2,
                                vendor_tag: ENGINE_VENDOR_TAG,
                                type_tag: CLIENT_TYPE_TAG,
                                payload,
                            },
                        ),
                    ));
                }
                self.ws = Some(held);
                self.pending = false;
                Ok(out)
            },
            BlockingEvent::ConnectFailed => {
                self.pending = false;
                Err(UnitError::IoFailure)
            },
            _ => Err(UnitError::Lifecycle),
        }
    }

    fn cleanup(&mut self, registry: &mut ObjectRegistry) -> (r: Result<(), UnitError>) {
        match self.phase {
            Phase::Warm => {},
            _ => {
                return Err(UnitError::Lifecycle);
            },
        }
        let held = self.ws.take();
        match held {
            Some(w) => registry.release_value(w),
            None => {},
        }
        self.phase = Phase::Cold;
        Ok(())
    }
}

/// A shared reference to the client object of another unit, resolved
/// through a variable-mode parameter and cached after the first
/// resolution.
pub struct ClientUser {
    /// Cached counted reference to the resolved client object.
    pub ws: Option<TaggedValue>,
    /// The parameter naming the variable that holds the client.
    pub instance: BoundParameter,
}

/// What resolving the client does. A cached reference is only
/// re-checked; the first resolution needs the binding inside its
/// acquire/release window — outside it the call is rejected as a
/// lifecycle error with nothing touched — then reads the parameter's
/// variable, verifies the tag pair, counts one new reference and
/// caches it.
pub open spec fn client_user_activate_ens(
    pre: ClientUser,
    reg_pre: ObjectRegistry,
    scope: Scope,
    post: ClientUser,
    reg_post: ObjectRegistry,
    r: Result<u64, UnitError>,
) -> bool {
    &&& post.instance == pre.instance
    &&& reg_post.destroyed@ == reg_pre.destroyed@
    &&& match pre.ws {
        Some(w) => {
            &&& post == pre
            &&& reg_post.slots@ == reg_pre.slots@
            &&& match w@ {
                ValueModel::Object(obj) => {
                    if obj.vendor_tag != ENGINE_VENDOR_TAG || obj.type_tag != CLIENT_TYPE_TAG {
                        r == Err::<u64, UnitError>(UnitError::ResourceTypeMismatch)
                    } else if slot_live(reg_pre.slots@, obj.slot as int) {
                        r == Ok::<u64, UnitError>(slot_at(reg_pre.slots@, obj.slot as int).payload)
                    } else {
                        r == Err::<u64, UnitError>(UnitError::Lifecycle)
                    }
                },
                _ => r == Err::<u64, UnitError>(UnitError::ResourceTypeMismatch),
            }
        },
        None => if !pre.instance.is_acquired() {
            &&& r == Err::<u64, UnitError>(UnitError::Lifecycle)
            &&& post == pre
            &&& reg_post.slots@ == reg_pre.slots@
        } else { match read_model(pre.instance.mode_m(), scope@) {
            Err(e) => {
                &&& r == Err::<u64, UnitError>(e)
                &&& post == pre
                &&& reg_post.slots@ == reg_pre.slots@
            },
            Ok(v) => match v {
                ValueModel::Object(obj) => {
                    if obj.vendor_tag != ENGINE_VENDOR_TAG || obj.type_tag != CLIENT_TYPE_TAG {
                        &&& r == Err::<u64, UnitError>(UnitError::ResourceTypeMismatch)
                        &&& post == pre
                        &&& reg_post.slots@ == reg_pre.slots@
                    } else if !slot_live(reg_pre.slots@, obj.slot as int) {
                        &&& r == Err::<u64, UnitError>(UnitError::Lifecycle)
                        &&& post == pre
                        &&& reg_post.slots@ == reg_pre.slots@
                    } else if slot_at(reg_pre.slots@, obj.slot as int).refcount == u64::MAX {
                        &&& r == Err::<u64, UnitError>(UnitError::Lifecycle)
                        &&& post == pre
                        &&& reg_post.slots@ == reg_pre.slots@
                    } else {
                        &&& r == Ok::<u64, UnitError>(
                            slot_at(reg_pre.slots@, obj.slot as int).payload,
                        )
                        &&& clone_obj_post(reg_pre.slots@, reg_post.slots@, obj)
                        &&& (post.ws matches Some(w) && w@ == v)
                    }
                },
                _ => {
                    &&& r == Err::<u64, UnitError>(UnitError::ResourceTypeMismatch)
                    &&& post == pre
                    &&& reg_post.slots@ == reg_pre.slots@
                },
            },
        } },
    }
}

impl ClientUser {
    pub fn new(param_name: String) -> (r: ClientUser)
        ensures
            r.ws is None,
            r.instance.mode_m() == ParamModeModel::VariableReference(param_name@),
            !r.instance.is_acquired(),
    {
        ClientUser { ws: None, instance: BoundParameter::new_variable(param_name) }
    }

    /// Resolve the client object: reuse the cached reference, or read
    /// the parameter's variable, check the tag pair and cache one
    /// counted reference. Returns the client's payload word.
    pub fn activate(
        &mut self,
        registry: &mut ObjectRegistry,
        scope: &Scope,
    ) -> (r: Result<u64, UnitError>)
        ensures
            final(self).instance.is_acquired() == old(self).instance.is_acquired(),
            client_user_activate_ens(
                *old(self),
                *old(registry),
                *scope,
                *final(self),
                *final(registry),
                r,
            ),
    {
        match &self.ws {
            Some(w) => registry.borrow_payload(w, ENGINE_VENDOR_TAG, CLIENT_TYPE_TAG),
            None => {
                let v = match self.instance.read(scope) {
                    Ok(v) => v,
                    Err(e) => {
                        return Err(e);
                    },
                };
                let payload = match registry.borrow_payload(
                    &v,
                    ENGINE_VENDOR_TAG,
                    CLIENT_TYPE_TAG,
                ) {
                    Ok(p) => p,
                    Err(e) => {
                        return Err(e);
                    },
                };
                let held = match registry.clone_value(&v) {
                    Ok(h) => h,
                    Err(e) => {
                        return Err(e);
                    },
                };
                self.ws = Some(held);
                Ok(payload)
            },
        }
    }
}

impl ClientUser {
    /// Drop the cached client reference and close the parameter's
    /// access window.
    pub fn cleanup(&mut self, registry: &mut ObjectRegistry) -> (r: Result<(), UnitError>)
        requires
            old(self).instance.is_acquired(),
        ensures
            r == Ok::<(), UnitError>(()),
            final(self).ws is None,
            !final(self).instance.is_acquired(),
            final(self).instance.mode_m() == old(self).instance.mode_m(),
            match old(self).ws {
                Some(w) => match w@ {
                    ValueModel::Object(obj) => (final(registry).slots@, final(registry).destroyed@)
                        == release_model(old(registry).slots@, old(registry).destroyed@, obj),
                    _ => final(registry).slots@ == old(registry).slots@
                        && final(registry).destroyed@ == old(registry).destroyed@,
                },
                None => final(registry).slots@ == old(registry).slots@
                    && final(registry).destroyed@ == old(registry).destroyed@,
            },
    {
        let held = self.ws.take();
        match held {
            Some(w) => registry.release_value(w),
            None => {},
        }
        match self.instance.release() {
            Ok(()) => {},
            Err(e) => {
                proof {
                    assert(false);
                }
                return Err(e);
            },
        }
        Ok(())
    }
}

/// The reading unit: waits for the next text message of the shared
/// client and outputs it.
pub struct ReadString {
    pub client: ClientUser,
    /// The text of the last message received.
    pub text: Option<String>,
    pub phase: Phase,
    /// A read is in flight; only one blocking closure per unit.
    pub pending: bool,
}

impl Default for ReadString {
    fn default() -> (r: ReadString)
        ensures
            r.inv(),
            r.phase() == Phase::Unregistered,
            r.client.ws is None,
            r.text is None,
            !r.pending,
    {
        ReadString {
            client: ClientUser::new(String::new()),
            text: None,
            phase: Phase::Unregistered,
            pending: false,
        }
    }
}

impl ProcessingUnit for ReadString {
    open spec fn phase(&self) -> Phase {
        self.phase
    }

    open spec fn inv(&self) -> bool {
        self.client.instance.is_acquired() == (self.phase is Warm)
    }

    open spec fn param_count(&self) -> nat {
        1
    }

    open spec fn name_spec(&self) -> Seq<char> {
        "WS.ReadString"@
    }

    open spec fn hash_spec(&self) -> u32 {
        spec_register_hash("WS.ReadString-rust-0x20200101".spec_bytes())
    }

    open spec fn input_types_spec(&self) -> Seq<ValueType> {
        seq![ValueType::Nothing]
    }

    open spec fn output_types_spec(&self) -> Seq<ValueType> {
        seq![ValueType::Text]
    }

    open spec fn parameters_ens(&self, table: Seq<ParamDescModel>) -> bool {
        &&& table.len() == 1
        &&& table[0].name == "Client"@
        &&& table[0].help == "The WebSocket client instance."@
        &&& table[0].accepted == seq![ValueType::Object(ENGINE_VENDOR_TAG, CLIENT_TYPE_TAG)]
    }

    open spec fn compose_ens(
        &self,
        input: ValueType,
        post: ReadString,
        r: Result<ValueType, UnitError>,
    ) -> bool {
        &&& post.client == self.client
        &&& post.text == self.text
        &&& post.pending == self.pending
        &&& if self.phase is Warm {
            r == Err::<ValueType, UnitError>(UnitError::Lifecycle) && post == *self
        } else if input == ValueType::Nothing {
            r == Ok::<ValueType, UnitError>(ValueType::Text) && post.phase == Phase::Composed
        } else {
            r == Err::<ValueType, UnitError>(UnitError::BuildTimeType) && post == *self
        }
    }

    open spec fn warmup_ens(
        &self,
        scope: Scope,
        post: ReadString,
        r: Result<(), UnitError>,
    ) -> bool {
        &&& post.client.ws == self.client.ws
        &&& post.client.instance.mode_m() == self.client.instance.mode_m()
        &&& post.text == self.text
        &&& post.pending == self.pending
        &&& if self.phase is Composed || self.phase is Cold {
            r == Ok::<(), UnitError>(()) && post.phase is Warm
        } else {
            r == Err::<(), UnitError>(UnitError::Lifecycle) && post == *self
        }
    }

    open spec fn execute_ens(
        &self,
        reg_pre: ObjectRegistry,
        scope_pre: Scope,
        input: ValueModel,
        post: ReadString,
        reg_post: ObjectRegistry,
        scope_post: Scope,
        r: Result<UnitStep, UnitError>,
    ) -> bool {
        self.phase is Warm ==> {
            &&& scope_post@ == scope_pre@
            &&& reg_post.destroyed@ == reg_pre.destroyed@
            &&& post.phase == self.phase
            &&& post.text == self.text
            &&& if self.pending {
                r == Err::<UnitStep, UnitError>(UnitError::Lifecycle) && post == *self
                    && reg_post.slots@ == reg_pre.slots@
            } else {
                exists|rc: Result<u64, UnitError>|
                    {
                        &&& #[trigger] client_user_activate_ens(
                            self.client,
                            reg_pre,
                            scope_pre,
                            post.client,
                            reg_post,
                            rc,
                        )
                        &&& match rc {
                            Ok(_) => (r matches Ok(step) && step@ == UnitStepModel::Suspend(
                                BlockingActionModel::ReadMessage,
                            )) && post.pending,
                            Err(e) => r == Err::<UnitStep, UnitError>(e) && post.pending
                                == self.pending,
                        }
                    }
            }
        }
    }

    open spec fn resume_ens(
        &self,
        reg_pre: ObjectRegistry,
        scope_pre: Scope,
        event: BlockingEvent,
        post: ReadString,
        reg_post: ObjectRegistry,
        scope_post: Scope,
        r: Result<TaggedValue, UnitError>,
    ) -> bool {
        self.phase is Warm ==> {
            &&& surroundings_unchanged(reg_pre, reg_post, scope_pre, scope_post)
            &&& post.phase == self.phase
            &&& post.client == self.client
            &&& if !self.pending {
                r == Err::<TaggedValue, UnitError>(UnitError::Lifecycle) && post == *self
            } else {
                match event@ {
                    crate::bridge::BlockingEventModel::TextMessage(text) => {
                        &&& (r matches Ok(v) && v@ == ValueModel::Text(text))
                        &&& (post.text matches Some(t) && t@ == text)
                        &&& !post.pending
                    },
                    crate::bridge::BlockingEventModel::NonTextMessage => {
                        &&& r == Err::<TaggedValue, UnitError>(UnitError::ResourceTypeMismatch)
                        &&& post.text == self.text
                        &&& !post.pending
                    },
                    crate::bridge::BlockingEventModel::ReadFailed => {
                        &&& r == Err::<TaggedValue, UnitError>(UnitError::IoFailure)
                        &&& post.text == self.text
                        &&& !post.pending
                    },
                    _ => r == Err::<TaggedValue, UnitError>(UnitError::Lifecycle) && post
                        == *self,
                }
            }
        }
    }

    open spec fn cleanup_ens(
        &self,
        reg_pre: ObjectRegistry,
        post: ReadString,
        reg_post: ObjectRegistry,
        r: Result<(), UnitError>,
    ) -> bool {
        if self.phase is Warm {
            &&& r == Ok::<(), UnitError>(())
            &&& post.phase is Cold
            &&& post.client.ws is None
            &&& match self.client.ws {
                Some(w) => match w@ {
                    ValueModel::Object(obj) => (reg_post.slots@, reg_post.destroyed@)
                        == release_model(reg_pre.slots@, reg_pre.destroyed@, obj),
                    _ => reg_post.slots@ == reg_pre.slots@ && reg_post.destroyed@
                        == reg_pre.destroyed@,
                },
                None => reg_post.slots@ == reg_pre.slots@ && reg_post.destroyed@
                    == reg_pre.destroyed@,
            }
        } else {
            &&& r == Err::<(), UnitError>(UnitError::Lifecycle)
            &&& post == *self
            &&& reg_post.slots@ == reg_pre.slots@
            &&& reg_post.destroyed@ == reg_pre.destroyed@
        }
    }

    open spec fn set_param_ens(
        &self,
        index: usize,
        mode: ParamMode,
        post: ReadString,
        r: Result<(), UnitError>,
    ) -> bool {
        &&& post.client.ws == self.client.ws
        &&& post.text == self.text
        &&& post.pending == self.pending
        &&& post.phase == self.phase
        &&& post.client.instance.is_acquired() == self.client.instance.is_acquired()
        &&& if index != 0 {
            r == Err::<(), UnitError>(UnitError::Parameter) && post == *self
        } else if self.client.instance.is_acquired() {
            r == Err::<(), UnitError>(UnitError::Lifecycle) && post.client.instance.mode_m()
                == self.client.instance.mode_m()
        } else {
            r == Ok::<(), UnitError>(()) && post.client.instance.mode_m() == mode@
        }
    }

    open spec fn get_param_ens(&self, index: usize, r: Result<ParamMode, UnitError>) -> bool {
        if index == 0 {
            r matches Ok(m) && m@ == self.client.instance.mode_m()
        } else {
            r == Err::<ParamMode, UnitError>(UnitError::Parameter)
        }
    }

    open spec fn required_variables_ens(&self, names: Seq<Seq<char>>) -> bool {
        names == match self.client.instance.mode_m() {
            ParamModeModel::VariableReference(n) => seq![n],
            ParamModeModel::Constant(_) => Seq::<Seq<char>>::empty(),
        }
    }

    fn name(&self) -> (r: String) {
        String::from_str("WS.ReadString")
    }

    fn hash(&self) -> (r: u32) {
        register_hash("WS.ReadString-rust-0x20200101")
    }

    fn input_types(&self) -> (r: Vec<ValueType>) {
        let mut types: Vec<ValueType> = Vec::new();
        types.push(ValueType::Nothing);
        proof {
            assert(types@ =~= self.input_types_spec());
        }
        types
    }

    fn output_types(&self) -> (r: Vec<ValueType>) {
        let mut types: Vec<ValueType> = Vec::new();
        types.push(ValueType::Text);
        proof {
            assert(types@ =~= self.output_types_spec());
        }
        types
    }

    fn parameters(&self) -> (r: Vec<ParamDesc>) {
        let mut accepted: Vec<ValueType> = Vec::new();
        accepted.push(ValueType::Object(ENGINE_VENDOR_TAG, CLIENT_TYPE_TAG));
        proof {
            assert(accepted@ =~= seq![ValueType::Object(ENGINE_VENDOR_TAG, CLIENT_TYPE_TAG)]);
        }
        let mut table: Vec<ParamDesc> = Vec::new();
        table.push(
            ParamDesc {
                name: String::from_str("Client"),
                help: String::from_str("The WebSocket client instance."),
                accepted,
            },
        );
        proof {
            assert(table@.map_values(|d: ParamDesc| d@) =~= seq![table@[0]@]);
        }
        table
    }

    fn set_param(&mut self, index: usize, mode: ParamMode) -> (r: Result<(), UnitError>) {
        if index != 0 {
            return Err(UnitError::Parameter);
        }
        self.client.instance.set_param(mode)
    }

    fn get_param(&self, index: usize) -> (r: Result<ParamMode, UnitError>) {
        if index != 0 {
            return Err(UnitError::Parameter);
        }
        Ok(self.client.instance.get_param())
    }

    fn required_variables(&self) -> (r: Vec<String>) {
        let mut names: Vec<String> = Vec::new();
        match self.client.instance.required_name() {
            Some(n) => names.push(n),
            None => {},
        }
        proof {
            match self.client.instance.mode_m() {
                ParamModeModel::VariableReference(n) => {
                    assert(names@.map_values(|s: String| s@) =~= seq![n]);
                },
                ParamModeModel::Constant(_) => {
                    assert(names@.map_values(|s: String| s@) =~= Seq::<Seq<char>>::empty());
                },
            }
        }
        names
    }

    fn compose(&mut self, input: ValueType) -> (r: Result<ValueType, UnitError>) {
        match self.phase {
            Phase::Warm => {
                return Err(UnitError::Lifecycle);
            },
            _ => {},
        }
        if input == ValueType::Nothing {
            self.phase = Phase::Composed;
            Ok(ValueType::Text)
        } else {
            Err(UnitError::BuildTimeType)
        }
    }

    fn warmup(&mut self, scope: &Scope) -> (r: Result<(), UnitError>) {
        match self.phase {
            Phase::Composed | Phase::Cold => {},
            _ => {
                return Err(UnitError::Lifecycle);
            },
        }
        match self.client.instance.acquire(scope) {
            Ok(()) => {},
            Err(e) => {
                proof {
                    assert(false);
                }
                return Err(e);
            },
        }
        self.phase = Phase::Warm;
        Ok(())
    }

    fn execute(
        &mut self,
        registry: &mut ObjectRegistry,
        scope: &mut Scope,
        input: &TaggedValue,
    ) -> (r: Result<UnitStep, UnitError>) {
        match self.phase {
            Phase::Warm => {},
            _ => {
                return Err(UnitError::Lifecycle);
            },
        }
        if self.pending {
            return Err(UnitError::Lifecycle);
        }
        match self.client.activate(registry, scope) {
            Ok(_) => {},
            Err(e) => {
                return Err(e);
            },
        }
        self.pending = true;
        Ok(UnitStep::Suspend(BlockingAction::ReadMessage))
    }

    fn resume(
        &mut self,
        registry: &mut ObjectRegistry,
        scope: &mut Scope,
        event: BlockingEvent,
    ) -> (r: Result<TaggedValue, UnitError>) {
        match self.phase {
            Phase::Warm => {},
            _ => {
                return Err(UnitError::Lifecycle);
            },
        }
        if !self.pending {
            return Err(UnitError::Lifecycle);
        }
        match event {
            BlockingEvent::TextMessage(text) => {
                self.pending = false;
                let out = TaggedValue::Text(text.clone());
                self.text = Some(text);
                Ok(out)
            },
            BlockingEvent::NonTextMessage => {
                self.pending = false;
                Err(UnitError::ResourceTypeMismatch)
            },
            BlockingEvent::ReadFailed => {
                self.pending = false;
                Err(UnitError::IoFailure)
            },
            _ => Err(UnitError::Lifecycle),
        }
    }

    fn cleanup(&mut self, registry: &mut ObjectRegistry) -> (r: Result<(), UnitError>) {
        match self.phase {
            Phase::Warm => {},
            _ => {
                return Err(UnitError::Lifecycle);
            },
        }
        match self.client.cleanup(registry) {
            Ok(()) => {},
            Err(e) => {
                proof {
                    assert(false);
                }
                return Err(e);
            },
        }
        self.phase = Phase::Cold;
        Ok(())
    }
}

/// The sending unit: transmits its text input on the shared client and
/// passes the input through on success.
pub struct SendString {
    pub client: ClientUser,
    /// The text of the transmission in flight, echoed on completion.
    pub in_flight: Option<String>,
    pub phase: Phase,
}

impl Default for SendString {
    fn default() -> (r: SendString)
        ensures
            r.inv(),
            r.phase() == Phase::Unregistered,
            r.client.ws is None,
            r.in_flight is None,
    {
        SendString {
            client: ClientUser::new(String::new()),
            in_flight: None,
            phase: Phase::Unregistered,
        }
    }
}

impl ProcessingUnit for SendString {
    open spec fn phase(&self) -> Phase {
        self.phase
    }

    open spec fn inv(&self) -> bool {
        self.client.instance.is_acquired() == (self.phase is Warm)
    }

    open spec fn param_count(&self) -> nat {
        1
    }

    open spec fn name_spec(&self) -> Seq<char> {
        "WS.SendString"@
    }

    open spec fn hash_spec(&self) -> u32 {
        spec_register_hash("WS.SendString-rust-0x20200101".spec_bytes())
    }

    open spec fn input_types_spec(&self) -> Seq<ValueType> {
        seq![ValueType::Text]
    }

    open spec fn output_types_spec(&self) -> Seq<ValueType> {
        seq![ValueType::Text]
    }

    open spec fn parameters_ens(&self, table: Seq<ParamDescModel>) -> bool {
        &&& table.len() == 1
        &&& table[0].name == "Client"@
        &&& table[0].help == "The WebSocket client instance."@
        &&& table[0].accepted == seq![ValueType::Object(ENGINE_VENDOR_TAG, CLIENT_TYPE_TAG)]
    }

    open spec fn compose_ens(
        &self,
        input: ValueType,
        post: SendString,
        r: Result<ValueType, UnitError>,
    ) -> bool {
        &&& post.client == self.client
        &&& post.in_flight == self.in_flight
        &&& if self.phase is Warm {
            r == Err::<ValueType, UnitError>(UnitError::Lifecycle) && post == *self
        } else if input == ValueType::Text {
            r == Ok::<ValueType, UnitError>(ValueType::Text) && post.phase == Phase::Composed
        } else {
            r == Err::<ValueType, UnitError>(UnitError::BuildTimeType) && post == *self
        }
    }

    open spec fn warmup_ens(
        &self,
        scope: Scope,
        post: SendString,
        r: Result<(), UnitError>,
    ) -> bool {
        &&& post.client.ws == self.client.ws
        &&& post.client.instance.mode_m() == self.client.instance.mode_m()
        &&& post.in_flight == self.in_flight
        &&& if self.phase is Composed || self.phase is Cold {
            r == Ok::<(), UnitError>(()) && post.phase is Warm
        } else {
            r == Err::<(), UnitError>(UnitError::Lifecycle) && post == *self
        }
    }

    open spec fn execute_ens(
        &self,
        reg_pre: ObjectRegistry,
        scope_pre: Scope,
        input: ValueModel,
        post: SendString,
        reg_post: ObjectRegistry,
        scope_post: Scope,
        r: Result<UnitStep, UnitError>,
    ) -> bool {
        self.phase is Warm ==> {
            &&& scope_post@ == scope_pre@
            &&& reg_post.destroyed@ == reg_pre.destroyed@
            &&& post.phase == self.phase
            &&& if self.in_flight is Some {
                r == Err::<UnitStep, UnitError>(UnitError::Lifecycle) && post == *self
                    && reg_post.slots@ == reg_pre.slots@
            } else {
                match input {
                    ValueModel::Text(text) => exists|rc: Result<u64, UnitError>|
                        {
                            &&& #[trigger] client_user_activate_ens(
                                self.client,
                                reg_pre,
                                scope_pre,
                                post.client,
                                reg_post,
                                rc,
                            )
                            &&& match rc {
                                Ok(_) => {
                                    &&& (r matches Ok(step) && step@ == UnitStepModel::Suspend(
                                        BlockingActionModel::SendText(text),
                                    ))
                                    &&& (post.in_flight matches Some(t) && t@ == text)
                                },
                                Err(e) => r == Err::<UnitStep, UnitError>(e) && post.in_flight
                                    is None,
                            }
                        },
                    _ => r == Err::<UnitStep, UnitError>(UnitError::ResourceTypeMismatch)
                        && post == *self && reg_post.slots@ == reg_pre.slots@,
                }
            }
        }
    }

    open spec fn resume_ens(
        &self,
        reg_pre: ObjectRegistry,
        scope_pre: Scope,
        event: BlockingEvent,
        post: SendString,
        reg_post: ObjectRegistry,
        scope_post: Scope,
        r: Result<TaggedValue, UnitError>,
    ) -> bool {
        self.phase is Warm ==> {
            &&& surroundings_unchanged(reg_pre, reg_post, scope_pre, scope_post)
            &&& post.phase == self.phase
            &&& post.client == self.client
            &&& match self.in_flight {
                None => r == Err::<TaggedValue, UnitError>(UnitError::Lifecycle) && post
                    == *self,
                Some(text) => match event@ {
                    crate::bridge::BlockingEventModel::Sent => {
                        &&& (r matches Ok(v) && v@ == ValueModel::Text(text@))
                        &&& post.in_flight is None
                    },
                    crate::bridge::BlockingEventModel::SendFailed => {
                        &&& r == Err::<TaggedValue, UnitError>(UnitError::IoFailure)
                        &&& post.in_flight is None
                    },
                    _ => r == Err::<TaggedValue, UnitError>(UnitError::Lifecycle) && post
                        == *self,
                },
            }
        }
    }

    open spec fn cleanup_ens(
        &self,
        reg_pre: ObjectRegistry,
        post: SendString,
        reg_post: ObjectRegistry,
        r: Result<(), UnitError>,
    ) -> bool {
        if self.phase is Warm {
            &&& r == Ok::<(), UnitError>(())
            &&& post.phase is Cold
            &&& post.client.ws is None
            &&& match self.client.ws {
                Some(w) => match w@ {
                    ValueModel::Object(obj) => (reg_post.slots@, reg_post.destroyed@)
                        == release_model(reg_pre.slots@, reg_pre.destroyed@, obj),
                    _ => reg_post.slots@ == reg_pre.slots@ && reg_post.destroyed@
                        == reg_pre.destroyed@,
                },
                None => reg_post.slots@ == reg_pre.slots@ && reg_post.destroyed@
                    == reg_pre.destroyed@,
            }
        } else {
            &&& r == Err::<(), UnitError>(UnitError::Lifecycle)
            &&& post == *self
            &&& reg_post.slots@ == reg_pre.slots@
            &&& reg_post.destroyed@ == reg_pre.destroyed@
        }
    }

    open spec fn set_param_ens(
        &self,
        index: usize,
        mode: ParamMode,
        post: SendString,
        r: Result<(), UnitError>,
    ) -> bool {
        &&& post.client.ws == self.client.ws
        &&& post.in_flight == self.in_flight
        &&& post.phase == self.phase
        &&& post.client.instance.is_acquired() == self.client.instance.is_acquired()
        &&& if index != 0 {
            r == Err::<(), UnitError>(UnitError::Parameter) && post == *self
        } else if self.client.instance.is_acquired() {
            r == Err::<(), UnitError>(UnitError::Lifecycle) && post.client.instance.mode_m()
                == self.client.instance.mode_m()
        } else {
            r == Ok::<(), UnitError>(()) && post.client.instance.mode_m() == mode@
        }
    }

    open spec fn get_param_ens(&self, index: usize, r: Result<ParamMode, UnitError>) -> bool {
        if index == 0 {
            r matches Ok(m) && m@ == self.client.instance.mode_m()
        } else {
            r == Err::<ParamMode, UnitError>(UnitError::Parameter)
        }
    }

    open spec fn required_variables_ens(&self, names: Seq<Seq<char>>) -> bool {
        names == match self.client.instance.mode_m() {
            ParamModeModel::VariableReference(n) => seq![n],
            ParamModeModel::Constant(_) => Seq::<Seq<char>>::empty(),
        }
    }

    fn name(&self) -> (r: String) {
        String::from_str("WS.SendString")
    }

    fn hash(&self) -> (r: u32) {
        register_hash("WS.SendString-rust-0x20200101")
    }

    fn input_types(&self) -> (r: Vec<ValueType>) {
        let mut types: Vec<ValueType> = Vec::new();
        types.push(ValueType::Text);
        proof {
            assert(types@ =~= self.input_types_spec());
        }
        types
    }

    fn output_types(&self) -> (r: Vec<ValueType>) {
        let mut types: Vec<ValueType> = Vec::new();
        types.push(ValueType::Text);
        proof {
            assert(types@ =~= self.output_types_spec());
        }
        types
    }

    fn parameters(&self) -> (r: Vec<ParamDesc>) {
        let mut accepted: Vec<ValueType> = Vec::new();
        accepted.push(ValueType::Object(ENGINE_VENDOR_TAG, CLIENT_TYPE_TAG));
        proof {
            assert(accepted@ =~= seq![ValueType::Object(ENGINE_VENDOR_TAG, CLIENT_TYPE_TAG)]);
        }
        let mut table: Vec<ParamDesc> = Vec::new();
        table.push(
            ParamDesc {
                name: String::from_str("Client"),
                help: String::from_str("The WebSocket client instance."),
                accepted,
            },
        );
        proof {
            assert(table@.map_values(|d: ParamDesc| d@) =~= seq![table@[0]@]);
        }
        table
    }

    fn set_param(&mut self, index: usize, mode: ParamMode) -> (r: Result<(), UnitError>) {
        if index != 0 {
            return Err(UnitError::Parameter);
        }
        self.client.instance.set_param(mode)
    }

    fn get_param(&self, index: usize) -> (r: Result<ParamMode, UnitError>) {
        if index != 0 {
            return Err(UnitError::Parameter);
        }
        Ok(self.client.instance.get_param())
    }

    fn required_variables(&self) -> (r: Vec<String>) {
        let mut names: Vec<String> = Vec::new();
        match self.client.instance.required_name() {
            Some(n) => names.push(n),
            None => {},
        }
        proof {
            match self.client.instance.mode_m() {
                ParamModeModel::VariableReference(n) => {
                    assert(names@.map_values(|s: String| s@) =~= seq![n]);
                },
                ParamModeModel::Constant(_) => {
                    assert(names@.map_values(|s: String| s@) =~= Seq::<Seq<char>>::empty());
                },
            }
        }
        names
    }

    fn compose(&mut self, input: ValueType) -> (r: Result<ValueType, UnitError>) {
        match self.phase {
            Phase::Warm => {
                return Err(UnitError::Lifecycle);
            },
            _ => {},
        }
        if input == ValueType::Text {
            self.phase = Phase::Composed;
            Ok(ValueType::Text)
        } else {
            Err(UnitError::BuildTimeType)
        }
    }

    fn warmup(&mut self, scope: &Scope) -> (r: Result<(), UnitError>) {
        match self.phase {
            Phase::Composed | Phase::Cold => {},
            _ => {
                return Err(UnitError::Lifecycle);
            },
        }
        match self.client.instance.acquire(scope) {
            Ok(()) => {},
            Err(e) => {
                proof {
                    assert(false);
                }
                return Err(e);
            },
        }
        self.phase = Phase::Warm;
        Ok(())
    }

    fn execute(
        &mut self,
        registry: &mut ObjectRegistry,
        scope: &mut Scope,
        input: &TaggedValue,
    ) -> (r: Result<UnitStep, UnitError>) {
        match self.phase {
            Phase::Warm => {},
            _ => {
                return Err(UnitError::Lifecycle);
            },
        }
        if self.in_flight.is_some() {
            return Err(UnitError::Lifecycle);
        }
        let text = match input {
            TaggedValue::Text(t) => t,
            _ => {
                return Err(UnitError::ResourceTypeMismatch);
            },
        };
        match self.client.activate(registry, scope) {
            Ok(_) => {},
            Err(e) => {
                return Err(e);
            },
        }
        self.in_flight = Some(text.clone());
        Ok(UnitStep::Suspend(BlockingAction::SendText(text.clone())))
    }

    fn resume(
        &mut self,
        registry: &mut ObjectRegistry,
        scope: &mut Scope,
        event: BlockingEvent,
    ) -> (r: Result<TaggedValue, UnitError>) {
        match self.phase {
            Phase::Warm => {},
            _ => {
                return Err(UnitError::Lifecycle);
            },
        }
        let text = match self.in_flight.take() {
            Some(t) => t,
            None => {
                return Err(UnitError::Lifecycle);
            },
        };
        match event {
            BlockingEvent::Sent => Ok(TaggedValue::Text(text)),
            BlockingEvent::SendFailed => Err(UnitError::IoFailure),
            _ => {
                self.in_flight = Some(text);
                Err(UnitError::Lifecycle)
            },
        }
    }

    fn cleanup(&mut self, registry: &mut ObjectRegistry) -> (r: Result<(), UnitError>) {
        match self.phase {
            Phase::Warm => {},
            _ => {
                return Err(UnitError::Lifecycle);
            },
        }
        match self.client.cleanup(registry) {
            Ok(()) => {},
            Err(e) => {
                proof {
                    assert(false);
                }
                return Err(e);
            },
        }
        self.phase = Phase::Cold;
        Ok(())
    }
}

/// One registered record, as the scheduler caches it: stable name,
/// registration hash, and the declared input and output type sets.
pub open spec fn record_is(
    d: crate::unit::DescriptorModel,
    name: Seq<char>,
    hash: u32,
    input_types: Seq<ValueType>,
    output_types: Seq<ValueType>,
) -> bool {
    &&& d.name == name
    &&& d.hash == hash
    &&& d.input_types == input_types
    &&& d.output_types == output_types
}

/// Register the network units' records with the hosting scheduler:
/// exactly three records are appended — the connector, the reader and
/// the sender, each with its stable name, registration hash and
/// declared type sets — and every pre-existing record is untouched.
#[allow(non_snake_case)]
pub fn registerShards(registry: &mut Registry)
    ensures
        ({
            let n = old(registry).entries@.len() as int;
            let e = final(registry).entries@;
            &&& e.len() == n + 3
            &&& e.subrange(0, n) == old(registry).entries@
            &&& record_is(
                e[n]@,
                "WS.Client"@,
                spec_register_hash("WS.Client-rust-0x20200101".spec_bytes()),
                seq![ValueType::Text],
                seq![ValueType::Object(ENGINE_VENDOR_TAG, CLIENT_TYPE_TAG)],
            )
            &&& record_is(
                e[n + 1]@,
                "WS.ReadString"@,
                spec_register_hash("WS.ReadString-rust-0x20200101".spec_bytes()),
                seq![ValueType::Nothing],
                seq![ValueType::Text],
            )
            &&& record_is(
                e[n + 2]@,
                "WS.SendString"@,
                spec_register_hash("WS.SendString-rust-0x20200101".spec_bytes()),
                seq![ValueType::Text],
                seq![ValueType::Text],
            )
        }),
{
    let client = Client::default();
    registry.register(describe_unit(&client));
    let reader = ReadString::default();
    registry.register(describe_unit(&reader));
    let sender = SendString::default();
    registry.register(describe_unit(&sender));
    proof {
        assert(final(registry).entries@.subrange(0, old(registry).entries@.len() as int)
            =~= old(registry).entries@);
    }
}

} // verus!
