//! The processing-unit contract: the typed lifecycle every unit
//! implements, and the registration table the scheduler queries once
//! at load time.
//!
//! The lifecycle is a state machine: Unregistered, then Composed by the
//! one-time static type check of a pipeline build, then Warm after
//! resources are acquired, then Cold after they are released; a cold
//! unit is reusable and may warm up again. Executing outside the warm
//! window is rejected as a lifecycle error and mutates nothing —
//! a programming error, never undefined behavior.

use vstd::prelude::*;

use crate::bridge::BlockingAction;
use crate::bridge::BlockingActionModel;
use crate::bridge::BlockingEvent;
use crate::errors::UnitError;
use crate::handles::ObjectRegistry;
use crate::params::ParamMode;
use crate::scope::Scope;
use crate::values::TaggedValue;
use crate::values::ValueModel;
use crate::values::ValueType;

verus! {

/// Where a unit stands in its lifecycle.
#[derive(Clone, Copy, Debug, PartialEq, Eq, Structural)]
pub enum Phase {
    /// Fresh instance; no pipeline build has type-checked it yet.
    Unregistered,
    /// The one-time static check passed and a routine is chosen.
    Composed,
    /// Resources and parameter bindings are acquired; may execute.
    Warm,
    /// Torn down; reusable by a later warmup.
    Cold,
}

/// What one activation produced: a finished output value, or a request
/// to run a blocking action through the bridge, suspending the
/// pipeline until the worker's event is handed back through `resume`.
pub enum UnitStep {
    Done(TaggedValue),
    Suspend(BlockingAction),
}

/// Mathematical model of an activation step.
pub enum UnitStepModel {
    Done(ValueModel),
    Suspend(BlockingActionModel),
}

impl View for UnitStep {
    type V = UnitStepModel;

    open spec fn view(&self) -> UnitStepModel {
        match *self {
            UnitStep::Done(v) => UnitStepModel::Done(v@),
            UnitStep::Suspend(a) => UnitStepModel::Suspend(a@),
        }
    }
}

/// One row of a unit's parameter descriptor table.
pub struct ParamDesc {
    pub name: String,
    pub help: String,
    pub accepted: Vec<ValueType>,
}

/// Mathematical model of a descriptor row.
pub struct ParamDescModel {
    pub name: Seq<char>,
    pub help: Seq<char>,
    pub accepted: Seq<ValueType>,
}

impl View for ParamDesc {
    type V = ParamDescModel;

    open spec fn view(&self) -> ParamDescModel {
        ParamDescModel { name: self.name@, help: self.help@, accepted: self.accepted@ }
    }
}

/// The registration record the hosting scheduler caches per unit type.
pub struct UnitDescriptor {
    pub name: String,
    pub hash: u32,
    pub input_types: Vec<ValueType>,
    pub output_types: Vec<ValueType>,
}

/// Mathematical model of a registration record.
pub struct DescriptorModel {
    pub name: Seq<char>,
    pub hash: u32,
    pub input_types: Seq<ValueType>,
    pub output_types: Seq<ValueType>,
}

impl View for UnitDescriptor {
    type V = DescriptorModel;

    open spec fn view(&self) -> DescriptorModel {
        DescriptorModel {
            name: self.name@,
            hash: self.hash,
            input_types: self.input_types@,
            output_types: self.output_types@,
        }
    }
}

/// The table of registered unit types.
pub struct Registry {
    pub entries: Vec<UnitDescriptor>,
}

impl Registry {
    pub fn new() -> (r: Registry)
        ensures
            r.entries@.len() == 0,
    {
        Registry { entries: Vec::new() }
    }

    pub fn register(&mut self, d: UnitDescriptor)
        ensures
            final(self).entries@.len() == old(self).entries@.len() + 1,
            final(self).entries@ == old(self).entries@.push(d),
    {
        self.entries.push(d);
    }
}

/// Neither the registry nor the scope moved.
pub open spec fn surroundings_unchanged(
    reg_pre: ObjectRegistry,
    reg_post: ObjectRegistry,
    scope_pre: Scope,
    scope_post: Scope,
) -> bool {
    &&& reg_post.slots@ == reg_pre.slots@
    &&& reg_post.destroyed@ == reg_pre.destroyed@
    &&& scope_post@ == scope_pre@
}

/// The contract every processing unit implements.
///
/// The generic clauses here state the shared lifecycle discipline; each
/// implementation pins its own behavior down through the `..._ens`
/// specification hooks, which its callers see in full.
pub trait ProcessingUnit: Sized {
    /// The unit's current lifecycle phase.
    spec fn phase(&self) -> Phase;

    /// The unit's internal well-formedness.
    spec fn inv(&self) -> bool;

    /// How many parameter slots the unit declares.
    spec fn param_count(&self) -> nat;

    /// The unit's stable name.
    spec fn name_spec(&self) -> Seq<char>;

    /// The unit's registration hash.
    spec fn hash_spec(&self) -> u32;

    /// The closed list of input shapes the unit declares.
    spec fn input_types_spec(&self) -> Seq<ValueType>;

    /// The closed list of output shapes the unit declares.
    spec fn output_types_spec(&self) -> Seq<ValueType>;

    /// Implementation-specific contract of `parameters`: the exact
    /// descriptor table, row by row.
    spec fn parameters_ens(&self, table: Seq<ParamDescModel>) -> bool;

    /// Implementation-specific contract of `compose`.
    spec fn compose_ens(&self, input: ValueType, post: Self, r: Result<ValueType, UnitError>) -> bool;

    /// Implementation-specific contract of `warmup`.
    spec fn warmup_ens(&self, scope: Scope, post: Self, r: Result<(), UnitError>) -> bool;

    /// Implementation-specific contract of `execute`.
    spec fn execute_ens(
        &self,
        reg_pre: ObjectRegistry,
        scope_pre: Scope,
        input: ValueModel,
        post: Self,
        reg_post: ObjectRegistry,
        scope_post: Scope,
        r: Result<UnitStep, UnitError>,
    ) -> bool;

    /// Implementation-specific contract of `resume`.
    spec fn resume_ens(
        &self,
        reg_pre: ObjectRegistry,
        scope_pre: Scope,
        event: BlockingEvent,
        post: Self,
        reg_post: ObjectRegistry,
        scope_post: Scope,
        r: Result<TaggedValue, UnitError>,
    ) -> bool;

    /// Implementation-specific contract of `cleanup`.
    spec fn cleanup_ens(
        &self,
        reg_pre: ObjectRegistry,
        post: Self,
        reg_post: ObjectRegistry,
        r: Result<(), UnitError>,
    ) -> bool;

    /// Implementation-specific contract of `set_param`.
    spec fn set_param_ens(
        &self,
        index: usize,
        mode: ParamMode,
        post: Self,
        r: Result<(), UnitError>,
    ) -> bool;

    /// Implementation-specific contract of `get_param`.
    spec fn get_param_ens(&self, index: usize, r: Result<ParamMode, UnitError>) -> bool;

    /// Implementation-specific contract of `required_variables`.
    spec fn required_variables_ens(&self, names: Seq<Seq<char>>) -> bool;

    /// The unit's stable name.
    fn name(&self) -> (r: String)
        ensures
            r@ == self.name_spec(),
    ;

    /// The collision-resistant registration hash of the name plus a
    /// versioning token.
    fn hash(&self) -> (r: u32)
        ensures
            r == self.hash_spec(),
    ;

    /// The closed list of input shapes the unit accepts.
    fn input_types(&self) -> (r: Vec<ValueType>)
        ensures
            r@ == self.input_types_spec(),
    ;

    /// The closed list of output shapes the unit produces.
    fn output_types(&self) -> (r: Vec<ValueType>)
        ensures
            r@ == self.output_types_spec(),
    ;

    /// The parameter descriptor table, one row per slot.
    fn parameters(&self) -> (r: Vec<ParamDesc>)
        ensures
            r@.len() == self.param_count(),
            self.parameters_ens(r@.map_values(|d: ParamDesc| d@)),
    ;

    /// Set the parameter at `index`; an out-of-range index is an error
    /// and changes nothing.
    fn set_param(&mut self, index: usize, mode: ParamMode) -> (r: Result<(), UnitError>)
        requires
            old(self).inv(),
        ensures
            final(self).inv(),
            final(self).phase() == old(self).phase(),
            index >= old(self).param_count() ==> r == Err::<(), UnitError>(UnitError::Parameter),
            old(self).set_param_ens(index, mode, *final(self), r),
    ;

    /// Read the parameter at `index` back; an out-of-range index is an
    /// error.
    fn get_param(&self, index: usize) -> (r: Result<ParamMode, UnitError>)
        requires
            self.inv(),
        ensures
            index >= self.param_count() ==> r == Err::<ParamMode, UnitError>(UnitError::Parameter),
            self.get_param_ens(index, r),
    ;

    /// Every variable name the unit currently depends on: one per
    /// variable-mode parameter plus any implicit scope dependency.
    /// Recomputed on each call, since parameters may change.
    fn required_variables(&self) -> (r: Vec<String>)
        requires
            self.inv(),
        ensures
            self.required_variables_ens(r@.map_values(|s: String| s@)),
    ;

    /// The one-time static check of a pipeline build: verify the
    /// upstream type is acceptable, choose the execution routine for
    /// this concrete input type, and report the output type. Failure
    /// is fatal to pipeline construction and changes nothing.
    fn compose(&mut self, input: ValueType) -> (r: Result<ValueType, UnitError>)
        requires
            old(self).inv(),
        ensures
            final(self).inv(),
            r is Ok ==> final(self).phase() == Phase::Composed,
            r is Err ==> *final(self) == *old(self),
            old(self).compose_ens(input, *final(self), r),
    ;

    /// Acquire parameter bindings and external resources. Only legal
    /// on a composed or cold unit; success makes the unit warm.
    fn warmup(&mut self, scope: &Scope) -> (r: Result<(), UnitError>)
        requires
            old(self).inv(),
        ensures
            final(self).inv(),
            old(self).phase() != Phase::Composed && old(self).phase() != Phase::Cold ==> r
                == Err::<(), UnitError>(UnitError::Lifecycle) && *final(self) == *old(self),
            r is Ok ==> final(self).phase() == Phase::Warm,
            r is Err ==> final(self).phase() == old(self).phase(),
            old(self).warmup_ens(*scope, *final(self), r),
    ;

    /// One activation: transform the input, or request a blocking
    /// action. Executing before warmup or after cleanup is rejected as
    /// a lifecycle error and mutates nothing. A recoverable per-tick
    /// failure leaves the unit warm and usable on the next tick.
    fn execute(
        &mut self,
        registry: &mut ObjectRegistry,
        scope: &mut Scope,
        input: &TaggedValue,
    ) -> (r: Result<UnitStep, UnitError>)
        requires
            old(self).inv(),
        ensures
            final(self).inv(),
            final(self).phase() == old(self).phase(),
            old(self).phase() != Phase::Warm ==> r == Err::<UnitStep, UnitError>(
                UnitError::Lifecycle,
            ) && *final(self) == *old(self) && surroundings_unchanged(
                *old(registry),
                *final(registry),
                *old(scope),
                *final(scope),
            ),
            old(self).execute_ens(
                *old(registry),
                *old(scope),
                input@,
                *final(self),
                *final(registry),
                *final(scope),
                r,
            ),
    ;

    /// Hand back the completion event of the blocking action the unit
    /// requested; the unit finishes the suspended activation.
    fn resume(
        &mut self,
        registry: &mut ObjectRegistry,
        scope: &mut Scope,
        event: BlockingEvent,
    ) -> (r: Result<TaggedValue, UnitError>)
        requires
            old(self).inv(),
        ensures
            final(self).inv(),
            final(self).phase() == old(self).phase(),
            old(self).phase() != Phase::Warm ==> r == Err::<TaggedValue, UnitError>(
                UnitError::Lifecycle,
            ) && *final(self) == *old(self) && surroundings_unchanged(
                *old(registry),
                *final(registry),
                *old(scope),
                *final(scope),
            ),
            old(self).resume_ens(
                *old(registry),
                *old(scope),
                event,
                *final(self),
                *final(registry),
                *final(scope),
                r,
            ),
    ;

    /// Release parameter bindings and held object references; called
    /// exactly once per warmup. Success leaves the unit cold and
    /// reusable.
    fn cleanup(&mut self, registry: &mut ObjectRegistry) -> (r: Result<(), UnitError>)
        requires
            old(self).inv(),
        ensures
            final(self).inv(),
            old(self).phase() != Phase::Warm ==> r == Err::<(), UnitError>(UnitError::Lifecycle)
                && *final(self) == *old(self) && final(registry).slots@ == old(registry).slots@
                && final(registry).destroyed@ == old(registry).destroyed@,
            r is Ok ==> final(self).phase() == Phase::Cold,
            old(self).cleanup_ens(*old(registry), *final(self), *final(registry), r),
    ;
}

/// Build the registration record of a unit instance.
pub fn describe_unit<U: ProcessingUnit>(u: &U) -> (r: UnitDescriptor)
    ensures
        r@.name == u.name_spec(),
        r@.hash == u.hash_spec(),
        r@.input_types == u.input_types_spec(),
        r@.output_types == u.output_types_spec(),
{
    UnitDescriptor {
        name: u.name(),
        hash: u.hash(),
        input_types: u.input_types(),
        output_types: u.output_types(),
    }
}

} // verus!
