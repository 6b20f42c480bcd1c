//! Parameter binding: a slot that resolves either to a literal constant
//! or to a live named variable of the pipeline's scope.
//!
//! A binding must be acquired once before its first use in an
//! activation cycle and released once at teardown; reads and writes
//! outside that window are reported as lifecycle errors, never
//! tolerated silently. A variable-mode read is fresh on every call:
//! it returns whatever was last written to the name, by anyone.

use vstd::prelude::*;

use crate::errors::UnitError;
use crate::scope::find_var;
use crate::scope::scope_write_post;
use crate::scope::Scope;
use crate::values::TaggedValue;
use crate::values::ValueModel;

verus! {

/// How a parameter slot resolves: a stored literal, or a reference to a
/// named variable of the active scope.
pub enum ParamMode {
    Constant(TaggedValue),
    VariableReference(String),
}

/// Mathematical model of a parameter mode.
pub enum ParamModeModel {
    Constant(ValueModel),
    VariableReference(Seq<char>),
}

impl View for ParamMode {
    type V = ParamModeModel;

    open spec fn view(&self) -> ParamModeModel {
        match *self {
            ParamMode::Constant(v) => ParamModeModel::Constant(v@),
            ParamMode::VariableReference(n) => ParamModeModel::VariableReference(n@),
        }
    }
}

impl ParamMode {
    pub fn duplicate(&self) -> (r: ParamMode)
        ensures
            r@ == self@,
    {
        match self {
            ParamMode::Constant(v) => ParamMode::Constant(v.duplicate()),
            ParamMode::VariableReference(n) => ParamMode::VariableReference(n.clone()),
        }
    }
}

/// What a read through an acquired binding returns, given the binding's
/// mode and the scope contents at the moment of the call.
pub open spec fn read_model(
    mode: ParamModeModel,
    scope: Seq<(Seq<char>, ValueModel)>,
) -> Result<ValueModel, UnitError> {
    match mode {
        ParamModeModel::Constant(v) => Ok(v),
        ParamModeModel::VariableReference(n) => match find_var(scope, n) {
            Some(v) => Ok(v),
            None => Err(UnitError::DependencyUnavailable),
        },
    }
}

/// A parameter slot plus its acquisition window.
pub struct BoundParameter {
    mode: ParamMode,
    acquired: bool,
}

impl BoundParameter {
    /// The binding's mode.
    pub closed spec fn mode_m(&self) -> ParamModeModel {
        self.mode@
    }

    /// Whether the binding is inside its acquire/release window.
    pub closed spec fn is_acquired(&self) -> bool {
        self.acquired
    }

    pub fn new_constant(v: TaggedValue) -> (r: BoundParameter)
        ensures
            r.mode_m() == ParamModeModel::Constant(v@),
            !r.is_acquired(),
    {
        BoundParameter { mode: ParamMode::Constant(v), acquired: false }
    }

    pub fn new_variable(name: String) -> (r: BoundParameter)
        ensures
            r.mode_m() == ParamModeModel::VariableReference(name@),
            !r.is_acquired(),
    {
        BoundParameter { mode: ParamMode::VariableReference(name), acquired: false }
    }

    /// Replace the slot's mode. Only legal outside the acquisition
    /// window: a pipeline sets parameters at build time.
    pub fn set_param(&mut self, mode: ParamMode) -> (r: Result<(), UnitError>)
        ensures
            if old(self).is_acquired() {
                &&& r == Err::<(), UnitError>(UnitError::Lifecycle)
                &&& final(self).mode_m() == old(self).mode_m()
                &&& final(self).is_acquired()
            } else {
                &&& r == Ok::<(), UnitError>(())
                &&& final(self).mode_m() == mode@
                &&& !final(self).is_acquired()
            },
    {
        if self.acquired {
            Err(UnitError::Lifecycle)
        } else {
            self.mode = mode;
            Ok(())
        }
    }

    /// A copy of the slot's mode, as the engine reads parameters back.
    pub fn get_param(&self) -> (r: ParamMode)
        ensures
            r@ == self.mode_m(),
    {
        self.mode.duplicate()
    }

    /// Whether the binding currently sits inside its access window.
    pub fn currently_acquired(&self) -> (r: bool)
        ensures
            r == self.is_acquired(),
    {
        self.acquired
    }

    /// Open the access window. Resolution is by name against the scope
    /// handed to each access, so acquisition itself only arms the slot;
    /// acquiring twice without a release is a lifecycle error.
    pub fn acquire(&mut self, _scope: &Scope) -> (r: Result<(), UnitError>)
        ensures
            final(self).mode_m() == old(self).mode_m(),
            if old(self).is_acquired() {
                r == Err::<(), UnitError>(UnitError::Lifecycle) && final(self).is_acquired()
            } else {
                r == Ok::<(), UnitError>(()) && final(self).is_acquired()
            },
    {
        if self.acquired {
            Err(UnitError::Lifecycle)
        } else {
            self.acquired = true;
            Ok(())
        }
    }

    /// Close the access window; releasing a detached slot is a
    /// lifecycle error.
    pub fn release(&mut self) -> (r: Result<(), UnitError>)
        ensures
            final(self).mode_m() == old(self).mode_m(),
            if old(self).is_acquired() {
                r == Ok::<(), UnitError>(()) && !final(self).is_acquired()
            } else {
                r == Err::<(), UnitError>(UnitError::Lifecycle) && !final(self).is_acquired()
            },
    {
        if self.acquired {
            self.acquired = false;
            Ok(())
        } else {
            Err(UnitError::Lifecycle)
        }
    }

    /// Read the slot: the stored literal, or the current value of the
    /// referenced variable — fresh on every call, so a write landing
    /// between two reads is seen by the second.
    pub fn read(&self, scope: &Scope) -> (r: Result<TaggedValue, UnitError>)
        ensures
            !self.is_acquired() ==> r == Err::<TaggedValue, UnitError>(UnitError::Lifecycle),
            self.is_acquired() ==> match r {
                Ok(v) => read_model(self.mode_m(), scope@) == Ok::<ValueModel, UnitError>(v@),
                Err(e) => read_model(self.mode_m(), scope@) == Err::<ValueModel, UnitError>(e),
            },
    {
        if !self.acquired {
            return Err(UnitError::Lifecycle);
        }
        match &self.mode {
            ParamMode::Constant(v) => Ok(v.duplicate()),
            ParamMode::VariableReference(n) => match scope.read_var(n) {
                Some(v) => Ok(v),
                None => Err(UnitError::DependencyUnavailable),
            },
        }
    }

    /// Write through the slot into the referenced variable. Constant
    /// slots are not writable; a detached slot is a lifecycle error.
    /// On success only the referenced name changes, to the new value.
    pub fn write(&self, scope: &mut Scope, value: TaggedValue) -> (r: Result<(), UnitError>)
        ensures
            !self.is_acquired() ==> {
                &&& r == Err::<(), UnitError>(UnitError::Lifecycle)
                &&& final(scope)@ == old(scope)@
            },
            self.is_acquired() ==> match self.mode_m() {
                ParamModeModel::Constant(_) => {
                    &&& r == Err::<(), UnitError>(UnitError::NotWritable)
                    &&& final(scope)@ == old(scope)@
                },
                ParamModeModel::VariableReference(n) => {
                    &&& r == Ok::<(), UnitError>(())
                    &&& scope_write_post(old(scope)@, final(scope)@, n, value@)
                },
            },
    {
        if !self.acquired {
            return Err(UnitError::Lifecycle);
        }
        match &self.mode {
            ParamMode::Constant(_) => Err(UnitError::NotWritable),
            ParamMode::VariableReference(n) => {
                scope.write_var(n, value);
                Ok(())
            },
        }
    }

    /// The variable name this slot depends on, if any.
    pub fn required_name(&self) -> (r: Option<String>)
        ensures
            match self.mode_m() {
                ParamModeModel::VariableReference(n) => r matches Some(s) && s@ == n,
                ParamModeModel::Constant(_) => r is None,
            },
    {
        match &self.mode {
            ParamMode::VariableReference(n) => Some(n.clone()),
            ParamMode::Constant(_) => None,
        }
    }
}

/// Parameter echo, constant side: a read through an acquired
/// constant-mode binding returns exactly the stored literal, whatever
/// the scope holds.
pub proof fn lemma_parameter_echo_constant(v: ValueModel, scope: Seq<(Seq<char>, ValueModel)>)
    ensures
        read_model(ParamModeModel::Constant(v), scope) == Ok::<ValueModel, UnitError>(v),
{
}

/// Parameter echo, variable side: a read through a variable-mode
/// binding reflects the most recent write to that name, from anywhere
/// in the active scope — including a write landing between two
/// consecutive reads, each read seeing its own latest value.
pub proof fn lemma_parameter_echo_variable(
    name: Seq<char>,
    v1: ValueModel,
    v2: ValueModel,
    s0: Seq<(Seq<char>, ValueModel)>,
    s1: Seq<(Seq<char>, ValueModel)>,
    s2: Seq<(Seq<char>, ValueModel)>,
)
    requires
        scope_write_post(s0, s1, name, v1),
        scope_write_post(s1, s2, name, v2),
    ensures
        read_model(ParamModeModel::VariableReference(name), s1) == Ok::<ValueModel, UnitError>(v1),
        read_model(ParamModeModel::VariableReference(name), s2) == Ok::<ValueModel, UnitError>(v2),
{
}

/// A write to one name is invisible through a binding on another name.
pub proof fn lemma_parameter_read_unaffected(
    name: Seq<char>,
    other: Seq<char>,
    v: ValueModel,
    s0: Seq<(Seq<char>, ValueModel)>,
    s1: Seq<(Seq<char>, ValueModel)>,
)
    requires
        scope_write_post(s0, s1, other, v),
        name != other,
    ensures
        read_model(ParamModeModel::VariableReference(name), s1) == read_model(
            ParamModeModel::VariableReference(name),
            s0,
        ),
{
}

} // verus!
