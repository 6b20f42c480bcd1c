//! Reference-counted, type-tagged object handles.
//!
//! A unit exposes a host- or plugin-owned resource to the rest of the
//! pipeline by wrapping it into the registry; other units hold the
//! resulting object value without copying the resource. The registry is
//! an explicit handle table: each live slot carries a reference count,
//! the identifying tag pair, and the opaque payload word standing for
//! the resource. Dropping the last reference runs the destructor
//! synchronously, recorded here in the destruction log.

use vstd::prelude::*;

use crate::errors::UnitError;
use crate::values::ObjectRef;
use crate::values::TaggedValue;
use crate::values::ValueModel;

verus! {

/// One live handle: reference count, identifying tags, and the opaque
/// payload word standing for the shared resource.
#[derive(Clone, Copy, Debug, PartialEq, Eq, Structural)]
pub struct HandleSlot {
    pub refcount: u64,
    pub vendor_tag: u32,
    pub type_tag: u32,
    pub payload: u64,
}

/// The handle table plus the log of payloads whose destructor has run.
pub struct ObjectRegistry {
    pub slots: Vec<Option<HandleSlot>>,
    pub destroyed: Vec<u64>,
}

/// Slot `i` holds a live handle.
pub open spec fn slot_live(slots: Seq<Option<HandleSlot>>, i: int) -> bool {
    0 <= i < slots.len() && slots[i] is Some
}

/// The handle in live slot `i`.
pub open spec fn slot_at(slots: Seq<Option<HandleSlot>>, i: int) -> HandleSlot
    recommends
        slot_live(slots, i),
{
    slots[i]->Some_0
}

/// What `wrap` does: one fresh slot with count 1, and the returned value
/// aliases that slot under the given tags.
pub open spec fn wrap_post(
    pre: Seq<Option<HandleSlot>>,
    post: Seq<Option<HandleSlot>>,
    payload: u64,
    vendor_tag: u32,
    type_tag: u32,
    r: ValueModel,
) -> bool {
    &&& post == pre.push(
        Some(HandleSlot { refcount: 1, vendor_tag, type_tag, payload }),
    )
    &&& r == ValueModel::Object(
        ObjectRef { vendor_tag, type_tag, slot: pre.len() as usize },
    )
}

/// What cloning an object value does to the table: the referenced slot's
/// count grows by one and nothing else moves.
pub open spec fn clone_obj_post(
    pre: Seq<Option<HandleSlot>>,
    post: Seq<Option<HandleSlot>>,
    obj: ObjectRef,
) -> bool {
    &&& slot_live(pre, obj.slot as int)
    &&& post == pre.update(
        obj.slot as int,
        Some(
            HandleSlot {
                refcount: (slot_at(pre, obj.slot as int).refcount + 1) as u64,
                ..slot_at(pre, obj.slot as int)
            },
        ),
    )
}

/// What releasing an object reference does to the table and the
/// destruction log: the count drops by one; when the released
/// reference was the last one, the slot dies and the payload's
/// destructor runs, appending it to the log. A dangling reference
/// changes nothing.
pub open spec fn release_model(
    pre: Seq<Option<HandleSlot>>,
    pre_destroyed: Seq<u64>,
    obj: ObjectRef,
) -> (Seq<Option<HandleSlot>>, Seq<u64>) {
    if slot_live(pre, obj.slot as int) {
        if slot_at(pre, obj.slot as int).refcount <= 1 {
            (
                pre.update(obj.slot as int, None::<HandleSlot>),
                pre_destroyed.push(slot_at(pre, obj.slot as int).payload),
            )
        } else {
            (
                pre.update(
                    obj.slot as int,
                    Some(
                        HandleSlot {
                            refcount: (slot_at(pre, obj.slot as int).refcount - 1) as u64,
                            ..slot_at(pre, obj.slot as int)
                        },
                    ),
                ),
                pre_destroyed,
            )
        }
    } else {
        (pre, pre_destroyed)
    }
}

impl ObjectRegistry {
    pub fn new() -> (r: ObjectRegistry)
        ensures
            r.slots@ =~= Seq::<Option<HandleSlot>>::empty(),
            r.destroyed@ =~= Seq::<u64>::empty(),
    {
        ObjectRegistry { slots: Vec::new(), destroyed: Vec::new() }
    }

    /// Wrap a resource into a fresh handle with reference count 1 and
    /// return the object value aliasing it.
    pub fn wrap(&mut self, payload: u64, vendor_tag: u32, type_tag: u32) -> (r: TaggedValue)
        ensures
            wrap_post(old(self).slots@, final(self).slots@, payload, vendor_tag, type_tag, r@),
            final(self).destroyed@ == old(self).destroyed@,
    {
        let slot = self.slots.len();
        self.slots.push(Some(HandleSlot { refcount: 1, vendor_tag, type_tag, payload }));
        TaggedValue::Object(ObjectRef { vendor_tag, type_tag, slot })
    }

    /// Clone a value. An object value gains one reference on its handle
    /// and the clone aliases the original exactly: same slot, same tags.
    /// The payload is never deep-copied. Any other value is deep-copied.
    /// Fails only on a dangling object reference or an exhausted count.
    pub fn clone_value(&mut self, v: &TaggedValue) -> (r: Result<TaggedValue, UnitError>)
        ensures
            final(self).destroyed@ == old(self).destroyed@,
            match v@ {
                ValueModel::Object(obj) => {
                    &&& r is Ok ==> {
                        &&& clone_obj_post(old(self).slots@, final(self).slots@, obj)
                        &&& r->Ok_0@ == v@
                    }
                    &&& r is Err ==> r == Err::<TaggedValue, UnitError>(UnitError::Lifecycle)
                        && final(self).slots@ == old(self).slots@
                    &&& (slot_live(old(self).slots@, obj.slot as int)
                        && slot_at(old(self).slots@, obj.slot as int).refcount < u64::MAX)
                        <==> r is Ok
                },
                _ => r is Ok && r->Ok_0@ == v@ && final(self).slots@ == old(self).slots@,
            },
    {
        match v {
            TaggedValue::Object(obj) => {
                if obj.slot < self.slots.len() {
                    match self.slots[obj.slot] {
                        Some(h) => {
                            if h.refcount < u64::MAX {
                                self.slots.set(
                                    obj.slot,
                                    Some(HandleSlot { refcount: h.refcount + 1, ..h }),
                                );
                                Ok(TaggedValue::Object(*obj))
                            } else {
                                Err(UnitError::Lifecycle)
                            }
                        },
                        None => Err(UnitError::Lifecycle),
                    }
                } else {
                    Err(UnitError::Lifecycle)
                }
            },
            _ => Ok(v.duplicate()),
        }
    }

    /// Check the tag pair and hand out the payload without touching the
    /// count. A mismatched pair is reported as `ResourceTypeMismatch`
    /// and the payload is never handed out on it.
    pub fn borrow_payload(
        &self,
        v: &TaggedValue,
        vendor_tag: u32,
        type_tag: u32,
    ) -> (r: Result<u64, UnitError>)
        ensures
            match v@ {
                ValueModel::Object(obj) => {
                    if obj.vendor_tag != vendor_tag || obj.type_tag != type_tag {
                        r == Err::<u64, UnitError>(UnitError::ResourceTypeMismatch)
                    } else if slot_live(self.slots@, obj.slot as int) {
                        r == Ok::<u64, UnitError>(slot_at(self.slots@, obj.slot as int).payload)
                    } else {
                        r == Err::<u64, UnitError>(UnitError::Lifecycle)
                    }
                },
                _ => r == Err::<u64, UnitError>(UnitError::ResourceTypeMismatch),
            },
    {
        match v {
            TaggedValue::Object(obj) => {
                if obj.vendor_tag != vendor_tag || obj.type_tag != type_tag {
                    Err(UnitError::ResourceTypeMismatch)
                } else if obj.slot < self.slots.len() {
                    match self.slots[obj.slot] {
                        Some(h) => Ok(h.payload),
                        None => Err(UnitError::Lifecycle),
                    }
                } else {
                    Err(UnitError::Lifecycle)
                }
            },
            _ => Err(UnitError::ResourceTypeMismatch),
        }
    }

    /// Extract ownership of the resource. When the caller holds the
    /// unique remaining reference the slot is vacated with no destructor
    /// run — ownership moves out. Otherwise the resource is copied
    /// through the handle's clone glue and one reference is given up.
    /// A mismatched tag pair changes nothing, the count included.
    pub fn unwrap_owned(
        &mut self,
        v: TaggedValue,
        vendor_tag: u32,
        type_tag: u32,
    ) -> (r: Result<u64, UnitError>)
        ensures
            final(self).destroyed@ == old(self).destroyed@,
            match v@ {
                ValueModel::Object(obj) => {
                    if obj.vendor_tag != vendor_tag || obj.type_tag != type_tag {
                        &&& r == Err::<u64, UnitError>(UnitError::ResourceTypeMismatch)
                        &&& final(self).slots@ == old(self).slots@
                    } else if slot_live(old(self).slots@, obj.slot as int) {
                        &&& r == Ok::<u64, UnitError>(
                            slot_at(old(self).slots@, obj.slot as int).payload,
                        )
                        &&& if slot_at(old(self).slots@, obj.slot as int).refcount <= 1 {
                            final(self).slots@ == old(self).slots@.update(
                                obj.slot as int,
                                None::<HandleSlot>,
                            )
                        } else {
                            final(self).slots@ == old(self).slots@.update(
                                obj.slot as int,
                                Some(
                                    HandleSlot {
                                        refcount: (slot_at(old(self).slots@, obj.slot as int).refcount
                                            - 1) as u64,
                                        ..slot_at(old(self).slots@, obj.slot as int)
                                    },
                                ),
                            )
                        }
                    } else {
                        &&& r == Err::<u64, UnitError>(UnitError::Lifecycle)
                        &&& final(self).slots@ == old(self).slots@
                    }
                },
                _ => r == Err::<u64, UnitError>(UnitError::ResourceTypeMismatch)
                    && final(self).slots@ == old(self).slots@,
            },
    {
        match v {
            TaggedValue::Object(obj) => {
                if obj.vendor_tag != vendor_tag || obj.type_tag != type_tag {
                    Err(UnitError::ResourceTypeMismatch)
                } else if obj.slot < self.slots.len() {
                    match self.slots[obj.slot] {
                        Some(h) => {
                            if h.refcount <= 1 {
                                self.slots.set(obj.slot, None);
                            } else {
                                self.slots.set(
                                    obj.slot,
                                    Some(HandleSlot { refcount: h.refcount - 1, ..h }),
                                );
                            }
                            Ok(h.payload)
                        },
                        None => Err(UnitError::Lifecycle),
                    }
                } else {
                    Err(UnitError::Lifecycle)
                }
            },
            _ => Err(UnitError::ResourceTypeMismatch),
        }
    }

    /// Give up one reference. When it was the last one the handle dies
    /// and the destructor runs synchronously, logging the payload.
    /// Releasing a non-object value or a dangling reference is a no-op.
    pub fn release_value(&mut self, v: TaggedValue)
        ensures
            match v@ {
                ValueModel::Object(obj) => (final(self).slots@, final(self).destroyed@)
                    == release_model(old(self).slots@, old(self).destroyed@, obj),
                _ => final(self).slots@ == old(self).slots@
                    && final(self).destroyed@ == old(self).destroyed@,
            },
    {
        match v {
            TaggedValue::Object(obj) => {
                if obj.slot < self.slots.len() {
                    match self.slots[obj.slot] {
                        Some(h) => {
                            if h.refcount <= 1 {
                                self.slots.set(obj.slot, None);
                                self.destroyed.push(h.payload);
                            } else {
                                self.slots.set(
                                    obj.slot,
                                    Some(HandleSlot { refcount: h.refcount - 1, ..h }),
                                );
                            }
                        },
                        None => {},
                    }
                }
            },
            _ => {},
        }
    }

    /// The current reference count of the handle an object value
    /// aliases; nothing for other values or dead slots.
    pub fn refcount_of(&self, v: &TaggedValue) -> (r: Option<u64>)
        ensures
            match v@ {
                ValueModel::Object(obj) => {
                    if slot_live(self.slots@, obj.slot as int) {
                        r == Some(slot_at(self.slots@, obj.slot as int).refcount)
                    } else {
                        r is None
                    }
                },
                _ => r is None,
            },
    {
        match v {
            TaggedValue::Object(obj) => {
                if obj.slot < self.slots.len() {
                    match self.slots[obj.slot] {
                        Some(h) => Some(h.refcount),
                        None => None,
                    }
                } else {
                    None
                }
            },
            _ => None,
        }
    }

    /// Whether a resource's destructor has run.
    pub fn was_destroyed(&self, payload: u64) -> (r: bool)
        ensures
            r == self.destroyed@.contains(payload),
    {
        let mut i: usize = 0;
        while i < self.destroyed.len()
            invariant
                i <= self.destroyed@.len(),
                forall|j: int| 0 <= j < i ==> self.destroyed@[j] != payload,
            decreases self.destroyed@.len() - i,
        {
            if self.destroyed[i] == payload {
                return true;
            }
            i = i + 1;
        }
        false
    }
}

/// Aliasing law: wrapping a resource and cloning the wrapped value
/// yields two values that compare equal by identity — same slot, same
/// tags — and the resource is destroyed only when the second of the two
/// references is released, never after the first alone.
pub proof fn lemma_alias_lifecycle(
    slots0: Seq<Option<HandleSlot>>,
    destroyed0: Seq<u64>,
    payload: u64,
    vendor_tag: u32,
    type_tag: u32,
)
    requires
        slots0.len() <= usize::MAX,
    ensures
        ({
            let obj = ObjectRef { vendor_tag, type_tag, slot: slots0.len() as usize };
            let wrapped = ValueModel::Object(obj);
            let slots1 = slots0.push(
                Some(HandleSlot { refcount: 1, vendor_tag, type_tag, payload }),
            );
            let slots2 = slots1.update(
                obj.slot as int,
                Some(HandleSlot { refcount: 2, vendor_tag, type_tag, payload }),
            );
            &&& wrap_post(slots0, slots1, payload, vendor_tag, type_tag, wrapped)
            // cloning the wrapped value is admitted and aliases it exactly
            &&& slot_live(slots1, obj.slot as int)
            &&& clone_obj_post(slots1, slots2, obj)
            // releasing one of the two references destroys nothing
            &&& release_model(slots2, destroyed0, obj).1 == destroyed0
            &&& slot_live(release_model(slots2, destroyed0, obj).0, obj.slot as int)
            // releasing the remaining reference destroys the resource
            &&& ({
                let (slots3, destroyed3) = release_model(slots2, destroyed0, obj);
                let (slots4, destroyed4) = release_model(slots3, destroyed3, obj);
                destroyed4 == destroyed0.push(payload) && !slot_live(slots4, obj.slot as int)
            })
        }),
{
    let obj = ObjectRef { vendor_tag, type_tag, slot: slots0.len() as usize };
    let slots1 = slots0.push(Some(HandleSlot { refcount: 1, vendor_tag, type_tag, payload }));
    let slots2 = slots1.update(
        obj.slot as int,
        Some(HandleSlot { refcount: 2, vendor_tag, type_tag, payload }),
    );
    assert(slot_at(slots1, obj.slot as int).refcount == 1);
    assert(clone_obj_post(slots1, slots2, obj)) by {
        assert(slots2 =~= slots1.update(
            obj.slot as int,
            Some(
                HandleSlot {
                    refcount: (slot_at(slots1, obj.slot as int).refcount + 1) as u64,
                    ..slot_at(slots1, obj.slot as int)
                },
            ),
        ));
    }
    assert(slot_at(slots2, obj.slot as int).refcount == 2);
    let (slots3, destroyed3) = release_model(slots2, destroyed0, obj);
    assert(slot_at(slots3, obj.slot as int).refcount == 1);
    let (slots4, destroyed4) = release_model(slots3, destroyed3, obj);
    assert(slots4[obj.slot as int] is None);
}

} // verus!
