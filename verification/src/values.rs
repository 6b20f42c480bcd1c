//! The tagged runtime value that flows between processing units, and the
//! type descriptors units declare for their inputs, outputs and parameters.

use vstd::prelude::*;

verus! {

/// Vendor tag shared by every object kind this engine defines.
pub const ENGINE_VENDOR_TAG: u32 = 0x66726167;

/// Type tag of a graphics texture object.
pub const TEXTURE_TYPE_TAG: u32 = 0x7465785F;

/// Type tag of a network client object.
pub const CLIENT_TYPE_TAG: u32 = 0x7773436C;

/// Flag bit set on an image whose pixel data has premultiplied alpha.
pub const IMAGE_FLAG_PREMULTIPLIED_ALPHA: u32 = 1;

/// A reference to an entry of the object registry: the pair of 4-byte tags
/// that identifies the object kind, plus the registry slot the handle
/// lives in.
///
/// Two values alias the same handle exactly when their slots are equal;
/// identity is meaningful and used for caching decisions downstream.
#[derive(Clone, Copy, Debug, PartialEq, Eq, Structural)]
pub struct ObjectRef {
    pub vendor_tag: u32,
    pub type_tag: u32,
    pub slot: usize,
}

/// An opaque raster image: dimensions, channel count, flags, the pixel
/// bytes, and a stable identity token for its backing buffer, used by
/// consumers to decide whether a cached conversion is still valid.
pub struct ImageValue {
    pub width: u32,
    pub height: u32,
    pub channels: u32,
    pub flags: u32,
    /// Identity of the backing pixel buffer; two images with equal
    /// `source_id` share the same backing store.
    pub source_id: u64,
    pub data: Vec<u8>,
}

/// Mathematical model of an image value.
pub struct ImageModel {
    pub width: u32,
    pub height: u32,
    pub channels: u32,
    pub flags: u32,
    pub source_id: u64,
    pub data: Seq<u8>,
}

impl View for ImageValue {
    type V = ImageModel;

    open spec fn view(&self) -> ImageModel {
        ImageModel {
            width: self.width,
            height: self.height,
            channels: self.channels,
            flags: self.flags,
            source_id: self.source_id,
            data: self.data@,
        }
    }
}

impl ImageValue {
    /// The pixel buffer holds exactly width * height * channels bytes.
    pub open spec fn wf(&self) -> bool {
        self.data@.len() == self.width * self.height * self.channels
    }

    pub fn duplicate(&self) -> (r: ImageValue)
        ensures
            r@ == self@,
    {
        let mut data: Vec<u8> = Vec::new();
        let mut i: usize = 0;
        while i < self.data.len()
            invariant
                i <= self.data@.len(),
                data@ =~= self.data@.subrange(0, i as int),
            decreases self.data@.len() - i,
        {
            data.push(self.data[i]);
            i = i + 1;
        }
        proof {
            assert(data@ =~= self.data@);
        }
        ImageValue {
            width: self.width,
            height: self.height,
            channels: self.channels,
            flags: self.flags,
            source_id: self.source_id,
            data,
        }
    }
}

/// The tagged union every unit consumes and produces. Two-component
/// numbers carry each component in thousandths, so that fractional
/// scales stay exact integers.
pub enum TaggedValue {
    Nothing,
    Bool(bool),
    Number(i64),
    /// A pair of numeric components, each in thousandths.
    Number2(i64, i64),
    Text(String),
    /// A sequence of numbers.
    Sequence(Vec<i64>),
    Image(ImageValue),
    Object(ObjectRef),
}

/// Mathematical model of a tagged value; the contracts of this crate
/// speak of values through this model.
pub enum ValueModel {
    Nothing,
    Bool(bool),
    Number(i64),
    Number2(i64, i64),
    Text(Seq<char>),
    Sequence(Seq<i64>),
    Image(ImageModel),
    Object(ObjectRef),
}

impl View for TaggedValue {
    type V = ValueModel;

    open spec fn view(&self) -> ValueModel {
        match *self {
            TaggedValue::Nothing => ValueModel::Nothing,
            TaggedValue::Bool(b) => ValueModel::Bool(b),
            TaggedValue::Number(n) => ValueModel::Number(n),
            TaggedValue::Number2(x, y) => ValueModel::Number2(x, y),
            TaggedValue::Text(s) => ValueModel::Text(s@),
            TaggedValue::Sequence(items) => ValueModel::Sequence(items@),
            TaggedValue::Image(img) => ValueModel::Image(img@),
            TaggedValue::Object(r) => ValueModel::Object(r),
        }
    }
}

/// The declared shape of a value: what a unit advertises it accepts or
/// produces, and what a parameter descriptor admits.
#[derive(Clone, Copy, Debug, PartialEq, Eq, Structural)]
pub enum ValueType {
    Nothing,
    Bool,
    Number,
    Number2,
    Text,
    Sequence,
    Image,
    /// An opaque object kind, identified by its vendor and type tags.
    Object(u32, u32),
}

/// The declared shape of a value, read off its model.
pub open spec fn spec_type_of(m: ValueModel) -> ValueType {
    match m {
        ValueModel::Nothing => ValueType::Nothing,
        ValueModel::Bool(_) => ValueType::Bool,
        ValueModel::Number(_) => ValueType::Number,
        ValueModel::Number2(_, _) => ValueType::Number2,
        ValueModel::Text(_) => ValueType::Text,
        ValueModel::Sequence(_) => ValueType::Sequence,
        ValueModel::Image(_) => ValueType::Image,
        ValueModel::Object(r) => ValueType::Object(r.vendor_tag, r.type_tag),
    }
}

impl TaggedValue {
    pub fn type_of(&self) -> (r: ValueType)
        ensures
            r == spec_type_of(self@),
    {
        match self {
            TaggedValue::Nothing => ValueType::Nothing,
            TaggedValue::Bool(_) => ValueType::Bool,
            TaggedValue::Number(_) => ValueType::Number,
            TaggedValue::Number2(_, _) => ValueType::Number2,
            TaggedValue::Text(_) => ValueType::Text,
            TaggedValue::Sequence(_) => ValueType::Sequence,
            TaggedValue::Image(_) => ValueType::Image,
            TaggedValue::Object(r) => ValueType::Object(r.vendor_tag, r.type_tag),
        }
    }

    /// Deep copy of the value; the copy has the same model. Copying an
    /// object-handle value copies only the reference, not the handle:
    /// use the registry to clone a handle and count the new reference.
    pub fn duplicate(&self) -> (r: TaggedValue)
        ensures
            r@ == self@,
    {
        match self {
            TaggedValue::Nothing => TaggedValue::Nothing,
            TaggedValue::Bool(b) => TaggedValue::Bool(*b),
            TaggedValue::Number(n) => TaggedValue::Number(*n),
            TaggedValue::Number2(x, y) => TaggedValue::Number2(*x, *y),
            TaggedValue::Text(s) => TaggedValue::Text(s.clone()),
            TaggedValue::Sequence(items) => {
                let mut out: Vec<i64> = Vec::new();
                let mut i: usize = 0;
                while i < items.len()
                    invariant
                        i <= items@.len(),
                        out@ =~= items@.subrange(0, i as int),
                    decreases items@.len() - i,
                {
                    out.push(items[i]);
                    i = i + 1;
                }
                proof {
                    assert(out@ =~= items@);
                }
                TaggedValue::Sequence(out)
            },
            TaggedValue::Image(img) => TaggedValue::Image(img.duplicate()),
            TaggedValue::Object(r) => TaggedValue::Object(*r),
        }
    }
}

} // verus!
