//! The image display unit: shows a raster image or an existing texture
//! inside the enclosing interface context, scaled by its one parameter.
//!
//! The unit specializes at compose time: the concrete input type picks
//! the execution routine once per pipeline build, and every later
//! activation runs that routine directly — a value of the wrong shape
//! is rejected, never re-dispatched.

use vstd::prelude::*;
use vstd::string::StringSliceAdditionalSpecFns;

use crate::errors::UnitError;
use crate::handles::slot_at;
use crate::handles::slot_live;
use crate::handles::ObjectRegistry;
use crate::hashing::register_hash;
use crate::hashing::spec_register_hash;
use crate::image_util::cache_wf;
use crate::image_util::effective_size;
use crate::image_util::get_scale;
use crate::image_util::refresh_post;
use crate::image_util::scale_ok;
use crate::image_util::spec_effective_size;
use crate::image_util::unpack_resolution;
use crate::image_util::CachedUIImage;
use crate::image_util::MAX_SCALE_THOUSANDTHS;
use crate::params::read_model;
use crate::params::BoundParameter;
use crate::params::ParamMode;
use crate::params::ParamModeModel;
use crate::scope::Scope;
use crate::unit::surroundings_unchanged;
use crate::unit::ParamDesc;
use crate::unit::ParamDescModel;
use crate::unit::Phase;
use crate::unit::ProcessingUnit;
use crate::unit::UnitStep;
use crate::unit::UnitStepModel;
use crate::values::TaggedValue;
use crate::values::ValueModel;
use crate::values::ValueType;
use crate::values::ENGINE_VENDOR_TAG;
use crate::values::TEXTURE_TYPE_TAG;
use crate::bridge::BlockingEvent;

verus! {

/// The routine compose selects for the rest of the composed instance's
/// life.
#[derive(Clone, Copy, Debug, PartialEq, Eq, Structural)]
pub enum ImageRoutine {
    /// No pipeline build has selected a routine yet.
    Unselected,
    /// The input is a raster image, converted through the cache.
    FromImage,
    /// The input is a handle to an existing texture.
    FromTexture,
}

/// The name of the implicit interface-context variable the unit
/// depends on.
pub open spec fn parents_name_model() -> Seq<char> {
    "UI.Parents"@
}

/// The image display unit.
pub struct Image {
    /// Binding to the implicit interface-context variable.
    pub parents: BoundParameter,
    /// The scale parameter: a two-component number in thousandths.
    pub scale: BoundParameter,
    /// Cached conversion of the last displayed raster image.
    pub cached_ui_image: CachedUIImage,
    /// The routine selected at compose time.
    pub routine: ImageRoutine,
    pub phase: Phase,
    /// The effective render size reported by the last activation.
    pub last_render: Option<(u64, u64)>,
}

/// What one image-routine activation does. The interface context is
/// read first: without it nothing is touched. A non-image input is
/// rejected without touching anything. Otherwise the texture cache is
/// refreshed against the input and the scale parameter decides the
/// rest: a well-formed scale reports the effective render size and
/// passes the input through; a malformed or unavailable scale reports
/// its error, the refresh already done.
pub open spec fn image_activate_ens(
    pre: Image,
    reg_pre: ObjectRegistry,
    scope_pre: Scope,
    input: ValueModel,
    post: Image,
    reg_post: ObjectRegistry,
    scope_post: Scope,
    r: Result<UnitStep, UnitError>,
) -> bool {
    &&& scope_post@ == scope_pre@
    &&& post.phase == pre.phase
    &&& post.routine == pre.routine
    &&& post.parents == pre.parents
    &&& post.scale == pre.scale
    &&& ({
        let parent = read_model(pre.parents.mode_m(), scope_pre@);
        if parent is Err || parent == Ok::<ValueModel, UnitError>(ValueModel::Nothing) {
            &&& r == Err::<UnitStep, UnitError>(UnitError::DependencyUnavailable)
            &&& post == pre
            &&& surroundings_unchanged(reg_pre, reg_post, scope_pre, scope_post)
        } else if !(input is Image) {
            &&& r == Err::<UnitStep, UnitError>(UnitError::ResourceTypeMismatch)
            &&& post == pre
            &&& surroundings_unchanged(reg_pre, reg_post, scope_pre, scope_post)
        } else {
            let img = input->Image_0;
            &&& refresh_post(
                pre.cached_ui_image,
                reg_pre,
                post.cached_ui_image,
                reg_post,
                img,
                Ok(post.cached_ui_image.texture->Some_0),
            )
            &&& match read_model(pre.scale.mode_m(), scope_pre@) {
                Ok(ValueModel::Number2(sx, sy)) => {
                    if 0 <= sx <= MAX_SCALE_THOUSANDTHS && 0 <= sy <= MAX_SCALE_THOUSANDTHS {
                        &&& r matches Ok(step) && step@ == UnitStepModel::Done(input)
                        &&& post.last_render == Some(
                            spec_effective_size(img.width, img.height, sx, sy),
                        )
                    } else {
                        &&& r == Err::<UnitStep, UnitError>(UnitError::Parameter)
                        &&& post.last_render == pre.last_render
                    }
                },
                Ok(_) => {
                    &&& r == Err::<UnitStep, UnitError>(UnitError::Parameter)
                    &&& post.last_render == pre.last_render
                },
                Err(e) => {
                    &&& r == Err::<UnitStep, UnitError>(e)
                    &&& post.last_render == pre.last_render
                },
            }
        }
    })
}

/// What one texture-routine activation does: the interface context is
/// read first; the input must be a live texture handle with the right
/// tag pair; its payload's packed resolution and the scale parameter
/// give the effective render size; the input passes through.
pub open spec fn texture_activate_ens(
    pre: Image,
    reg_pre: ObjectRegistry,
    scope_pre: Scope,
    input: ValueModel,
    post: Image,
    reg_post: ObjectRegistry,
    scope_post: Scope,
    r: Result<UnitStep, UnitError>,
) -> bool {
    &&& surroundings_unchanged(reg_pre, reg_post, scope_pre, scope_post)
    &&& post.phase == pre.phase
    &&& post.routine == pre.routine
    &&& post.parents == pre.parents
    &&& post.scale == pre.scale
    &&& post.cached_ui_image == pre.cached_ui_image
    &&& ({
        let parent = read_model(pre.parents.mode_m(), scope_pre@);
        if parent is Err || parent == Ok::<ValueModel, UnitError>(ValueModel::Nothing) {
            r == Err::<UnitStep, UnitError>(UnitError::DependencyUnavailable) && post == pre
        } else {
            match input {
                ValueModel::Object(obj) => {
                    if obj.vendor_tag != ENGINE_VENDOR_TAG || obj.type_tag != TEXTURE_TYPE_TAG {
                        r == Err::<UnitStep, UnitError>(UnitError::ResourceTypeMismatch) && post
                            == pre
                    } else if !slot_live(reg_pre.slots@, obj.slot as int) {
                        r == Err::<UnitStep, UnitError>(UnitError::Lifecycle) && post == pre
                    } else {
                        ({
                            let payload = slot_at(reg_pre.slots@, obj.slot as int).payload;
                            let w = (payload / 0x1_0000_0000) as u32;
                            let h = (payload % 0x1_0000_0000) as u32;
                            match read_model(pre.scale.mode_m(), scope_pre@) {
                                Ok(ValueModel::Number2(sx, sy)) => {
                                    if 0 <= sx <= MAX_SCALE_THOUSANDTHS && 0 <= sy
                                        <= MAX_SCALE_THOUSANDTHS {
                                        &&& r matches Ok(step) && step@ == UnitStepModel::Done(
                                            input,
                                        )
                                        &&& post.last_render == Some(
                                            spec_effective_size(w, h, sx, sy),
                                        )
                                    } else {
                                        &&& r == Err::<UnitStep, UnitError>(UnitError::Parameter)
                                        &&& post.last_render == pre.last_render
                                    }
                                },
                                Ok(_) => {
                                    &&& r == Err::<UnitStep, UnitError>(UnitError::Parameter)
                                    &&& post.last_render == pre.last_render
                                },
                                Err(e) => {
                                    &&& r == Err::<UnitStep, UnitError>(e)
                                    &&& post.last_render == pre.last_render
                                },
                            }
                        })
                    }
                },
                _ => r == Err::<UnitStep, UnitError>(UnitError::ResourceTypeMismatch) && post
                    == pre,
            }
        }
    })
}

impl Image {
    /// A short description of the unit for the embedding editor.
    pub fn help(&self) -> (r: String)
        ensures
            r@ == "Display an image in the UI."@,
    {
        String::from_str("Display an image in the UI.")
    }

    /// A short description of the unit's input.
    pub fn input_help(&self) -> (r: String)
        ensures
            r@ == "The image to display"@,
    {
        String::from_str("The image to display")
    }

    /// A short description of the unit's output.
    pub fn output_help(&self) -> (r: String)
        ensures
            r@ == "The output of this shard will be its input."@,
    {
        String::from_str("The output of this shard will be its input.")
    }

    /// Report the effective render size computed by the last
    /// successful activation.
    pub fn last_render_size(&self) -> (r: Option<(u64, u64)>)
        ensures
            r == self.last_render,
    {
        self.last_render
    }

    /// The raster-image routine: refresh the cached texture for the
    /// input image and report its scaled render size.
    #[allow(non_snake_case)]
    pub fn activateImage(
        &mut self,
        registry: &mut ObjectRegistry,
        scope: &mut Scope,
        input: &TaggedValue,
    ) -> (r: Result<UnitStep, UnitError>)
        requires
            old(self).inv(),
            old(self).phase() is Warm,
        ensures
            final(self).inv(),
            image_activate_ens(
                *old(self),
                *old(registry),
                *old(scope),
                input@,
                *final(self),
                *final(registry),
                *final(scope),
                r,
            ),
    {
        let parent = match self.parents.read(scope) {
            Ok(v) => v,
            Err(e) => {
                return Err(e);
            },
        };
        match parent {
            TaggedValue::Nothing => {
                return Err(UnitError::DependencyUnavailable);
            },
            _ => {},
        }
        let img = match input {
            TaggedValue::Image(img) => img,
            _ => {
                return Err(UnitError::ResourceTypeMismatch);
            },
        };
        let _texture = match self.cached_ui_image.get_texture_from_image(registry, img) {
            Ok(t) => t,
            Err(e) => {
                return Err(e);
            },
        };
        let (sx, sy) = match get_scale(&self.scale, scope) {
            Ok(p) => p,
            Err(e) => {
                proof {
                    let m = read_model(self.scale.mode_m(), scope@);
                    match m {
                        Ok(ValueModel::Number2(mx, my)) => {
                            if 0 <= mx <= MAX_SCALE_THOUSANDTHS && 0 <= my
                                <= MAX_SCALE_THOUSANDTHS {
                                assert(scale_ok(ValueModel::Number2(mx, my), mx, my));
                            }
                        },
                        _ => {},
                    }
                }
                return Err(e);
            },
        };
        let size = effective_size(img.width, img.height, sx, sy);
        self.last_render = Some(size);
        Ok(UnitStep::Done(input.duplicate()))
    }

    /// The texture routine: read the handle's packed resolution and
    /// report its scaled render size.
    #[allow(non_snake_case)]
    pub fn activateTexture(
        &mut self,
        registry: &mut ObjectRegistry,
        scope: &mut Scope,
        input: &TaggedValue,
    ) -> (r: Result<UnitStep, UnitError>)
        requires
            old(self).inv(),
            old(self).phase() is Warm,
        ensures
            final(self).inv(),
            texture_activate_ens(
                *old(self),
                *old(registry),
                *old(scope),
                input@,
                *final(self),
                *final(registry),
                *final(scope),
                r,
            ),
    {
        let parent = match self.parents.read(scope) {
            Ok(v) => v,
            Err(e) => {
                return Err(e);
            },
        };
        match parent {
            TaggedValue::Nothing => {
                return Err(UnitError::DependencyUnavailable);
            },
            _ => {},
        }
        let payload = match registry.borrow_payload(input, ENGINE_VENDOR_TAG, TEXTURE_TYPE_TAG) {
            Ok(p) => p,
            Err(e) => {
                return Err(e);
            },
        };
        let (w, h) = unpack_resolution(payload);
        let (sx, sy) = match get_scale(&self.scale, scope) {
            Ok(p) => p,
            Err(e) => {
                proof {
                    let m = read_model(self.scale.mode_m(), scope@);
                    match m {
                        Ok(ValueModel::Number2(mx, my)) => {
                            if 0 <= mx <= MAX_SCALE_THOUSANDTHS && 0 <= my
                                <= MAX_SCALE_THOUSANDTHS {
                                assert(scale_ok(ValueModel::Number2(mx, my), mx, my));
                            }
                        },
                        _ => {},
                    }
                }
                return Err(e);
            },
        };
        let size = effective_size(w, h, sx, sy);
        self.last_render = Some(size);
        Ok(UnitStep::Done(input.duplicate()))
    }
}

impl Default for Image {
    /// A fresh unit: context binding on the implicit interface
    /// variable, unit scale, empty cache, no routine chosen.
    fn default() -> (r: Image)
        ensures
            r.inv(),
            r.phase() == Phase::Unregistered,
            r.routine == ImageRoutine::Unselected,
            r.scale.mode_m() == ParamModeModel::Constant(ValueModel::Number2(1000, 1000)),
            r.parents.mode_m() == ParamModeModel::VariableReference(parents_name_model()),
            r.cached_ui_image.texture is None,
            r.cached_ui_image.prev_source is None,
            r.last_render is None,
    {
        let parents_name = String::from_str("UI.Parents");
        proof {
            reveal_strlit("UI.Parents");
        }
        Image {
            parents: BoundParameter::new_variable(parents_name),
            scale: BoundParameter::new_constant(TaggedValue::Number2(1000, 1000)),
            cached_ui_image: CachedUIImage::new(),
            routine: ImageRoutine::Unselected,
            phase: Phase::Unregistered,
            last_render: None,
        }
    }
}

impl ProcessingUnit for Image {
    open spec fn phase(&self) -> Phase {
        self.phase
    }

    open spec fn inv(&self) -> bool {
        &&& self.parents.mode_m() == ParamModeModel::VariableReference(parents_name_model())
        &&& self.parents.is_acquired() == (self.phase is Warm)
        &&& self.scale.is_acquired() == (self.phase is Warm)
        &&& cache_wf(self.cached_ui_image)
    }

    open spec fn param_count(&self) -> nat {
        1
    }

    open spec fn name_spec(&self) -> Seq<char> {
        "UI.Image"@
    }

    open spec fn hash_spec(&self) -> u32 {
        spec_register_hash("UI.Image-rust-0x20200101".spec_bytes())
    }

    open spec fn input_types_spec(&self) -> Seq<ValueType> {
        seq![ValueType::Image, ValueType::Object(ENGINE_VENDOR_TAG, TEXTURE_TYPE_TAG)]
    }

    open spec fn output_types_spec(&self) -> Seq<ValueType> {
        seq![ValueType::Image, ValueType::Object(ENGINE_VENDOR_TAG, TEXTURE_TYPE_TAG)]
    }

    open spec fn parameters_ens(&self, table: Seq<ParamDescModel>) -> bool {
        &&& table.len() == 1
        &&& table[0].name == "Scale"@
        &&& table[0].help == "Scaling to apply to the source image"@
        &&& table[0].accepted == seq![ValueType::Number2]
    }

    open spec fn compose_ens(
        &self,
        input: ValueType,
        post: Image,
        r: Result<ValueType, UnitError>,
    ) -> bool {
        &&& post.parents == self.parents
        &&& post.scale == self.scale
        &&& post.cached_ui_image == self.cached_ui_image
        &&& post.last_render == self.last_render
        &&& if self.phase is Warm {
            r == Err::<ValueType, UnitError>(UnitError::Lifecycle) && post == *self
        } else if input == ValueType::Image {
            &&& r == Ok::<ValueType, UnitError>(input)
            &&& post.routine == ImageRoutine::FromImage
            &&& post.phase == Phase::Composed
        } else if input == ValueType::Object(ENGINE_VENDOR_TAG, TEXTURE_TYPE_TAG) {
            &&& r == Ok::<ValueType, UnitError>(input)
            &&& post.routine == ImageRoutine::FromTexture
            &&& post.phase == Phase::Composed
        } else {
            r == Err::<ValueType, UnitError>(UnitError::BuildTimeType) && post == *self
        }
    }

    open spec fn warmup_ens(&self, scope: Scope, post: Image, r: Result<(), UnitError>) -> bool {
        &&& post.cached_ui_image == self.cached_ui_image
        &&& post.routine == self.routine
        &&& post.last_render == self.last_render
        &&& post.parents.mode_m() == self.parents.mode_m()
        &&& post.scale.mode_m() == self.scale.mode_m()
        &&& if self.phase is Composed || self.phase is Cold {
            r == Ok::<(), UnitError>(()) && post.phase is Warm
        } else {
            r == Err::<(), UnitError>(UnitError::Lifecycle) && post == *self
        }
    }

    open spec fn execute_ens(
        &self,
        reg_pre: ObjectRegistry,
        scope_pre: Scope,
        input: ValueModel,
        post: Image,
        reg_post: ObjectRegistry,
        scope_post: Scope,
        r: Result<UnitStep, UnitError>,
    ) -> bool {
        self.phase is Warm ==> match self.routine {
            ImageRoutine::Unselected => r == Err::<UnitStep, UnitError>(UnitError::Lifecycle)
                && post == *self && surroundings_unchanged(
                reg_pre,
                reg_post,
                scope_pre,
                scope_post,
            ),
            ImageRoutine::FromImage => image_activate_ens(
                *self,
                reg_pre,
                scope_pre,
                input,
                post,
                reg_post,
                scope_post,
                r,
            ),
            ImageRoutine::FromTexture => texture_activate_ens(
                *self,
                reg_pre,
                scope_pre,
                input,
                post,
                reg_post,
                scope_post,
                r,
            ),
        }
    }

    open spec fn resume_ens(
        &self,
        reg_pre: ObjectRegistry,
        scope_pre: Scope,
        event: BlockingEvent,
        post: Image,
        reg_post: ObjectRegistry,
        scope_post: Scope,
        r: Result<TaggedValue, UnitError>,
    ) -> bool {
        &&& r == Err::<TaggedValue, UnitError>(UnitError::Lifecycle)
        &&& post == *self
        &&& surroundings_unchanged(reg_pre, reg_post, scope_pre, scope_post)
    }

    open spec fn cleanup_ens(
        &self,
        reg_pre: ObjectRegistry,
        post: Image,
        reg_post: ObjectRegistry,
        r: Result<(), UnitError>,
    ) -> bool {
        &&& reg_post.slots@ == reg_pre.slots@
        &&& reg_post.destroyed@ == reg_pre.destroyed@
        &&& post.cached_ui_image == self.cached_ui_image
        &&& post.routine == self.routine
        &&& post.last_render == self.last_render
        &&& post.parents.mode_m() == self.parents.mode_m()
        &&& post.scale.mode_m() == self.scale.mode_m()
        &&& if self.phase is Warm {
            r == Ok::<(), UnitError>(()) && post.phase is Cold
        } else {
            r == Err::<(), UnitError>(UnitError::Lifecycle) && post == *self
        }
    }

    open spec fn set_param_ens(
        &self,
        index: usize,
        mode: ParamMode,
        post: Image,
        r: Result<(), UnitError>,
    ) -> bool {
        &&& post.parents == self.parents
        &&& post.cached_ui_image == self.cached_ui_image
        &&& post.routine == self.routine
        &&& post.phase == self.phase
        &&& post.last_render == self.last_render
        &&& post.scale.is_acquired() == self.scale.is_acquired()
        &&& if index != 0 {
            r == Err::<(), UnitError>(UnitError::Parameter) && post == *self
        } else if self.scale.is_acquired() {
            r == Err::<(), UnitError>(UnitError::Lifecycle) && post.scale.mode_m()
                == self.scale.mode_m()
        } else {
            r == Ok::<(), UnitError>(()) && post.scale.mode_m() == mode@
        }
    }

    open spec fn get_param_ens(&self, index: usize, r: Result<ParamMode, UnitError>) -> bool {
        if index == 0 {
            r matches Ok(m) && m@ == self.scale.mode_m()
        } else {
            r == Err::<ParamMode, UnitError>(UnitError::Parameter)
        }
    }

    open spec fn required_variables_ens(&self, names: Seq<Seq<char>>) -> bool {
        ({
            let base = match self.parents.mode_m() {
                ParamModeModel::VariableReference(p) => seq![p],
                ParamModeModel::Constant(_) => Seq::<Seq<char>>::empty(),
            };
            let full = match self.scale.mode_m() {
                ParamModeModel::VariableReference(n) => base.push(n),
                ParamModeModel::Constant(_) => base,
            };
            names == full
        })
    }

    fn name(&self) -> (r: String) {
        String::from_str("UI.Image")
    }

    fn hash(&self) -> (r: u32) {
        register_hash("UI.Image-rust-0x20200101")
    }

    fn input_types(&self) -> (r: Vec<ValueType>) {
        let mut types: Vec<ValueType> = Vec::new();
        types.push(ValueType::Image);
        types.push(ValueType::Object(ENGINE_VENDOR_TAG, TEXTURE_TYPE_TAG));
        proof {
            assert(types@ =~= self.input_types_spec());
        }
        types
    }

    fn output_types(&self) -> (r: Vec<ValueType>) {
        let mut types: Vec<ValueType> = Vec::new();
        types.push(ValueType::Image);
        types.push(ValueType::Object(ENGINE_VENDOR_TAG, TEXTURE_TYPE_TAG));
        proof {
            assert(types@ =~= self.output_types_spec());
        }
        types
    }

    fn parameters(&self) -> (r: Vec<ParamDesc>) {
        let mut accepted: Vec<ValueType> = Vec::new();
        accepted.push(ValueType::Number2);
        proof {
            assert(accepted@ =~= seq![ValueType::Number2]);
        }
        let mut table: Vec<ParamDesc> = Vec::new();
        table.push(
            ParamDesc {
                name: String::from_str("Scale"),
                help: String::from_str("Scaling to apply to the source image"),
                accepted,
            },
        );
        proof {
            assert(table@.map_values(|d: ParamDesc| d@) =~= seq![table@[0]@]);
        }
        table
    }

    fn set_param(&mut self, index: usize, mode: ParamMode) -> (r: Result<(), UnitError>) {
        if index != 0 {
            return Err(UnitError::Parameter);
        }
        self.scale.set_param(mode)
    }

    fn get_param(&self, index: usize) -> (r: Result<ParamMode, UnitError>) {
        if index != 0 {
            return Err(UnitError::Parameter);
        }
        Ok(self.scale.get_param())
    }

    fn required_variables(&self) -> (r: Vec<String>) {
        let mut names: Vec<String> = Vec::new();
        match self.parents.required_name() {
            Some(n) => names.push(n),
            None => {},
        }
        match self.scale.required_name() {
            Some(n) => names.push(n),
            None => {},
        }
        proof {
            assert(names@.map_values(|s: String| s@) =~= seq![parents_name_model()].push(
                self.scale.mode_m()->VariableReference_0,
            ) || names@.map_values(|s: String| s@) =~= seq![parents_name_model()]);
        }
        names
    }

    fn compose(&mut self, input: ValueType) -> (r: Result<ValueType, UnitError>) {
        match self.phase {
            Phase::Warm => {
                return Err(UnitError::Lifecycle);
            },
            _ => {},
        }
        if input == ValueType::Image {
            self.routine = ImageRoutine::FromImage;
            self.phase = Phase::Composed;
            Ok(input)
        } else if input == ValueType::Object(ENGINE_VENDOR_TAG, TEXTURE_TYPE_TAG) {
            self.routine = ImageRoutine::FromTexture;
            self.phase = Phase::Composed;
            Ok(input)
        } else {
            Err(UnitError::BuildTimeType)
        }
    }

    fn warmup(&mut self, scope: &Scope) -> (r: Result<(), UnitError>) {
        match self.phase {
            Phase::Composed | Phase::Cold => {},
            _ => {
                return Err(UnitError::Lifecycle);
            },
        }
        match self.parents.acquire(scope) {
            Ok(()) => {},
            Err(e) => {
                proof {
                    assert(false);
                }
                return Err(e);
            },
        }
        match self.scale.acquire(scope) {
            Ok(()) => {},
            Err(e) => {
                proof {
                    assert(false);
                }
                return Err(e);
            },
        }
        self.phase = Phase::Warm;
        Ok(())
    }

    fn execute(
        &mut self,
        registry: &mut ObjectRegistry,
        scope: &mut Scope,
        input: &TaggedValue,
    ) -> (r: Result<UnitStep, UnitError>) {
        match self.phase {
            Phase::Warm => {},
            _ => {
                return Err(UnitError::Lifecycle);
            },
        }
        match self.routine {
            ImageRoutine::Unselected => Err(UnitError::Lifecycle),
            ImageRoutine::FromImage => self.activateImage(registry, scope, input),
            ImageRoutine::FromTexture => self.activateTexture(registry, scope, input),
        }
    }

    fn resume(
        &mut self,
        registry: &mut ObjectRegistry,
        scope: &mut Scope,
        event: BlockingEvent,
    ) -> (r: Result<TaggedValue, UnitError>) {
        Err(UnitError::Lifecycle)
    }

    fn cleanup(&mut self, registry: &mut ObjectRegistry) -> (r: Result<(), UnitError>) {
        match self.phase {
            Phase::Warm => {},
            _ => {
                return Err(UnitError::Lifecycle);
            },
        }
        match self.scale.release() {
            Ok(()) => {},
            Err(e) => {
                proof {
                    assert(false);
                }
                return Err(e);
            },
        }
        match self.parents.release() {
            Ok(()) => {},
            Err(e) => {
                proof {
                    assert(false);
                }
                return Err(e);
            },
        }
        self.phase = Phase::Cold;
        Ok(())
    }
}

/// Absent context: when the interface-context variable is missing or
/// empty at activation, the unit reports the dependency as unavailable
/// and mutates nothing — not its own state, not the registry, not the
/// scope. Two sequential units sharing the binding therefore both
/// report it, and their shared state is untouched.
pub proof fn lemma_absent_context_preserves_state(
    pre: Image,
    reg_pre: ObjectRegistry,
    scope_pre: Scope,
    input: ValueModel,
    post: Image,
    reg_post: ObjectRegistry,
    scope_post: Scope,
    r: Result<UnitStep, UnitError>,
)
    requires
        pre.phase is Warm,
        pre.routine == ImageRoutine::FromImage || pre.routine == ImageRoutine::FromTexture,
        read_model(pre.parents.mode_m(), scope_pre@) is Err || read_model(
            pre.parents.mode_m(),
            scope_pre@,
        ) == Ok::<ValueModel, UnitError>(ValueModel::Nothing),
        pre.execute_ens(reg_pre, scope_pre, input, post, reg_post, scope_post, r),
    ensures
        r == Err::<UnitStep, UnitError>(UnitError::DependencyUnavailable),
        post == pre,
        surroundings_unchanged(reg_pre, reg_post, scope_pre, scope_post),
{
}

/// Specialization stability: whatever one activation does, the routine
/// chosen at compose time and the lifecycle phase are exactly what
/// they were — repeated activations can never switch to the alternate
/// routine, and a value of the wrong nominal shape is rejected rather
/// than re-dispatched.
pub proof fn lemma_specialization_stable(
    pre: Image,
    reg_pre: ObjectRegistry,
    scope_pre: Scope,
    input: ValueModel,
    post: Image,
    reg_post: ObjectRegistry,
    scope_post: Scope,
    r: Result<UnitStep, UnitError>,
)
    requires
        pre.phase is Warm,
        pre.routine == ImageRoutine::FromImage,
        pre.execute_ens(reg_pre, scope_pre, input, post, reg_post, scope_post, r),
    ensures
        post.routine == pre.routine,
        post.phase == pre.phase,
        !(input is Image) && !(read_model(pre.parents.mode_m(), scope_pre@) is Err) && read_model(
            pre.parents.mode_m(),
            scope_pre@,
        ) != Ok::<ValueModel, UnitError>(ValueModel::Nothing) ==> r == Err::<
            UnitStep,
            UnitError,
        >(UnitError::ResourceTypeMismatch),
{
}

} // verus!
