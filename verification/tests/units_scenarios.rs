use shard_core::bridge::BlockingAction;
use shard_core::bridge::BlockingEvent;
use shard_core::bridge::PipelineStatus;
use shard_core::bridge::Scheduler;
use shard_core::errors::UnitError;
use shard_core::handles::ObjectRegistry;
use shard_core::image_unit::Image;
use shard_core::image_unit::ImageRoutine;
use shard_core::image_util::decode_pixels;
use shard_core::params::ParamMode;
use shard_core::scope::Scope;
use shard_core::unit::Phase;
use shard_core::unit::ProcessingUnit;
use shard_core::unit::Registry;
use shard_core::unit::UnitStep;
use shard_core::values::ImageValue;
use shard_core::values::TaggedValue;
use shard_core::values::ValueType;
use shard_core::values::CLIENT_TYPE_TAG;
use shard_core::values::ENGINE_VENDOR_TAG;
use shard_core::values::IMAGE_FLAG_PREMULTIPLIED_ALPHA;
use shard_core::values::TEXTURE_TYPE_TAG;
use shard_core::ws_units::registerShards;
use shard_core::ws_units::Client;
use shard_core::ws_units::ClientUser;
use shard_core::ws_units::ReadString;

fn test_image(width: u32, height: u32, source_id: u64) -> ImageValue {
    let len = (width as usize) * (height as usize) * 4;
    ImageValue { width, height, channels: 4, flags: 0, source_id, data: vec![0u8; len] }
}

fn scope_with_parent() -> (Scope, ObjectRegistry) {
    let mut scope = Scope::new();
    let mut reg = ObjectRegistry::new();
    let parent = reg.wrap(1, ENGINE_VENDOR_TAG, 0x70617231);
    scope.write_var(&String::from("UI.Parents"), parent);
    (scope, reg)
}

#[test]
fn image_unit_reports_the_scaled_render_size() {
    // a constant scale of one and a half on a 100 x 50 source
    let (mut scope, mut reg) = scope_with_parent();
    let mut unit = Image::default();
    unit.set_param(0, ParamMode::Constant(TaggedValue::Number2(1500, 1500))).unwrap();
    assert_eq!(unit.compose(ValueType::Image), Ok(ValueType::Image));
    unit.warmup(&scope).unwrap();
    let input = TaggedValue::Image(test_image(100, 50, 400));
    let step = unit.execute(&mut reg, &mut scope, &input).unwrap();
    assert!(matches!(step, UnitStep::Done(TaggedValue::Image(_))));
    assert_eq!(unit.last_render_size(), Some((150, 75)));
    unit.cleanup(&mut reg).unwrap();
}

#[test]
fn image_unit_passthrough_type_and_cache_reuse() {
    let (mut scope, mut reg) = scope_with_parent();
    let mut unit = Image::default();
    assert_eq!(unit.compose(ValueType::Image), Ok(ValueType::Image));
    unit.warmup(&scope).unwrap();
    let input = TaggedValue::Image(test_image(8, 8, 123));
    unit.execute(&mut reg, &mut scope, &input).unwrap();
    let first = unit.cached_ui_image.texture;
    // the same source buffer reuses the cached texture handle
    unit.execute(&mut reg, &mut scope, &input).unwrap();
    assert_eq!(unit.cached_ui_image.texture, first);
    // a different source buffer converts anew
    let other = TaggedValue::Image(test_image(8, 8, 124));
    unit.execute(&mut reg, &mut scope, &other).unwrap();
    assert_ne!(unit.cached_ui_image.texture, first);
    // invalidation forces the next refresh to convert again
    unit.cached_ui_image.invalidate();
    let second = unit.cached_ui_image.texture;
    unit.execute(&mut reg, &mut scope, &other).unwrap();
    assert_ne!(unit.cached_ui_image.texture, second);
}

#[test]
fn lifecycle_rejects_execute_before_warmup_and_after_cleanup() {
    let (mut scope, mut reg) = scope_with_parent();
    let mut unit = Image::default();
    let input = TaggedValue::Image(test_image(4, 4, 7));
    // before compose and warmup
    assert!(matches!(
        unit.execute(&mut reg, &mut scope, &input),
        Err(UnitError::Lifecycle)
    ));
    unit.compose(ValueType::Image).unwrap();
    // composed but not warm
    assert!(matches!(
        unit.execute(&mut reg, &mut scope, &input),
        Err(UnitError::Lifecycle)
    ));
    unit.warmup(&scope).unwrap();
    unit.execute(&mut reg, &mut scope, &input).unwrap();
    unit.cleanup(&mut reg).unwrap();
    // after cleanup
    assert!(matches!(
        unit.execute(&mut reg, &mut scope, &input),
        Err(UnitError::Lifecycle)
    ));
    // a cold unit is reusable
    unit.warmup(&scope).unwrap();
    unit.execute(&mut reg, &mut scope, &input).unwrap();
    unit.cleanup(&mut reg).unwrap();
}

#[test]
fn specialization_never_switches_routines() {
    let (mut scope, mut reg) = scope_with_parent();
    let mut unit = Image::default();
    unit.compose(ValueType::Image).unwrap();
    unit.warmup(&scope).unwrap();
    assert_eq!(unit.routine, ImageRoutine::FromImage);
    // a value claiming another nominal type is rejected, not re-dispatched
    let texture = reg.wrap(77, ENGINE_VENDOR_TAG, TEXTURE_TYPE_TAG);
    assert!(matches!(
        unit.execute(&mut reg, &mut scope, &texture),
        Err(UnitError::ResourceTypeMismatch)
    ));
    assert_eq!(unit.routine, ImageRoutine::FromImage);
    // and the image input still runs the selected routine
    let input = TaggedValue::Image(test_image(2, 2, 9));
    unit.execute(&mut reg, &mut scope, &input).unwrap();
    assert_eq!(unit.routine, ImageRoutine::FromImage);
}

#[test]
fn compose_rejects_an_incompatible_input_type() {
    let mut unit = Image::default();
    assert_eq!(unit.compose(ValueType::Number), Err(UnitError::BuildTimeType));
    assert_eq!(unit.phase, Phase::Unregistered);
    // a texture input selects the texture routine and passes through
    let t = ValueType::Object(ENGINE_VENDOR_TAG, TEXTURE_TYPE_TAG);
    assert_eq!(unit.compose(t), Ok(t));
    assert_eq!(unit.routine, ImageRoutine::FromTexture);
}

#[test]
fn absent_context_leaves_both_units_and_shared_state_untouched() {
    // two sequential units share the context binding; the dependency is
    // absent, so both report it and neither mutates shared state
    let mut scope = Scope::new();
    let mut reg = ObjectRegistry::new();
    let mut first = Image::default();
    let mut second = Image::default();
    first.compose(ValueType::Image).unwrap();
    second.compose(ValueType::Image).unwrap();
    first.warmup(&scope).unwrap();
    second.warmup(&scope).unwrap();
    let input = TaggedValue::Image(test_image(4, 4, 50));
    assert!(matches!(
        first.execute(&mut reg, &mut scope, &input),
        Err(UnitError::DependencyUnavailable)
    ));
    assert!(matches!(
        second.execute(&mut reg, &mut scope, &input),
        Err(UnitError::DependencyUnavailable)
    ));
    assert_eq!(first.last_render_size(), None);
    assert_eq!(second.last_render_size(), None);
    assert!(first.cached_ui_image.texture.is_none());
    assert!(second.cached_ui_image.texture.is_none());
}

#[test]
fn consumer_with_wrong_tag_gets_mismatch_and_refcount_is_unchanged() {
    // a produced handle of one type tag handed to a consumer expecting
    // another is a resource type mismatch; the count is untouched
    let mut scope = Scope::new();
    let mut reg = ObjectRegistry::new();
    let produced = reg.wrap(31, ENGINE_VENDOR_TAG, TEXTURE_TYPE_TAG);
    scope.write_var(&String::from("conn"), produced.duplicate());
    let mut consumer = ReadString::default();
    consumer.compose(ValueType::Nothing).unwrap();
    consumer
        .set_param(0, ParamMode::VariableReference(String::from("conn")))
        .unwrap();
    consumer.warmup(&scope).unwrap();
    let r = consumer.execute(&mut reg, &mut scope, &TaggedValue::Nothing);
    assert!(matches!(r, Err(UnitError::ResourceTypeMismatch)));
    assert_eq!(reg.refcount_of(&produced), Some(1));
}

#[test]
fn a_suspended_pipeline_never_delays_its_sibling() {
    let mut s = Scheduler::new();
    let a = s.add_pipeline();
    let b = s.add_pipeline();
    // pipeline a suspends on a blocking task
    let task = s.begin_blocking(a).unwrap();
    assert_eq!(s.pipelines[a].status, PipelineStatus::Suspended(task));
    // b keeps advancing while a waits
    for _ in 0..5 {
        assert_eq!(s.tick(b), Ok(true));
        assert_eq!(s.tick(a), Ok(false));
    }
    assert_eq!(s.pipelines[b].ticks, 5);
    assert_eq!(s.pipelines[a].ticks, 0);
    // completion resumes a
    assert_eq!(s.deliver(task), Ok(Some(a)));
    assert_eq!(s.pipelines[a].status, PipelineStatus::Running);
    assert_eq!(s.tick(a), Ok(true));
}

#[test]
fn cancellation_detaches_the_task_and_discards_its_outcome() {
    let mut s = Scheduler::new();
    let a = s.add_pipeline();
    let task = s.begin_blocking(a).unwrap();
    s.cancel_pipeline(a).unwrap();
    assert_eq!(s.pipelines[a].status, PipelineStatus::Aborted);
    // the worker finishes naturally; its outcome is discarded
    assert_eq!(s.deliver(task), Ok(None));
    // a spent task cannot complete twice
    assert!(matches!(s.deliver(task), Err(UnitError::Lifecycle)));
}

#[test]
fn client_connects_through_the_bridge_and_produces_a_typed_handle() {
    let mut scope = Scope::new();
    let mut reg = ObjectRegistry::new();
    let mut client = Client::default();
    assert_eq!(
        client.compose(ValueType::Text),
        Ok(ValueType::Object(ENGINE_VENDOR_TAG, CLIENT_TYPE_TAG))
    );
    client.warmup(&scope).unwrap();
    let addr = TaggedValue::Text(String::from("wss://example.invalid"));
    let step = client.execute(&mut reg, &mut scope, &addr).unwrap();
    match step {
        UnitStep::Suspend(BlockingAction::Connect(a)) => {
            assert_eq!(a, "wss://example.invalid")
        }
        _ => panic!("expected a connect request"),
    }
    // the worker reports the connection; the unit wraps it
    let out = client.resume(&mut reg, &mut scope, BlockingEvent::Connected(555)).unwrap();
    match out {
        TaggedValue::Object(o) => {
            assert_eq!(o.vendor_tag, ENGINE_VENDOR_TAG);
            assert_eq!(o.type_tag, CLIENT_TYPE_TAG);
        }
        _ => panic!("expected an object value"),
    }
    // one reference is kept alive by the unit, one handed out
    assert_eq!(reg.refcount_of(&out), Some(2));
    assert_eq!(reg.borrow_payload(&out, ENGINE_VENDOR_TAG, CLIENT_TYPE_TAG), Ok(555));
    // a failed connect surfaces as a recoverable failure
    let step2 = client.execute(&mut reg, &mut scope, &addr).unwrap();
    assert!(matches!(step2, UnitStep::Suspend(BlockingAction::Connect(_))));
    assert!(matches!(
        client.resume(&mut reg, &mut scope, BlockingEvent::ConnectFailed),
        Err(UnitError::IoFailure)
    ));
    client.cleanup(&mut reg).unwrap();
}

#[test]
fn read_and_send_round_trip_through_the_shared_client() {
    let mut scope = Scope::new();
    let mut reg = ObjectRegistry::new();
    let conn = reg.wrap(900, ENGINE_VENDOR_TAG, CLIENT_TYPE_TAG);
    scope.write_var(&String::from("c"), conn.duplicate());
    let mut reader = ReadString::default();
    reader.compose(ValueType::Nothing).unwrap();
    reader.set_param(0, ParamMode::VariableReference(String::from("c"))).unwrap();
    reader.warmup(&scope).unwrap();
    let step = reader.execute(&mut reg, &mut scope, &TaggedValue::Nothing).unwrap();
    assert!(matches!(step, UnitStep::Suspend(BlockingAction::ReadMessage)));
    // the shared client now has the reader's cached reference counted
    assert_eq!(reg.refcount_of(&conn), Some(2));
    let got = reader
        .resume(&mut reg, &mut scope, BlockingEvent::TextMessage(String::from("hello")))
        .unwrap();
    assert!(matches!(got, TaggedValue::Text(t) if t == "hello"));
    // a non-text frame is an error, and the unit stays usable
    let step = reader.execute(&mut reg, &mut scope, &TaggedValue::Nothing).unwrap();
    assert!(matches!(step, UnitStep::Suspend(BlockingAction::ReadMessage)));
    assert!(matches!(
        reader.resume(&mut reg, &mut scope, BlockingEvent::NonTextMessage),
        Err(UnitError::ResourceTypeMismatch)
    ));
    reader.cleanup(&mut reg).unwrap();
    assert_eq!(reg.refcount_of(&conn), Some(1));

    let mut sender = shard_core::ws_units::SendString::default();
    sender.compose(ValueType::Text).unwrap();
    sender.set_param(0, ParamMode::VariableReference(String::from("c"))).unwrap();
    sender.warmup(&scope).unwrap();
    let msg = TaggedValue::Text(String::from("Ok"));
    let step = sender.execute(&mut reg, &mut scope, &msg).unwrap();
    assert!(matches!(step, UnitStep::Suspend(BlockingAction::SendText(t)) if t == "Ok"));
    // the input is echoed back on success
    let out = sender.resume(&mut reg, &mut scope, BlockingEvent::Sent).unwrap();
    assert!(matches!(out, TaggedValue::Text(t) if t == "Ok"));
    sender.cleanup(&mut reg).unwrap();
}

#[test]
fn register_shards_lists_the_network_units() {
    let mut registry = Registry::new();
    registerShards(&mut registry);
    assert_eq!(registry.entries.len(), 3);
    assert_eq!(registry.entries[0].name, "WS.Client");
    assert_eq!(registry.entries[1].name, "WS.ReadString");
    assert_eq!(registry.entries[2].name, "WS.SendString");
    assert_eq!(registry.entries[0].hash, 0xEF45CDE0);
    let client = Client::default();
    assert_eq!(registry.entries[0].hash, client.hash());
    assert_eq!(registry.entries[0].input_types, vec![ValueType::Text]);
    assert_eq!(
        registry.entries[0].output_types,
        vec![ValueType::Object(ENGINE_VENDOR_TAG, CLIENT_TYPE_TAG)]
    );
}

#[test]
fn pixels_decode_with_and_without_premultiplied_alpha() {
    // one pixel, not premultiplied: channels are multiplied by alpha
    let img = ImageValue {
        width: 1,
        height: 1,
        channels: 4,
        flags: 0,
        source_id: 1,
        data: vec![200, 100, 50, 128],
    };
    let px = decode_pixels(&img).unwrap();
    // 200*128/255 = 100, 100*128/255 = 50, 50*128/255 = 25
    assert_eq!(px, vec![100 | 50 << 8 | 25 << 16 | 128 << 24]);
    // the same bytes marked premultiplied are taken verbatim
    let img2 = ImageValue {
        width: 1,
        height: 1,
        channels: 4,
        flags: IMAGE_FLAG_PREMULTIPLIED_ALPHA,
        source_id: 2,
        data: vec![200, 100, 50, 128],
    };
    let px2 = decode_pixels(&img2).unwrap();
    assert_eq!(px2, vec![200 | 100 << 8 | 50 << 16 | 128 << 24]);
    // a non-four-channel image is rejected
    let img3 = ImageValue {
        width: 1,
        height: 1,
        channels: 3,
        flags: 0,
        source_id: 3,
        data: vec![1, 2, 3],
    };
    assert!(matches!(decode_pixels(&img3), Err(UnitError::Parameter)));
}

#[test]
fn parameter_index_out_of_range_is_an_error() {
    let mut unit = Image::default();
    assert_eq!(
        unit.set_param(1, ParamMode::Constant(TaggedValue::Number(1))),
        Err(UnitError::Parameter)
    );
    assert!(matches!(unit.get_param(1), Err(UnitError::Parameter)));
    assert!(matches!(unit.get_param(0), Ok(ParamMode::Constant(TaggedValue::Number2(1000, 1000)))));
    let table = unit.parameters();
    assert_eq!(table.len(), 1);
    assert_eq!(table[0].name, "Scale");
}

#[test]
fn malformed_scale_parameter_fails_the_activation() {
    let (mut scope, mut reg) = scope_with_parent();
    let mut unit = Image::default();
    // a plain number is not a two-component scale
    unit.set_param(0, ParamMode::Constant(TaggedValue::Number(1500))).unwrap();
    unit.compose(ValueType::Image).unwrap();
    unit.warmup(&scope).unwrap();
    let input = TaggedValue::Image(test_image(10, 10, 77));
    assert!(matches!(
        unit.execute(&mut reg, &mut scope, &input),
        Err(UnitError::Parameter)
    ));
    // a negative component cannot be an unsigned render size
    let mut unit2 = Image::default();
    unit2.set_param(0, ParamMode::Constant(TaggedValue::Number2(-1, 1000))).unwrap();
    unit2.compose(ValueType::Image).unwrap();
    unit2.warmup(&scope).unwrap();
    assert!(matches!(
        unit2.execute(&mut reg, &mut scope, &input),
        Err(UnitError::Parameter)
    ));
    // one past the 64-bit machine limit is rejected too
    let mut unit3 = Image::default();
    unit3
        .set_param(0, ParamMode::Constant(TaggedValue::Number2(4294967298, 1000)))
        .unwrap();
    unit3.compose(ValueType::Image).unwrap();
    unit3.warmup(&scope).unwrap();
    assert!(matches!(
        unit3.execute(&mut reg, &mut scope, &input),
        Err(UnitError::Parameter)
    ));
}

#[test]
fn very_large_scales_echo_up_to_the_machine_limit() {
    // a 2000x scale, far beyond any policy cap: the pair the variable
    // holds is what the unit computes with
    let (mut scope, mut reg) = scope_with_parent();
    let mut unit = Image::default();
    unit
        .set_param(0, ParamMode::Constant(TaggedValue::Number2(2000000, 1000)))
        .unwrap();
    unit.compose(ValueType::Image).unwrap();
    unit.warmup(&scope).unwrap();
    let input = TaggedValue::Image(test_image(100, 50, 60));
    unit.execute(&mut reg, &mut scope, &input).unwrap();
    assert_eq!(unit.last_render_size(), Some((200000, 50)));
    // the machine limit itself is accepted on the widest dimension
    let mut unit2 = Image::default();
    unit2
        .set_param(0, ParamMode::Constant(TaggedValue::Number2(4294967297, 1000)))
        .unwrap();
    unit2.compose(ValueType::Image).unwrap();
    unit2.warmup(&scope).unwrap();
    unit2.execute(&mut reg, &mut scope, &input).unwrap();
    assert_eq!(unit2.last_render_size(), Some((100 * 4294967297 / 1000, 50)));
}

#[test]
fn fresh_image_unit_starts_with_an_empty_cache() {
    let unit = Image::default();
    assert!(unit.cached_ui_image.texture.is_none());
    assert!(unit.cached_ui_image.prev_source.is_none());
    assert_eq!(unit.last_render_size(), None);
}

#[test]
fn client_resolution_outside_the_window_is_a_lifecycle_error() {
    let mut reg = ObjectRegistry::new();
    let scope = Scope::new();
    // never warmed up: the binding is outside its access window
    let mut user = ClientUser::new(String::from("c"));
    assert!(matches!(
        user.activate(&mut reg, &scope),
        Err(UnitError::Lifecycle)
    ));
    assert!(matches!(
        user.cleanup(&mut reg),
        Err(UnitError::Lifecycle)
    ));
}

#[test]
fn register_shards_preserves_existing_records() {
    let mut registry = Registry::new();
    registerShards(&mut registry);
    registerShards(&mut registry);
    assert_eq!(registry.entries.len(), 6);
    assert_eq!(registry.entries[0].name, "WS.Client");
    assert_eq!(registry.entries[1].name, "WS.ReadString");
    assert_eq!(registry.entries[2].name, "WS.SendString");
    assert_eq!(registry.entries[3].name, "WS.Client");
    assert_eq!(registry.entries[1].input_types, vec![ValueType::Nothing]);
    assert_eq!(registry.entries[1].output_types, vec![ValueType::Text]);
    assert_eq!(registry.entries[2].input_types, vec![ValueType::Text]);
    assert_eq!(registry.entries[2].output_types, vec![ValueType::Text]);
    // the descriptor table rows carry their declared contents
    let reader = ReadString::default();
    let rows = reader.parameters();
    assert_eq!(rows.len(), 1);
    assert_eq!(rows[0].name, "Client");
    assert_eq!(rows[0].help, "The WebSocket client instance.");
    assert_eq!(
        rows[0].accepted,
        vec![ValueType::Object(ENGINE_VENDOR_TAG, CLIENT_TYPE_TAG)]
    );
}

#[test]
fn scale_parameter_can_follow_a_live_variable() {
    let (mut scope, mut reg) = scope_with_parent();
    let mut unit = Image::default();
    unit.set_param(0, ParamMode::VariableReference(String::from("zoom"))).unwrap();
    unit.compose(ValueType::Image).unwrap();
    unit.warmup(&scope).unwrap();
    // the unit now depends on both the context and its scale variable
    let names = unit.required_variables();
    assert_eq!(names, vec![String::from("UI.Parents"), String::from("zoom")]);
    let input = TaggedValue::Image(test_image(100, 50, 5));
    // the variable is absent at first
    assert!(matches!(
        unit.execute(&mut reg, &mut scope, &input),
        Err(UnitError::DependencyUnavailable)
    ));
    scope.write_var(&String::from("zoom"), TaggedValue::Number2(2000, 500));
    unit.execute(&mut reg, &mut scope, &input).unwrap();
    assert_eq!(unit.last_render_size(), Some((200, 25)));
    // a rewrite of the variable is seen by the next activation
    scope.write_var(&String::from("zoom"), TaggedValue::Number2(1000, 1000));
    unit.execute(&mut reg, &mut scope, &input).unwrap();
    assert_eq!(unit.last_render_size(), Some((100, 50)));
}
