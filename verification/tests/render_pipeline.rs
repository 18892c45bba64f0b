use pie::audio::AudioSource;
use pie::engine::Engine;
use pie::frame::{attenuation_milli, cube_face_basis, AttenuationMilli};
use pie::render::{blur_output_index, blur_schedule, BlurSource, Renderer, TexFormat};
use pie::scene::{Entity, Light, LightType};

#[test]
fn shadow_capacity_always_matches_last_configuration() {
    let mut renderer = Renderer::new(640, 480);
    assert_eq!(renderer.shadow_capacity(), 0);
    renderer.configure_point_lights(4);
    assert_eq!(renderer.shadow_capacity(), 4);
    renderer.configure_point_lights(0);
    assert_eq!(renderer.shadow_capacity(), 0);
    renderer.configure_point_lights(3);
    renderer.configure_point_lights(7);
    assert_eq!(renderer.shadow_capacity(), 7);
    for cube in &renderer.shadows.point_cubes {
        assert_eq!(cube.face_size, 1024);
        assert_eq!(cube.faces, 6);
    }
    assert_eq!(renderer.shadows.directional.width, 2048);
    assert_eq!(renderer.shadows.directional.height, 2048);
}

#[test]
fn resize_leaves_no_stale_target_dimensions() {
    let mut renderer = Renderer::new(800, 600);
    renderer.resize(123, 456);
    let t = &renderer.targets;
    for desc in [
        t.g_position, t.g_normal, t.g_albedo_spec, t.g_depth, t.hdr_color, t.hdr_depth,
        t.bloom_color, t.pingpong0, t.pingpong1,
    ] {
        assert_eq!((desc.width, desc.height), (123, 456));
    }
    assert_eq!(t.g_albedo_spec.format, TexFormat::Rgba8);
    assert_eq!(t.g_position.format, TexFormat::Rgba16F);
    assert_eq!(t.g_depth.format, TexFormat::Depth);
}

#[test]
fn engine_resize_clamps_degenerate_sizes() {
    let mut engine = Engine::new(800, 600);
    engine.resize(-5, 0);
    assert_eq!(engine.renderer.targets.width, 1);
    assert_eq!(engine.renderer.targets.height, 1);
    engine.resize(300, 200);
    assert_eq!(engine.renderer.targets.width, 300);
    assert_eq!(engine.renderer.targets.height, 200);
}

#[test]
fn blur_schedule_alternates_and_tracks_output() {
    let sched = blur_schedule(10);
    assert_eq!(sched.len(), 10);
    assert!(sched[0].horizontal);
    assert_eq!(sched[0].write_index, 1);
    assert_eq!(sched[0].source, BlurSource::BrightPass);
    for (j, step) in sched.iter().enumerate() {
        assert_eq!(step.horizontal, j % 2 == 0);
        assert_eq!(step.write_index, if step.horizontal { 1 } else { 0 });
        if j > 0 {
            assert_eq!(step.source, BlurSource::Pingpong(1 - step.write_index));
        }
    }
    // Ten passes end on target zero, an odd count on target one.
    assert_eq!(blur_output_index(10), 0);
    assert_eq!(blur_output_index(5), 1);
    assert_eq!(blur_output_index(0), 0);
}

#[test]
fn attenuation_formulas_give_exact_values() {
    // A radius of one gives linear nine halves and quadratic seventy-five.
    assert_eq!(
        attenuation_milli(1000),
        Some(AttenuationMilli { linear_milli: 4500, quadratic_milli: 75000 })
    );
    // A radius of five: linear nine tenths, quadratic three.
    assert_eq!(
        attenuation_milli(5000),
        Some(AttenuationMilli { linear_milli: 900, quadratic_milli: 3000 })
    );
    assert_eq!(attenuation_milli(0), None);
}

#[test]
fn cube_face_table_matches_fixed_layout() {
    let f0 = cube_face_basis(0);
    assert_eq!((f0.tx, f0.ty, f0.tz, f0.ux, f0.uy, f0.uz), (1, 0, 0, 0, -1, 0));
    let f3 = cube_face_basis(3);
    assert_eq!((f3.tx, f3.ty, f3.tz, f3.ux, f3.uy, f3.uz), (0, -1, 0, 0, 0, -1));
    let f5 = cube_face_basis(5);
    assert_eq!((f5.tx, f5.ty, f5.tz, f5.ux, f5.uy, f5.uz), (0, 0, -1, 0, -1, 0));
}

#[test]
fn frame_plan_for_three_lights_and_five_entities() {
    let mut engine = Engine::new(1024, 768);
    engine.configure_point_lights(2);
    engine.add_light(Light::point(1000, 0, 0, 5000));
    engine.add_light(Light::directional(1000, 1000, 900));
    engine.add_light(Light::point(0, 0, 1000, 2500));
    for m in 0..5u32 {
        let mut e = Entity::new();
        e.set_mesh(m);
        engine.add_entity(e);
    }
    let plan = engine.update().expect("a frame plan before quit");

    // The composite pass always reads the scene at unit zero and the
    // bloom at unit one.
    assert_eq!(plan.composite.scene_unit, 0);
    assert_eq!(plan.composite.bloom_unit, 1);

    // The directional shadow belongs to the first (only) directional
    // light; both point lights fit the capacity and take slots in order.
    assert_eq!(plan.directional_shadow.unwrap().light, 1);
    assert_eq!(plan.point_shadows.len(), 2);
    assert_eq!((plan.point_shadows[0].light, plan.point_shadows[0].slot), (0, 0));
    assert_eq!((plan.point_shadows[1].light, plan.point_shadows[1].slot), (2, 1));

    // Every entity carries a mesh, so all five are drawn in order.
    assert_eq!(plan.geometry.draws, vec![0, 1, 2, 3, 4]);

    // One uniform record per light; the directional light has a shadow
    // but no slot; both spheres belong to the point lights.
    assert_eq!(plan.lighting.lights.len(), 3);
    assert!(plan.lighting.lights[1].has_shadow);
    assert_eq!(plan.lighting.lights[1].shadow_slot, None);
    assert_eq!(plan.lighting.lights[0].shadow_slot, Some(0));
    assert_eq!(plan.lighting.lights[2].shadow_slot, Some(1));
    assert_eq!(plan.lighting.first_directional, Some(1));
    assert_eq!(plan.lighting.gbuffer_units, (0, 1, 2));
    assert_eq!(plan.lighting.directional_shadow_unit, 3);
    assert_eq!(plan.lighting.point_shadow_unit_base, 4);
    assert_eq!(plan.light_spheres.len(), 2);
    assert_eq!(plan.light_spheres[0].scale_milli, 1000);
    assert_eq!(plan.light_spheres[0].intensity_milli, 20000);

    // Bloom is on by default: ten alternating passes ending in target
    // zero, extracted above the default threshold.
    let bloom = plan.bloom.as_ref().expect("bloom on by default");
    assert_eq!(bloom.threshold_milli, 300);
    assert_eq!(bloom.blur.len(), 10);
    assert_eq!(bloom.output_index, 0);
    assert_eq!(plan.composite.bloom_source_index, 0);
}

#[test]
fn composite_bindings_survive_bloom_off() {
    let mut engine = Engine::new(640, 480);
    engine.renderer.bloom_enabled = false;
    let plan = engine.update().expect("a frame plan");
    assert!(plan.bloom.is_none());
    assert_eq!(plan.composite.scene_unit, 0);
    assert_eq!(plan.composite.bloom_unit, 1);
    assert_eq!(plan.composite.bloom_source_index, 0);
}

#[test]
fn shadow_slots_clamp_beyond_capacity() {
    let mut engine = Engine::new(640, 480);
    engine.configure_point_lights(1);
    engine.add_light(Light::point(1000, 0, 0, 1000));
    engine.add_light(Light::point(0, 1000, 0, 1000));
    let plan = engine.update().unwrap();
    assert_eq!(plan.point_shadows.len(), 1);
    assert_eq!(plan.point_shadows[0].light, 0);
    assert_eq!(plan.lighting.lights[0].shadow_slot, Some(0));
    assert!(plan.lighting.lights[0].has_shadow);
    // The overflowing point light gets neither a slot nor a shadow.
    assert_eq!(plan.lighting.lights[1].shadow_slot, None);
    assert!(!plan.lighting.lights[1].has_shadow);
    // But it still gets its visualization sphere.
    assert_eq!(plan.light_spheres.len(), 2);
}

#[test]
fn quit_stops_sources_and_ends_updates() {
    let mut engine = Engine::new(320, 200);
    let mut src = AudioSource::new_sine(440 * pie::fx::UNIT, true);
    src.play();
    engine.add_audio_source(src);
    assert!(engine.update().is_some());
    engine.quit();
    assert!(!engine.mixer.sources[0].playing);
    assert!(engine.update().is_none());
}

#[test]
fn camera_pitch_clamps_at_the_poles() {
    let mut engine = Engine::new(320, 200);
    engine.rotate_camera(10000, 200000);
    assert_eq!(engine.camera.pitch_milli, 89000);
    assert_eq!(engine.camera.yaw_milli, -80000);
    engine.rotate_camera(0, -500000);
    assert_eq!(engine.camera.pitch_milli, -89000);
    engine.move_camera(100, -200, 300);
    assert_eq!(engine.camera.position, pie::audio::Vec3Fx { x: 100, y: -200, z: 300 });
}

#[test]
fn empty_scene_still_plans_a_frame() {
    let mut engine = Engine::new(64, 64);
    let plan = engine.update().unwrap();
    assert!(plan.directional_shadow.is_none());
    assert!(plan.point_shadows.is_empty());
    assert!(plan.geometry.draws.is_empty());
    assert!(plan.lighting.lights.is_empty());
    assert_eq!(plan.composite.scene_unit, 0);
    assert_eq!(plan.composite.bloom_unit, 1);
}
