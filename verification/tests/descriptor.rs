use pristine::descriptor::describe;
use pristine::descriptor::Flipbook;
use pristine::frame::VideoInfo;
use pristine::settings::Settings;

fn settings(width: u32, height: u32, looping: bool) -> Settings {
    Settings {
        width,
        height,
        scale: 1,
        looping,
        facing_camera_mode: String::from("lookat_xyz"),
        name: String::from("clip"),
        description: String::from("a clip"),
    }
}

#[test]
fn descriptor_of_the_default_grid() {
    let descriptor = describe(&settings(2, 20, false), VideoInfo { width: 480, height: 270 }, 3);
    assert_eq!(descriptor.atlas_index, 3);
    assert_eq!(descriptor.id, "clip:i_3");
    assert_eq!(descriptor.material, "particles_alpha");
    assert_eq!(descriptor.texture, "textures/frames/clip_3.png");
    assert_eq!(descriptor.lifetime, 2);
    assert_eq!(descriptor.particles, 1);
    assert_eq!(descriptor.emitter_offset, (0, 0, 0));
    assert_eq!(descriptor.emitter_direction, (1, 0, 0));
    assert_eq!(descriptor.facing_camera_mode, "lookat_xyz");
    assert_eq!(descriptor.size, (16, 9));
    assert_eq!(descriptor.texture_width, 960);
    assert_eq!(descriptor.texture_height, 5400);
    assert_eq!(
        descriptor.flipbook,
        Flipbook {
            base_uv: (0, 0),
            frames_per_second: 20,
            looping: false,
            max_frame: 40,
            size_uv: (480, 270),
            step_uv: (0, 270),
            stretch_to_lifetime: false,
        }
    );
}

#[test]
fn flipbook_does_not_depend_on_the_atlas() {
    let settings = settings(3, 7, true);
    let frame = VideoInfo { width: 16, height: 9 };
    let first = describe(&settings, frame, 0);
    assert_eq!(first.flipbook.max_frame, 21);
    assert_eq!(first.flipbook.frames_per_second, 7);
    assert!(first.flipbook.looping);
    for index in [1u32, 2, 59, 60, 1000, u32::MAX] {
        let descriptor = describe(&settings, frame, index);
        assert_eq!(descriptor.flipbook, first.flipbook);
        assert_eq!(descriptor.flipbook.max_frame, 21);
        assert_eq!(descriptor.flipbook.frames_per_second, 7);
        assert_eq!(descriptor.atlas_index, index);
    }
}

#[test]
fn descriptor_of_the_largest_grid_does_not_overflow() {
    let descriptor =
        describe(&settings(u32::MAX, u32::MAX, false), VideoInfo { width: u32::MAX, height: 2 }, 0);
    assert_eq!(descriptor.flipbook.max_frame, 18446744065119617025);
    assert_eq!(descriptor.texture_width, 18446744065119617025);
    assert_eq!(descriptor.texture_height, 8589934590);
    assert_eq!(descriptor.flipbook.frames_per_second, u32::MAX);
}

#[test]
fn descriptor_takes_the_facing_mode_from_the_settings() {
    let mut settings = settings(1, 1, false);
    settings.facing_camera_mode = String::from("direction_z");
    let descriptor = describe(&settings, VideoInfo { width: 1, height: 1 }, 0);
    assert_eq!(descriptor.facing_camera_mode, "direction_z");
    assert_eq!(descriptor.flipbook.max_frame, 1);
    assert_eq!(descriptor.flipbook.size_uv, (1, 1));
}
