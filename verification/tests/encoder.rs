use pristine::encoder::Encoder;
use pristine::encoder::PropertyValue;
use pristine::encoder::PROGRESS_INTERVAL;
use pristine::encoder::PROPERTY_HEIGHT;
use pristine::encoder::PROPERTY_LOOP;
use pristine::encoder::PROPERTY_SCALE;
use pristine::encoder::PROPERTY_WIDTH;
use pristine::error::ConfigError;
use pristine::error::EncodeError;
use pristine::frame::Frame;
use pristine::frame::VideoInfo;
use pristine::settings::Settings;

fn solid(sequence: u32, width: u32, height: u32, color: [u8; 4]) -> Frame {
    let mut pixels = Vec::new();
    for _ in 0..(width * height) {
        pixels.extend_from_slice(&color);
    }
    Frame { sequence, width, height, pixels }
}

fn encoder(columns: u32, rows: u32, format: VideoInfo) -> Encoder {
    let mut encoder = Encoder::new();
    encoder.set_property(PROPERTY_WIDTH, PropertyValue::UInt(columns));
    encoder.set_property(PROPERTY_HEIGHT, PropertyValue::UInt(rows));
    assert_eq!(encoder.set_format(format), Ok(()));
    encoder
}

#[test]
fn default_settings() {
    let settings = Settings::default();
    assert_eq!(settings.width, 2);
    assert_eq!(settings.height, 20);
    assert_eq!(settings.scale, 1);
    assert!(!settings.looping);
    assert_eq!(settings.name, "pristine");
    assert_eq!(settings.facing_camera_mode, "lookat_xyz");
    assert_eq!(settings.description, "Pristine Video Pack.Powered by CAIMEO. LICENSE MIT.");
}

#[test]
fn settings_are_cloned_field_by_field() {
    let mut settings = Settings::default();
    settings.width = 7;
    settings.name = String::from("other");
    let copy = settings.clone();
    assert_eq!(copy.width, 7);
    assert_eq!(copy.height, 20);
    assert_eq!(copy.scale, 1);
    assert!(!copy.looping);
    assert_eq!(copy.name, "other");
    assert_eq!(copy.facing_camera_mode, settings.facing_camera_mode);
    assert_eq!(copy.description, settings.description);
}

#[test]
fn new_encoder_has_the_default_properties() {
    let encoder = Encoder::new();
    assert_eq!(encoder.get_property(PROPERTY_WIDTH), PropertyValue::UInt(2));
    assert_eq!(encoder.get_property(PROPERTY_HEIGHT), PropertyValue::UInt(20));
    assert_eq!(encoder.get_property(PROPERTY_SCALE), PropertyValue::UInt(1));
    assert_eq!(encoder.get_property(PROPERTY_LOOP), PropertyValue::Bool(false));
    assert!(encoder.negotiated().is_none());
}

#[test]
fn properties_are_numbered_in_their_order() {
    assert_eq!(PROPERTY_WIDTH, 0);
    assert_eq!(PROPERTY_HEIGHT, 1);
    assert_eq!(PROPERTY_SCALE, 2);
    assert_eq!(PROPERTY_LOOP, 3);
}

#[test]
fn a_property_that_is_set_is_read_back() {
    let mut encoder = Encoder::new();
    encoder.set_property(PROPERTY_WIDTH, PropertyValue::UInt(5));
    assert_eq!(encoder.get_property(PROPERTY_WIDTH), PropertyValue::UInt(5));
    assert_eq!(encoder.get_property(PROPERTY_HEIGHT), PropertyValue::UInt(20));
    encoder.set_property(PROPERTY_HEIGHT, PropertyValue::UInt(6));
    assert_eq!(encoder.get_property(PROPERTY_WIDTH), PropertyValue::UInt(5));
    assert_eq!(encoder.get_property(PROPERTY_HEIGHT), PropertyValue::UInt(6));
    encoder.set_property(PROPERTY_SCALE, PropertyValue::UInt(7));
    assert_eq!(encoder.get_property(PROPERTY_SCALE), PropertyValue::UInt(7));
    assert_eq!(encoder.get_property(PROPERTY_HEIGHT), PropertyValue::UInt(6));
    encoder.set_property(PROPERTY_LOOP, PropertyValue::Bool(true));
    assert_eq!(encoder.get_property(PROPERTY_LOOP), PropertyValue::Bool(true));
    assert_eq!(encoder.get_property(PROPERTY_WIDTH), PropertyValue::UInt(5));
    assert_eq!(encoder.get_property(PROPERTY_SCALE), PropertyValue::UInt(7));
}

#[test]
fn a_frame_before_the_format_is_not_ready() {
    let mut encoder = Encoder::new();
    let result = encoder.handle_frame(&solid(0, 1, 1, [1, 2, 3, 4]));
    assert_eq!(result.err(), Some(EncodeError::NotNegotiated));
    assert!(encoder.negotiated().is_none());
    assert_eq!(encoder.set_format(VideoInfo { width: 1, height: 1 }), Ok(()));
    assert!(encoder.handle_frame(&solid(0, 1, 1, [1, 2, 3, 4])).is_ok());
}

#[test]
fn finish_before_the_format_is_not_ready() {
    let encoder = Encoder::new();
    assert_eq!(encoder.finish().err(), Some(EncodeError::NotNegotiated));
}

#[test]
fn stop_ends_the_run() {
    let mut encoder = encoder(2, 2, VideoInfo { width: 1, height: 1 });
    assert!(encoder.negotiated().is_some());
    encoder.stop();
    assert!(encoder.negotiated().is_none());
    assert_eq!(encoder.get_property(PROPERTY_WIDTH), PropertyValue::UInt(2));
    let result = encoder.handle_frame(&solid(0, 1, 1, [1, 2, 3, 4]));
    assert_eq!(result.err(), Some(EncodeError::NotNegotiated));
    assert_eq!(encoder.finish().err(), Some(EncodeError::NotNegotiated));
}

#[test]
fn set_format_reports_the_fault_of_the_settings() {
    let mut encoder = Encoder::new();
    encoder.set_property(PROPERTY_WIDTH, PropertyValue::UInt(0));
    assert_eq!(
        encoder.set_format(VideoInfo { width: 4, height: 4 }),
        Err(EncodeError::Configuration(ConfigError::EmptyGrid))
    );
    assert!(encoder.negotiated().is_none());
    encoder.set_property(PROPERTY_WIDTH, PropertyValue::UInt(2));
    encoder.set_property(PROPERTY_SCALE, PropertyValue::UInt(0));
    assert_eq!(
        encoder.set_format(VideoInfo { width: 4, height: 4 }),
        Err(EncodeError::Configuration(ConfigError::ZeroScale))
    );
    encoder.set_property(PROPERTY_SCALE, PropertyValue::UInt(1));
    assert_eq!(
        encoder.set_format(VideoInfo { width: 0, height: 4 }),
        Err(EncodeError::Configuration(ConfigError::EmptyFrame))
    );
    assert_eq!(
        encoder.set_format(VideoInfo { width: u32::MAX, height: 4 }),
        Err(EncodeError::Configuration(ConfigError::CanvasTooLarge))
    );
    assert_eq!(encoder.set_format(VideoInfo { width: 4, height: 4 }), Ok(()));
    assert_eq!(
        encoder.set_format(VideoInfo { width: 0, height: 4 }),
        Err(EncodeError::Configuration(ConfigError::EmptyFrame))
    );
    let state = encoder.negotiated().unwrap();
    assert_eq!(state.video_info(), VideoInfo { width: 4, height: 4 });
}

#[test]
fn set_format_uses_the_settings_as_they_stand() {
    let mut encoder = Encoder::new();
    encoder.set_property(PROPERTY_WIDTH, PropertyValue::UInt(3));
    encoder.set_property(PROPERTY_HEIGHT, PropertyValue::UInt(4));
    encoder.set_property(PROPERTY_LOOP, PropertyValue::Bool(true));
    encoder.set_pack(String::from("clip"), String::from("direction_z"), String::from("text"));
    assert_eq!(encoder.set_format(VideoInfo { width: 8, height: 6 }), Ok(()));
    encoder.set_property(PROPERTY_WIDTH, PropertyValue::UInt(9));
    let state = encoder.negotiated().unwrap();
    assert_eq!(state.settings().width, 3);
    assert_eq!(state.settings().height, 4);
    assert!(state.settings().looping);
    assert_eq!(state.settings().name, "clip");
    assert_eq!(state.settings().facing_camera_mode, "direction_z");
    assert_eq!(state.settings().description, "text");
    assert_eq!(state.video_info(), VideoInfo { width: 8, height: 6 });
    assert_eq!(state.ptr(), (0, 0));
    assert_eq!(state.index(), 0);
    let atlas = state.closing_atlas();
    assert_eq!((atlas.width, atlas.height), (24, 24));
    assert_eq!(atlas.pixels, vec![0u8; 4 * 24 * 24]);
}

#[test]
fn a_frame_of_another_size_is_a_configuration_fault() {
    let mut encoder = encoder(2, 2, VideoInfo { width: 2, height: 3 });
    let mismatch = Some(EncodeError::Configuration(ConfigError::DimensionMismatch));
    assert_eq!(encoder.handle_frame(&solid(0, 3, 2, [1, 1, 1, 1])).err(), mismatch);
    assert_eq!(encoder.handle_frame(&solid(0, 2, 2, [1, 1, 1, 1])).err(), mismatch);
    assert_eq!(encoder.handle_frame(&solid(0, 1, 3, [1, 1, 1, 1])).err(), mismatch);
    let mut short = solid(0, 2, 3, [1, 1, 1, 1]);
    short.pixels.pop();
    assert_eq!(encoder.handle_frame(&short).err(), mismatch);
    let mut long = solid(0, 2, 3, [1, 1, 1, 1]);
    long.pixels.push(0);
    assert_eq!(encoder.handle_frame(&long).err(), mismatch);
    let state = encoder.negotiated().unwrap();
    assert_eq!(state.ptr(), (0, 0));
    assert_eq!(state.closing_atlas().pixels, vec![0u8; 4 * 4 * 6]);
    assert!(encoder.handle_frame(&solid(0, 2, 3, [1, 1, 1, 1])).is_ok());
    assert_eq!(encoder.negotiated().unwrap().ptr(), (0, 1));
}

#[test]
fn progress_is_due_every_forty_frames() {
    assert_eq!(PROGRESS_INTERVAL, 40);
    let mut encoder = encoder(2, 2, VideoInfo { width: 1, height: 1 });
    for sequence in [0u32, 1, 39, 40, 41, 79, 80, 4000, 4001] {
        let outcome = encoder.handle_frame(&solid(sequence, 1, 1, [5, 5, 5, 5])).unwrap();
        assert_eq!(outcome.progress, sequence % 40 == 0);
    }
}

#[test]
fn five_solid_frames_on_a_grid_of_four_cells() {
    let color = [200u8, 100, 50, 255];
    let mut encoder = Encoder::new();
    encoder.set_property(PROPERTY_WIDTH, PropertyValue::UInt(2));
    encoder.set_property(PROPERTY_HEIGHT, PropertyValue::UInt(2));
    encoder.set_pack(
        String::from("pristine"),
        String::from("lookat_xyz"),
        String::from("five frames"),
    );
    assert_eq!(encoder.set_format(VideoInfo { width: 2, height: 2 }), Ok(()));
    let mut atlases = Vec::new();
    let mut descriptors = Vec::new();
    for sequence in 0..5u32 {
        let outcome = encoder.handle_frame(&solid(sequence, 2, 2, color)).unwrap();
        assert_eq!(outcome.completed.is_some(), sequence == 3);
        if let Some(done) = outcome.completed {
            atlases.push(done.atlas);
            descriptors.push(done.descriptor);
        }
    }
    let finished = encoder.finish().unwrap();

    assert_eq!(atlases.len(), 1);
    assert_eq!(atlases[0].index, 0);
    assert!(atlases[0].complete);
    assert_eq!((atlases[0].width, atlases[0].height), (4, 4));
    let mut full = Vec::new();
    for _ in 0..16 {
        full.extend_from_slice(&color);
    }
    assert_eq!(atlases[0].pixels, full);
    assert_eq!(atlases[0].file_name, "pristine/resource_pack/textures/frames/pristine_0.png");

    assert_eq!(descriptors.len(), 1);
    assert_eq!(descriptors[0].id, "pristine:i_0");
    assert_eq!(descriptors[0].flipbook.max_frame, 4);
    assert_eq!(descriptors[0].flipbook.frames_per_second, 2);

    assert_eq!(finished.atlas.index, 1);
    assert!(!finished.atlas.complete);
    assert_eq!((finished.atlas.width, finished.atlas.height), (4, 4));
    let mut partial = vec![0u8; 4 * 4 * 4];
    for y in 0..2 {
        for x in 0..2 {
            let at = (y * 4 + x) * 4;
            partial[at..at + 4].copy_from_slice(&color);
        }
    }
    assert_eq!(finished.atlas.pixels, partial);
    assert_eq!(finished.atlas.file_name, "pristine/resource_pack/textures/frames/pristine_1.png");
    let blank_cells = finished.atlas.pixels.chunks(4).filter(|pixel| *pixel == [0, 0, 0, 0]).count();
    assert_eq!(blank_cells, 12);

    assert_eq!(
        finished.script.setup,
        vec![
            String::from("scoreboard objectives remove pristine"),
            String::from("scoreboard objectives add pristine dummy pristine"),
            String::from("scoreboard players add @p pristine 0"),
        ]
    );
    assert_eq!(
        finished.script.repeating,
        vec![
            String::from(
                "execute @a[scores={pristine=0}] ~ ~ ~ execute @e[type=armor_stand] ~ ~ ~ particle pristine:i_0 ~ ~ ~"
            ),
            String::from(
                "execute @a[scores={pristine=60}] ~ ~ ~ execute @e[type=armor_stand] ~ ~ ~ particle pristine:i_1 ~ ~ ~"
            ),
            String::from(
                "execute @a[scores={pristine=..2}] ~ ~ ~ scoreboard players add @s pristine 1"
            ),
        ]
    );
}

#[test]
fn finish_leaves_the_run_as_it_is() {
    let mut encoder = encoder(1, 2, VideoInfo { width: 1, height: 1 });
    encoder.handle_frame(&solid(0, 1, 1, [4, 3, 2, 1])).unwrap();
    let first = encoder.finish().unwrap();
    let second = encoder.finish().unwrap();
    assert_eq!(first.atlas.pixels, vec![4, 3, 2, 1, 0, 0, 0, 0]);
    assert_eq!(second.atlas.pixels, first.atlas.pixels);
    assert_eq!(second.atlas.index, 0);
    assert_eq!(second.script.repeating.len(), 2);
    let done = encoder.handle_frame(&solid(1, 1, 1, [9, 9, 9, 9])).unwrap().completed.unwrap();
    assert_eq!(done.atlas.pixels, vec![4, 3, 2, 1, 9, 9, 9, 9]);
    let third = encoder.finish().unwrap();
    assert_eq!(third.atlas.index, 1);
    assert_eq!(third.atlas.pixels, vec![0u8; 8]);
    assert_eq!(third.script.repeating.len(), 3);
}

#[test]
fn finish_right_after_the_format_closes_with_a_blank_atlas() {
    let encoder = encoder(2, 1, VideoInfo { width: 1, height: 2 });
    let finished = encoder.finish().unwrap();
    assert_eq!(finished.atlas.index, 0);
    assert_eq!(finished.atlas.pixels, vec![0u8; 4 * 2 * 2]);
    assert!(!finished.atlas.complete);
    assert_eq!(finished.script.repeating.len(), 2);
}

#[test]
fn a_frame_from_a_buffer_leaves_the_padding_out() {
    let format = VideoInfo { width: 2, height: 1 };
    let exact = Frame::from_buffer(7, format, &[1, 2, 3, 4, 5, 6, 7, 8]);
    assert_eq!(exact.sequence, 7);
    assert_eq!((exact.width, exact.height), (2, 1));
    assert_eq!(exact.pixels, vec![1, 2, 3, 4, 5, 6, 7, 8]);
    let padded = Frame::from_buffer(8, format, &[1, 2, 3, 4, 5, 6, 7, 8, 9, 10, 11]);
    assert_eq!(padded.pixels, vec![1, 2, 3, 4, 5, 6, 7, 8]);
    let short = Frame::from_buffer(9, format, &[1, 2, 3, 4, 5, 6, 7]);
    assert_eq!(short.pixels, vec![1, 2, 3, 4, 5, 6, 7]);
    assert_eq!((short.width, short.height), (2, 1));
    let empty = Frame::from_buffer(0, VideoInfo { width: 0, height: 5 }, &[1, 2]);
    assert_eq!(empty.pixels, Vec::<u8>::new());
    let huge = Frame::from_buffer(0, VideoInfo { width: u32::MAX, height: u32::MAX }, &[1, 2]);
    assert_eq!(huge.pixels, vec![1, 2]);
}

#[test]
fn a_padded_buffer_is_taken_and_a_short_one_is_not() {
    let format = VideoInfo { width: 1, height: 1 };
    let mut encoder = encoder(1, 1, format);
    let padded = Frame::from_buffer(0, format, &[9, 8, 7, 6, 5, 4]);
    let done = encoder.handle_frame(&padded).unwrap().completed.unwrap();
    assert_eq!(done.atlas.pixels, vec![9, 8, 7, 6]);
    let short = Frame::from_buffer(1, format, &[9, 8, 7]);
    assert_eq!(
        encoder.handle_frame(&short).err(),
        Some(EncodeError::Configuration(ConfigError::DimensionMismatch))
    );
}
