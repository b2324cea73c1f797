use mandelbrot::errors::{get_last_error, ErrorChannel};
use mandelbrot::mandelbrot::assert_42_value;
use mandelbrot::{add_frame, create_export, destroy_export, Color};

fn grayscale_palette() -> Vec<u8> {
    let mut colors: Vec<Color> = Vec::new();
    for i in 0..256 {
        colors.push(Color { r: i as u8, g: i as u8, b: i as u8 });
    }
    let mut flat: Vec<u8> = Vec::new();
    for c in &colors {
        flat.push(c.r);
        flat.push(c.g);
        flat.push(c.b);
    }
    flat
}

fn expected_byte(x_bits: u64, y_bits: u64, zoom_bits: u64, max_iterations: u32, i: usize) -> u8 {
    let seed = (((x_bits ^ y_bits ^ zoom_bits) & 0xff) as u8) ^ ((max_iterations & 0xff) as u8);
    seed ^ ((i % 256) as u8)
}

#[test]
fn mandelbrot_test_lib() {
    let v = assert_42_value();
    assert_eq!(v, 42);
}

#[test]
fn add_probe_answers_with_the_wrapped_difference() {
    assert_eq!(mandelbrot::add(7, 3), 4);
    assert_eq!(mandelbrot::add(3, 7), -4);
    assert_eq!(mandelbrot::add(i32::MIN, 1), i32::MAX);
}

#[test]
fn lib_test_lib() {
    let colors = grayscale_palette();
    let mut channel = ErrorChannel::new();
    let export = create_export(&mut channel, "test", &colors, 1024, 1024);
    let mut export = export.expect("a 1024x1024 export with a full palette is created");
    add_frame(
        &mut channel,
        &mut export,
        0.0f64.to_bits(),
        0.0f64.to_bits(),
        1.0f64.to_bits(),
        100,
    );
    let file = destroy_export(&mut channel, export);
    let file = file.expect("destroying a live export finalizes its file");
    assert!(get_last_error(&channel).is_none());
    assert!(file.is_finished());
    assert_eq!(file.path(), "test");
    assert_eq!(file.frame_count(), 1);
    assert_eq!(file.frame_at(0).len(), 1024 * 1024 * 3);
}

#[test]
fn export_reports_its_creation_values() {
    let colors = grayscale_palette();
    let mut channel = ErrorChannel::new();
    let export = create_export(&mut channel, "out/video.mp4", &colors, 64, 32);
    let export = export.expect("64x32 divides into 32x32 blocks");
    assert!(get_last_error(&channel).is_none());
    assert_eq!(export.width(), 64);
    assert_eq!(export.height(), 32);
    assert_eq!(export.frame_count(), 0);
    let file = destroy_export(&mut channel, export).expect("destroy finalizes");
    assert_eq!(file.frame_count(), 0);
    assert_eq!(file.path(), "out/video.mp4");
}

#[test]
fn frames_keep_submission_order() {
    let colors = grayscale_palette();
    let mut channel = ErrorChannel::new();
    let export = create_export(&mut channel, "ordered", &colors, 64, 64);
    let mut export = export.expect("64x64 export is created");
    let zooms = [1.0f64, 2.0f64, 3.0f64];
    for (k, zoom) in zooms.iter().enumerate() {
        add_frame(
            &mut channel,
            &mut export,
            0.25f64.to_bits(),
            0.5f64.to_bits(),
            zoom.to_bits(),
            10 + k as u32,
        );
        assert!(get_last_error(&channel).is_none());
        assert_eq!(export.frame_count(), k + 1);
        assert_eq!(export.frame_at(k).len(), 64 * 64 * 3);
    }
    let file = destroy_export(&mut channel, export).expect("destroy finalizes");
    assert_eq!(file.frame_count(), 3);
    for (k, zoom) in zooms.iter().enumerate() {
        let frame = file.frame_at(k);
        assert_eq!(frame.len(), 64 * 64 * 3);
        for i in [0usize, 1, 255, 256, 64 * 64 * 3 - 1] {
            let want = expected_byte(
                0.25f64.to_bits(),
                0.5f64.to_bits(),
                zoom.to_bits(),
                10 + k as u32,
                i,
            );
            assert_eq!(frame[i], want);
        }
    }
    // the three frames are pairwise distinguishable
    assert_ne!(file.frame_at(0)[0], file.frame_at(1)[0]);
    assert_ne!(file.frame_at(1)[0], file.frame_at(2)[0]);
    assert_ne!(file.frame_at(0)[0], file.frame_at(2)[0]);
}

#[test]
fn destroyed_file_counts_every_added_frame() {
    let colors = grayscale_palette();
    let mut channel = ErrorChannel::new();
    let export = create_export(&mut channel, "counted", &colors, 32, 32);
    let mut export = export.expect("32x32 export is created");
    for k in 0..5u32 {
        add_frame(&mut channel, &mut export, 0, 0, k as u64, k);
    }
    let file = destroy_export(&mut channel, export).expect("destroy finalizes");
    assert!(file.is_finished());
    assert_eq!(file.frame_count(), 5);
}
