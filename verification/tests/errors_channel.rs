use mandelbrot::errors::{
    clear_last_error, get_last_error, handle_errors, ErrorChannel, LibError, Outcome,
};
use mandelbrot::video::Encoder;
use mandelbrot::{create_export, preview_frame};

const STDIN_MSG: &str = "Failed to get stdin";

fn full_palette() -> Vec<u8> {
    let mut flat: Vec<u8> = Vec::new();
    for i in 0..256 {
        flat.push(i as u8);
        flat.push(i as u8);
        flat.push(i as u8);
    }
    flat
}

#[test]
fn lib_error_carries_its_message() {
    let e = LibError::new(String::from("boom"));
    assert_eq!(e.message(), "boom");
    let e = LibError::from_str("smaller boom");
    assert_eq!(e.message(), "smaller boom");
}

#[test]
fn channel_set_clear_get() {
    let mut channel = ErrorChannel::new();
    assert!(get_last_error(&channel).is_none());
    LibError::from_str("first").set_last_error(&mut channel);
    assert_eq!(get_last_error(&channel).unwrap(), "first");
    LibError::from_str("second").set_last_error(&mut channel);
    assert_eq!(get_last_error(&channel).unwrap(), "second");
    clear_last_error(&mut channel);
    assert!(get_last_error(&channel).is_none());
}

#[test]
fn two_channels_never_observe_each_other() {
    let mut one = ErrorChannel::new();
    let mut two = ErrorChannel::new();
    LibError::from_str("only in one").set_last_error(&mut one);
    assert!(get_last_error(&two).is_none());
    clear_last_error(&mut two);
    assert_eq!(get_last_error(&one).unwrap(), "only in one");
}

#[test]
fn handle_errors_resolves_each_outcome() {
    let mut channel = ErrorChannel::new();
    let r = handle_errors(&mut channel, Outcome::Success(7i32));
    assert_eq!(r, Some(7));
    assert!(get_last_error(&channel).is_none());

    let r: Option<i32> = handle_errors(&mut channel, Outcome::Failure(LibError::from_str("no")));
    assert!(r.is_none());
    assert_eq!(get_last_error(&channel).unwrap(), "no");

    let r: Option<i32> = handle_errors(&mut channel, Outcome::Fault);
    assert!(r.is_none());
    assert_eq!(get_last_error(&channel).unwrap(), "internal fault");

    let r = handle_errors(&mut channel, Outcome::Success(0u8));
    assert_eq!(r, Some(0));
    assert!(get_last_error(&channel).is_none());
}

#[test]
fn failure_sets_and_success_clears_the_channel() {
    let colors = full_palette();
    let short = vec![0u8; 765];
    let mut channel = ErrorChannel::new();

    assert!(create_export(&mut channel, "x", &short, 64, 64).is_none());
    let message = get_last_error(&channel).expect("an induced failure reports a message");
    assert!(!message.is_empty());

    let buffer = preview_frame(&mut channel, &colors, 64, 64, 0, 0, 0, 1);
    assert!(buffer.is_some());
    assert!(get_last_error(&channel).is_none());
}

#[test]
fn encoder_rounds_output_dimensions_down_to_even() {
    let enc = Encoder::new("odd.mp4", 7, 5).expect("the model encoder spawns");
    assert_eq!(enc.output_size(), (6, 4));
    let enc = Encoder::new("even.mp4", 8, 4).expect("the model encoder spawns");
    assert_eq!(enc.output_size(), (8, 4));
}

#[test]
fn encoder_pipe_lifecycle() {
    let mut enc = Encoder::new("clip.mp4", 6, 4).expect("the model encoder spawns");
    assert_eq!(enc.path(), "clip.mp4");
    assert!(!enc.is_finished());
    assert_eq!(enc.frame_count(), 0);

    let frame = vec![9u8; 6 * 4 * 3];
    enc.write(&frame).expect("the pipe is open");
    enc.write(&frame).expect("the pipe is still open");
    assert_eq!(enc.frame_count(), 2);
    assert_eq!(enc.frame_at(0).as_slice(), frame.as_slice());

    enc.finish().expect("first finish closes the pipe");
    assert!(enc.is_finished());
    assert_eq!(enc.frame_count(), 2);

    let err = enc.write(&frame).err().expect("write after finish fails");
    assert_eq!(err.message(), STDIN_MSG);
    let err = enc.finish().err().expect("second finish fails");
    assert_eq!(err.message(), STDIN_MSG);
    assert_eq!(enc.frame_count(), 2);
}
