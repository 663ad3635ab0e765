use playback_pump::frame::Frame;
use playback_pump::interleave::interleave;

#[test]
fn interleave_puts_channels_side_by_side() {
    let frame = Frame::new(44100, vec![vec![1, 2, 3], vec![10, 20, 30]]).unwrap();
    assert_eq!(interleave(&frame), vec![1, 10, 2, 20, 3, 30]);
}

#[test]
fn interleave_of_one_channel_is_the_channel() {
    let frame = Frame::new(44100, vec![vec![5, -6, 7, -8]]).unwrap();
    assert_eq!(interleave(&frame), vec![5, -6, 7, -8]);
}

#[test]
fn interleave_of_three_channels() {
    let frame = Frame::new(48000, vec![vec![1, 2], vec![3, 4], vec![5, 6]]).unwrap();
    assert_eq!(interleave(&frame), vec![1, 3, 5, 2, 4, 6]);
}

#[test]
fn interleave_of_an_empty_frame_is_empty() {
    let none = Frame::new(44100, Vec::new()).unwrap();
    assert_eq!(interleave(&none), Vec::<i32>::new());
    let silent = Frame::new(44100, vec![vec![], vec![]]).unwrap();
    assert_eq!(interleave(&silent), Vec::<i32>::new());
}

#[test]
fn interleave_places_sample_i_of_channel_j_at_i_times_c_plus_j() {
    let channels: usize = 2;
    let length: usize = 1152;
    let mut blocks = Vec::new();
    for j in 0..channels {
        let mut block = Vec::new();
        for i in 0..length {
            block.push((j * 100_000 + i) as i32);
        }
        blocks.push(block);
    }
    let frame = Frame::new(44100, blocks.clone()).unwrap();
    let buffer = interleave(&frame);
    assert_eq!(buffer.len(), length * channels);
    for i in 0..length {
        for j in 0..channels {
            assert_eq!(buffer[i * channels + j], blocks[j][i]);
        }
    }
}

#[test]
fn interleaved_samples_convert_to_the_device_format() {
    let half = 1 << 27;
    let frame = Frame::new(44100, vec![vec![half, 0], vec![-half, 1 << 28]]).unwrap();
    let floats: Vec<f32> =
        interleave(&frame).iter().map(|raw| simplemad::MadFixed32::new(*raw).to_f32()).collect();
    assert_eq!(floats, vec![0.5, -0.5, 0.0, 1.0]);
}
