use led_controller::color::Color;
use led_controller::frame::{
    encode_frame, pixel_bytes, solid_frame, vec_to_led_data, ChannelOrder, SendDataErr, LED_SIZE, UNIVERSE,
};

#[test]
fn color_constants_hold_their_channels() {
    assert_eq!(Color::black(), Color(0, 0, 0));
    assert_eq!(Color::white(), Color(255, 255, 255));
    assert_eq!(Color::red(), Color(255, 0, 0));
    assert_eq!(Color::green(), Color(0, 255, 0));
    assert_eq!(Color::blue(), Color(0, 0, 255));
    assert_eq!(Color::purple(), Color(160, 32, 240));
    assert_eq!(Color::orange(), Color(255, 127, 0));
    assert_eq!(Color::new(1, 2, 3), Color(1, 2, 3));
}

#[test]
fn strip_constants() {
    assert_eq!(LED_SIZE, 170);
    assert_eq!(UNIVERSE, 1);
}

#[test]
fn vec_to_led_data_keeps_the_pixels() {
    let data: Vec<Color> = (0..LED_SIZE).map(|i| Color::new(i as u8, 0, 0)).collect();
    let frame = vec_to_led_data(data.clone());
    assert_eq!(frame, data);
}

#[test]
fn solid_frame_fills_the_strip() {
    let frame = solid_frame(Color::purple());
    assert_eq!(frame.len(), LED_SIZE);
    assert!(frame.iter().all(|c| *c == Color::purple()));
}

#[test]
fn encode_rejects_a_short_frame() {
    let frame = vec![Color::red(); LED_SIZE - 1];
    assert_eq!(encode_frame(&frame, ChannelOrder::Brg), Err(SendDataErr::IncorrectLength));
}

#[test]
fn encode_rejects_a_long_frame() {
    let frame = vec![Color::red(); LED_SIZE + 1];
    assert_eq!(encode_frame(&frame, ChannelOrder::Rgb), Err(SendDataErr::IncorrectLength));
}

#[test]
fn encode_rejects_an_empty_frame() {
    let frame: Vec<Color> = Vec::new();
    assert_eq!(encode_frame(&frame, ChannelOrder::Rgb), Err(SendDataErr::IncorrectLength));
}

#[test]
fn encode_writes_blue_red_green() {
    let mut frame = vec![Color::black(); LED_SIZE];
    frame[0] = Color::new(1, 2, 3);
    frame[LED_SIZE - 1] = Color::new(10, 20, 30);
    let bytes = encode_frame(&frame, ChannelOrder::Brg).unwrap();
    assert_eq!(bytes.len(), 3 * LED_SIZE);
    assert_eq!(&bytes[0..3], &[3, 1, 2]);
    assert_eq!(&bytes[3..6], &[0, 0, 0]);
    assert_eq!(&bytes[3 * LED_SIZE - 3..], &[30, 10, 20]);
}

#[test]
fn every_channel_order_permutes_the_pixel() {
    let c = Color::new(1, 2, 3);
    assert_eq!(pixel_bytes(c, ChannelOrder::Rgb), (1, 2, 3));
    assert_eq!(pixel_bytes(c, ChannelOrder::Rbg), (1, 3, 2));
    assert_eq!(pixel_bytes(c, ChannelOrder::Grb), (2, 1, 3));
    assert_eq!(pixel_bytes(c, ChannelOrder::Gbr), (2, 3, 1));
    assert_eq!(pixel_bytes(c, ChannelOrder::Brg), (3, 1, 2));
    assert_eq!(pixel_bytes(c, ChannelOrder::Bgr), (3, 2, 1));
}

#[test]
fn encode_in_rgb_order_copies_the_channels() {
    let frame: Vec<Color> = (0..LED_SIZE).map(|i| Color::new(i as u8, 7, 200)).collect();
    let bytes = encode_frame(&frame, ChannelOrder::Rgb).unwrap();
    for (i, c) in frame.iter().enumerate() {
        assert_eq!(bytes[3 * i], c.0);
        assert_eq!(bytes[3 * i + 1], c.1);
        assert_eq!(bytes[3 * i + 2], c.2);
    }
}

#[test]
fn encode_accepts_a_full_frame() {
    let frame = vec![Color::white(); LED_SIZE];
    let bytes = encode_frame(&frame, ChannelOrder::Grb).unwrap();
    assert_eq!(bytes, vec![255u8; 3 * LED_SIZE]);
}
