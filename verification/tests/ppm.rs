use raytracer::ppm::{header, write_color};

fn tone_map(sum: f64, samples_per_pixel: i64) -> u8 {
    let mean = sum * 1.0 / samples_per_pixel as f64;
    (255.999 * mean.sqrt().clamp(0.0, 0.999)) as u8
}

#[test]
fn black_pixel() {
    assert_eq!(write_color(0, 0, 0), "0 0 0");
}

#[test]
fn white_pixel() {
    assert_eq!(write_color(255, 255, 255), "255 255 255");
}

#[test]
fn channels_keep_their_order() {
    assert_eq!(write_color(255, 0, 0), "255 0 0");
    assert_eq!(write_color(12, 7, 100), "12 7 100");
    assert_eq!(write_color(9, 10, 99), "9 10 99");
    assert_eq!(write_color(101, 110, 200), "101 110 200");
}

#[test]
fn every_channel_value_is_written_as_the_formatter_does() {
    for value in 0..=255u8 {
        assert_eq!(write_color(value, 0, value), format!("{} 0 {}", value, value));
    }
}

#[test]
fn header_of_the_default_picture() {
    assert_eq!(header(1200, 675), "P3\n1200 675\n255");
}

#[test]
fn header_of_small_and_large_pictures() {
    assert_eq!(header(0, 0), "P3\n0 0\n255");
    assert_eq!(header(1, 10), "P3\n1 10\n255");
    assert_eq!(
        header(usize::MAX, 1000000),
        format!("P3\n{} 1000000\n255", usize::MAX)
    );
}

#[test]
fn full_white_accumulated_over_any_sample_count_is_written_as_255() {
    for samples_per_pixel in [1_i64, 2, 10, 500, 1000] {
        let mut sum = 0.0;
        for _ in 0..samples_per_pixel {
            sum += 1.0;
        }
        let channel = tone_map(sum, samples_per_pixel);
        assert_eq!(channel, 255);
        assert_eq!(write_color(channel, channel, channel), "255 255 255");
    }
}

#[test]
fn black_accumulated_is_written_as_zero() {
    let channel = tone_map(0.0, 500);
    assert_eq!(write_color(channel, channel, channel), "0 0 0");
}

#[test]
fn pixel_line_reads_back() {
    for value in 0..=255u8 {
        let line = write_color(value, 255 - value, value / 2);
        let channels: Vec<u8> = line.split(' ').map(|field| field.parse().unwrap()).collect();
        assert_eq!(channels, vec![value, 255 - value, value / 2]);
    }
}

#[test]
fn channel_takes_one_to_three_digits_without_leading_zero() {
    for value in 0..=255u8 {
        let line = write_color(value, value, value);
        let field = line.split(' ').next().unwrap();
        assert!(field.chars().all(|c| c.is_ascii_digit()));
        let expected = if value < 10 { 1 } else if value < 100 { 2 } else { 3 };
        assert_eq!(field.len(), expected);
        assert_eq!(field.starts_with('0'), value == 0);
    }
}

#[test]
fn header_reads_back() {
    for (width, height) in [(1usize, 1usize), (16, 9), (1200, 675), (99999, 100000)] {
        let text = header(width, height);
        let lines: Vec<&str> = text.split('\n').collect();
        assert_eq!(lines.len(), 3);
        assert_eq!(lines[0], "P3");
        let size: Vec<usize> = lines[1].split(' ').map(|field| field.parse().unwrap()).collect();
        assert_eq!(size, vec![width, height]);
        assert_eq!(lines[2], "255");
    }
}
