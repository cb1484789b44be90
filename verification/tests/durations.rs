//! Duration conversions: GIF's centisecond quantization and APNG's exact
//! millisecond delay, on concrete values.

use imgproc::frame::{apng_delay_of_duration, duration_from_raw, gif_quantize_duration};

#[test]
fn gif_quantization_rounds_to_nearest_ten() {
    assert_eq!(gif_quantize_duration(0), 0);
    assert_eq!(gif_quantize_duration(4), 0);
    assert_eq!(gif_quantize_duration(5), 10);
    assert_eq!(gif_quantize_duration(9), 10);
    assert_eq!(gif_quantize_duration(10), 10);
    assert_eq!(gif_quantize_duration(54), 50);
    assert_eq!(gif_quantize_duration(55), 60);
    assert_eq!(gif_quantize_duration(100), 100);
    assert_eq!(gif_quantize_duration(1234), 1230);
}

#[test]
fn gif_quantization_is_exact_on_multiples_of_ten() {
    let values: Vec<u32> = vec![0, 10, 20, 50, 100, 990, 123450];
    for ms in values {
        assert_eq!(gif_quantize_duration(ms), ms);
    }
}

#[test]
fn apng_delay_is_exact_within_sixteen_bits() {
    assert_eq!(apng_delay_of_duration(0), 0);
    assert_eq!(apng_delay_of_duration(55), 55);
    assert_eq!(apng_delay_of_duration(65535), 65535);
    // Beyond the container's 16-bit field the value wraps, as the field is
    // written modulo 2^16.
    assert_eq!(apng_delay_of_duration(65536), 0);
    assert_eq!(apng_delay_of_duration(70000), 4464);
}

#[test]
fn rational_delays_collapse_to_whole_milliseconds() {
    assert_eq!(duration_from_raw(60, 1), 60);
    assert_eq!(duration_from_raw(55000, 1000), 55);
    assert_eq!(duration_from_raw(1000, 30), 33);
    assert_eq!(duration_from_raw(7, 0), 7);
}
