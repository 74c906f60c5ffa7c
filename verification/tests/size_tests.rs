use doffy_uploader::size::file_size_human_readable;

fn with_floats(file_size: u64) -> String {
    if file_size <= 1024 {
        format!("{}B", file_size)
    } else if file_size <= 1024 * 1024 {
        format!("{:.2}KB", file_size as f64 / 1024.0)
    } else if file_size <= 1024 * 1024 * 1024 {
        format!("{:.2}MB", file_size as f64 / 1024.0 / 1024.0)
    } else {
        format!("{:.2}GB", file_size as f64 / 1024.0 / 1024.0 / 1024.0)
    }
}

#[test]
fn sizes_up_to_a_kilobyte_are_in_bytes() {
    assert_eq!(file_size_human_readable(0), "0B");
    assert_eq!(file_size_human_readable(1), "1B");
    assert_eq!(file_size_human_readable(512), "512B");
    assert_eq!(file_size_human_readable(1023), "1023B");
    assert_eq!(file_size_human_readable(1024), "1024B");
}

#[test]
fn sizes_up_to_a_megabyte_are_in_kilobytes() {
    assert_eq!(file_size_human_readable(1025), "1.00KB");
    assert_eq!(file_size_human_readable(1536), "1.50KB");
    assert_eq!(file_size_human_readable(2048), "2.00KB");
    assert_eq!(file_size_human_readable(10_000), "9.77KB");
    assert_eq!(file_size_human_readable(1024 * 1024), "1024.00KB");
}

#[test]
fn sizes_up_to_a_gigabyte_are_in_megabytes() {
    assert_eq!(file_size_human_readable(1024 * 1024 + 1), "1.00MB");
    assert_eq!(file_size_human_readable(5 * 1024 * 1024 + 512 * 1024), "5.50MB");
    assert_eq!(file_size_human_readable(1024 * 1024 * 1024), "1024.00MB");
}

#[test]
fn larger_sizes_are_in_gigabytes() {
    assert_eq!(file_size_human_readable(1024 * 1024 * 1024 + 1), "1.00GB");
    assert_eq!(file_size_human_readable(2 * 1024 * 1024 * 1024), "2.00GB");
    assert_eq!(file_size_human_readable(u64::MAX), "17179869184.00GB");
}

#[test]
fn a_half_way_hundredth_goes_to_the_even_one() {
    // 1152 / 1024 = 1.125 and 1184 / 1024 = 1.15625.
    assert_eq!(file_size_human_readable(1152), "1.12KB");
    assert_eq!(file_size_human_readable(1184), "1.16KB");
    // 1.375 and 1.625
    assert_eq!(file_size_human_readable(1408), "1.38KB");
    assert_eq!(file_size_human_readable(1664), "1.62KB");
}

#[test]
fn kilobytes_agree_with_float_formatting() {
    let mut n: u64 = 1025;
    while n <= 1024 * 1024 {
        assert_eq!(file_size_human_readable(n), with_floats(n), "at {}", n);
        n += 1;
    }
}

#[test]
fn megabytes_agree_with_float_formatting() {
    let mut n: u64 = 1024 * 1024 + 1;
    while n <= 1024 * 1024 * 1024 {
        assert_eq!(file_size_human_readable(n), with_floats(n), "at {}", n);
        n += 5_237;
    }
    for n in [1179648u64, 1310720, 1048576 + 5243, 1048576 + 5242, 68681728, 1073741823] {
        assert_eq!(file_size_human_readable(n), with_floats(n), "at {}", n);
    }
}

#[test]
fn gigabytes_agree_with_float_formatting() {
    let mut n: u64 = 1024 * 1024 * 1024 + 1;
    let mut step: u64 = 3_333_331;
    while n < u64::MAX - step {
        assert_eq!(file_size_human_readable(n), with_floats(n), "at {}", n);
        n += step;
        step += step / 16;
    }
    for n in [1u64 << 30, (1 << 30) + 5368709, (1 << 30) + 5368710, 1207959552, 1342177280] {
        assert_eq!(file_size_human_readable(n), with_floats(n), "at {}", n);
    }
}

#[test]
fn counts_beyond_float_precision_agree_with_float_formatting() {
    let edge: u64 = 1 << 53;
    for delta in 0..64u64 {
        for base in [edge, edge << 1, edge << 5, edge << 10, u64::MAX - 4096] {
            let n = base.saturating_add(delta * 37);
            assert_eq!(file_size_human_readable(n), with_floats(n), "at {}", n);
            let m = base - delta;
            assert_eq!(file_size_human_readable(m), with_floats(m), "at {}", m);
        }
    }
    // Counts whose hundredths sit next to a tie, where the rounding to a
    // float decides the digit.
    let unit: u64 = 1 << 30;
    for k in [900_719u64, 1_000_003, 9_007_199, 16_000_000_001] {
        let tie = k * unit / 100 * 2 / 2 + unit / 200;
        for delta in 0..2048u64 {
            for n in [tie.saturating_add(delta), tie - delta] {
                assert_eq!(file_size_human_readable(n), with_floats(n), "at {}", n);
            }
        }
    }
}
