use xpm::size::format_size;

fn by_floats(bytes: u64) -> String {
    if bytes >= 1_073_741_824 {
        format!("{:.1} GB", bytes as f64 / 1_073_741_824.0)
    } else if bytes >= 1_048_576 {
        format!("{:.1} MB", bytes as f64 / 1_048_576.0)
    } else if bytes >= 1024 {
        format!("{:.1} KB", bytes as f64 / 1024.0)
    } else {
        format!("{} B", bytes)
    }
}

#[test]
fn sizes_in_each_unit() {
    assert_eq!(format_size(0), "0 B");
    assert_eq!(format_size(1), "1 B");
    assert_eq!(format_size(1023), "1023 B");
    assert_eq!(format_size(1024), "1.0 KB");
    assert_eq!(format_size(1536), "1.5 KB");
    assert_eq!(format_size(1_048_575), "1024.0 KB");
    assert_eq!(format_size(1_048_576), "1.0 MB");
    assert_eq!(format_size(5 * 1_048_576 + 104_858), "5.1 MB");
    assert_eq!(format_size(1_073_741_823), "1024.0 MB");
    assert_eq!(format_size(1_073_741_824), "1.0 GB");
    assert_eq!(format_size(3 * 1_073_741_824 / 2), "1.5 GB");
    assert_eq!(format_size(u64::MAX), "17179869184.0 GB");
}

#[test]
fn a_tie_goes_to_the_even_tenth() {
    assert_eq!(format_size(1280), "1.2 KB");
    assert_eq!(format_size(1792), "1.8 KB");
    assert_eq!(format_size(1024 + 51), "1.0 KB");
    assert_eq!(format_size(1024 + 52), "1.1 KB");
    assert_eq!(format_size(1_310_720), "1.2 MB");
    assert_eq!(format_size(1_342_177_280), "1.2 GB");
}

#[test]
fn sizes_agree_with_floating_point_on_small_values() {
    for bytes in 0..70_000u64 {
        assert_eq!(format_size(bytes), by_floats(bytes), "{}", bytes);
    }
}

#[test]
fn sizes_agree_with_floating_point_around_every_power_of_two() {
    for shift in 0..64u32 {
        let base = 1u64 << shift;
        for delta in 0..600u64 {
            for bytes in [base.wrapping_add(delta), base.wrapping_sub(delta)] {
                assert_eq!(format_size(bytes), by_floats(bytes), "{}", bytes);
            }
        }
    }
}

#[test]
fn sizes_agree_with_floating_point_on_ties_and_near_them() {
    for unit_shift in [10u32, 20, 30] {
        let unit = 1u64 << unit_shift;
        for odd in (1..4000u64).step_by(2) {
            let twentieths = odd * 5;
            let tie = twentieths * (unit / 4) / 5;
            for bytes in [tie.saturating_sub(1), tie, tie + 1] {
                assert_eq!(format_size(bytes), by_floats(bytes), "{}", bytes);
            }
        }
    }
}

#[test]
fn sizes_agree_with_floating_point_on_scattered_values() {
    let mut x: u64 = 0x9e37_79b9_7f4a_7c15;
    for _ in 0..200_000 {
        x ^= x << 13;
        x ^= x >> 7;
        x ^= x << 17;
        for bytes in [x, x >> 8, x >> 11, x >> 20, x >> 33, x >> 44] {
            assert_eq!(format_size(bytes), by_floats(bytes), "{}", bytes);
        }
    }
}

#[test]
fn sizes_agree_with_floating_point_where_doubles_round() {
    let limit = 1u64 << 53;
    for k in 0..11u32 {
        let grain = 2u64 << k;
        let base = limit << k;
        for step in 0..3000u64 {
            let at = base + step * (grain / 2);
            for bytes in [at.wrapping_sub(1), at, at.wrapping_add(1)] {
                assert_eq!(format_size(bytes), by_floats(bytes), "{}", bytes);
            }
        }
    }
    let tenth = (1u64 << 30) / 20;
    for n in 0..2000u64 {
        let near = (limit / tenth + 2 * n + 1) * tenth;
        for delta in 0..40u64 {
            for bytes in [near - delta, near + delta] {
                assert_eq!(format_size(bytes), by_floats(bytes), "{}", bytes);
            }
        }
    }
}
