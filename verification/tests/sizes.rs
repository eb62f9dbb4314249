use bit7z_archiver::sizes::{human_size, transfer_size};

fn float_human_size(bytes: u64) -> String {
    if bytes < 1024 {
        format!("{} B", bytes)
    } else if bytes < 1024 * 1024 {
        format!("{:.1} KB", bytes as f64 / 1024.0)
    } else if bytes < 1024 * 1024 * 1024 {
        format!("{:.1} MB", bytes as f64 / (1024.0 * 1024.0))
    } else {
        format!("{:.2} GB", bytes as f64 / (1024.0 * 1024.0 * 1024.0))
    }
}

fn float_transfer_size(bytes: u64) -> String {
    const KB: u64 = 1024;
    const MB: u64 = KB * 1024;
    const GB: u64 = MB * 1024;
    if bytes >= GB {
        format!("{:.2} GB", bytes as f64 / GB as f64)
    } else if bytes >= MB {
        format!("{:.2} MB", bytes as f64 / MB as f64)
    } else if bytes >= KB {
        format!("{:.2} KB", bytes as f64 / KB as f64)
    } else {
        format!("{} B", bytes)
    }
}

fn samples() -> Vec<u64> {
    let mut v: Vec<u64> = (0..200_000u64).collect();
    let mut x: u64 = 0x9e37_79b9_7f4a_7c15;
    for _ in 0..200_000 {
        x = x.wrapping_mul(6364136223846793005).wrapping_add(1442695040888963407);
        v.push(x);
        v.push(x >> 20);
        v.push(x >> 34);
        v.push(x >> 44);
    }
    for shift in 0..64u32 {
        let p = 1u64 << shift;
        for d in 0..64u64 {
            v.push(p.wrapping_add(d));
            v.push(p.wrapping_sub(d));
        }
    }
    v.push(u64::MAX);
    v.push(u64::MAX - 1024);
    v
}

#[test]
fn human_size_matches_the_double_formatting() {
    for n in samples() {
        assert_eq!(human_size(n), float_human_size(n), "n = {}", n);
    }
}

#[test]
fn transfer_size_matches_the_double_formatting() {
    for n in samples() {
        assert_eq!(transfer_size(n), float_transfer_size(n), "n = {}", n);
    }
}

#[test]
fn human_size_examples() {
    assert_eq!(human_size(0), "0 B");
    assert_eq!(human_size(1023), "1023 B");
    assert_eq!(human_size(1024), "1.0 KB");
    assert_eq!(human_size(1536), "1.5 KB");
    assert_eq!(human_size(1_048_575), "1024.0 KB");
    assert_eq!(human_size(1_048_576), "1.0 MB");
    assert_eq!(human_size(1_073_741_824), "1.00 GB");
    assert_eq!(human_size(u64::MAX), "17179869184.00 GB");
}

#[test]
fn human_size_rounds_ties_to_even() {
    // 1075 / 1024 = 1.0498..., 1126.4 would be 1.1; 1075.2 is not a byte count,
    // so take an exact tie: 2.25 KB = 2304 bytes.
    assert_eq!(human_size(2304), "2.2 KB");
    // 2.75 KB = 2816 bytes.
    assert_eq!(human_size(2816), "2.8 KB");
}

#[test]
fn transfer_size_examples() {
    assert_eq!(transfer_size(512), "512 B");
    assert_eq!(transfer_size(1024), "1.00 KB");
    assert_eq!(transfer_size(1_572_864), "1.50 MB");
    assert_eq!(transfer_size(3 * 1_073_741_824), "3.00 GB");
}
