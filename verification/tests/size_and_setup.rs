use basalto::setup::{ensure_sections, required_section, REQUIRED_SECTIONS};
use basalto::size::formatear_bytes;

fn reference_bytes(bytes: u64) -> String {
    if bytes >= 1_073_741_824 {
        format!("{:.1} GB", bytes as f64 / 1_073_741_824.0)
    } else if bytes >= 1_048_576 {
        format!("{:.1} MB", bytes as f64 / 1_048_576.0)
    } else if bytes >= 1_024 {
        format!("{:.1} KB", bytes as f64 / 1_024.0)
    } else {
        format!("{} B", bytes)
    }
}

#[test]
fn bytes_below_one_kb() {
    assert_eq!(formatear_bytes(0), "0 B");
    assert_eq!(formatear_bytes(1), "1 B");
    assert_eq!(formatear_bytes(1023), "1023 B");
}

#[test]
fn bytes_in_units() {
    assert_eq!(formatear_bytes(1024), "1.0 KB");
    assert_eq!(formatear_bytes(1536), "1.5 KB");
    assert_eq!(formatear_bytes(1_048_575), "1024.0 KB");
    assert_eq!(formatear_bytes(1_048_576), "1.0 MB");
    assert_eq!(formatear_bytes(5 * 1_073_741_824), "5.0 GB");
}

#[test]
fn bytes_ties_round_to_even() {
    // 1075.2 bytes is not whole, but 1126.4 / 1024 = 1.1 exactly; 1075 * 10 / 1024 is 10.498
    // a count of 1024 * 1.05 = 1075.2 cannot occur, 1024 * 1.25 = 1280 can: 1.25 -> 1.2
    assert_eq!(formatear_bytes(1280), "1.2 KB");
    assert_eq!(formatear_bytes(1792), "1.8 KB");
}

#[test]
fn bytes_agree_with_float_formatting() {
    let mut samples: Vec<u64> = Vec::new();
    for b in 0..5000u64 {
        samples.push(b);
    }
    for k in [10u32, 20, 30, 40, 50, 52, 53, 54, 60, 63] {
        let base = 1u64 << k;
        for d in 0..300u64 {
            samples.push(base.wrapping_add(d));
            samples.push(base.wrapping_sub(d));
            samples.push(base.wrapping_add(d * 51));
            samples.push(base / 10 * 7 + d);
        }
    }
    samples.push(u64::MAX);
    samples.push(u64::MAX - 1);
    samples.push(u64::MAX - 1024);
    samples.push((1u64 << 53) + 1);
    samples.push((1u64 << 53) + 3);
    samples.push((1u64 << 54) + 2);
    samples.push((1u64 << 54) + 6);
    let mut x: u64 = 0x9e37_79b9_7f4a_7c15;
    for _ in 0..20000 {
        x ^= x << 13;
        x ^= x >> 7;
        x ^= x << 17;
        samples.push(x);
        samples.push(x >> 20);
        samples.push(x >> 40);
    }
    for b in samples {
        assert_eq!(formatear_bytes(b), reference_bytes(b), "bytes {}", b);
    }
}

fn reference_sections(content: &str) -> String {
    let mut content = content.to_string();
    for i in 0..REQUIRED_SECTIONS {
        let (header, default) = required_section(i);
        if !content.contains(header) {
            content.push_str(&format!("\n{}\n", default));
        }
    }
    content
}

#[test]
fn empty_config_gets_every_section() {
    let done = ensure_sections("");
    assert_eq!(
        done,
        "\n[library]\nurl = \"\"\nbranch = \"main\"\n\n\n[editors]\navailable = [\"nvim\"]\n\n\n[core]\nsource = \"git@github.com:ShadeC0der/basalto-core.git\"\n\n"
    );
}

#[test]
fn complete_config_is_left_alone() {
    let content = "[library]\nurl = \"x\"\n[editors]\n[core]\nsource = \"y\"\n";
    assert_eq!(ensure_sections(content), content);
}

#[test]
fn only_missing_sections_are_added() {
    let content = "[core]\nsource = \"mine\"\n";
    let done = ensure_sections(content);
    assert!(done.starts_with(content));
    assert!(done.contains("[library]"));
    assert!(done.contains("[editors]"));
    assert_eq!(done.matches("[core]").count(), 1);
    assert_eq!(done, reference_sections(content));
}

#[test]
fn completing_twice_changes_nothing() {
    for content in ["", "[editors]", "x = 1\n[library]\n", "[core][library][editors]"] {
        let once = ensure_sections(content);
        assert_eq!(ensure_sections(&once), once);
        assert_eq!(once, reference_sections(content));
    }
}
