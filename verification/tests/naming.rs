use fpga_runner_jit::name::RunnerName;
use fpga_runner_jit::target::FpgaTarget;

#[test]
fn assembled_name_matches_the_format_exactly() {
    let nonce = vec![10u8; 16];
    let name = RunnerName::assemble(FpgaTarget::Zcu104, "5", "site1", &nonce, 2026, 10, 11);
    assert_eq!(name.as_str(), "caliptra-fpga-site1-5-AAAAAAAAAAAAAAAA-2026-10-11");
}

#[test]
fn nonce_bytes_are_reduced_to_hex_digits() {
    let nonce = vec![0u8, 1, 2, 3, 4, 5, 6, 7, 8, 9, 10, 11, 12, 13, 14, 15];
    let name = RunnerName::assemble(FpgaTarget::Vck190, "7", "kir", &nonce, 2026, 1, 2);
    assert_eq!(name.as_str(), "vck190-kir-7-0123456789ABCDEF-2026-01-02");

    // Reduction modulo 16: 26 renders as 'A', 255 as 'F', 16 as '0'.
    let nonce = vec![26u8, 255, 16, 32, 17, 42, 100, 200, 0, 1, 2, 3, 4, 5, 6, 7];
    let name = RunnerName::assemble(FpgaTarget::Vck190, "7", "kir", &nonce, 2026, 1, 2);
    assert_eq!(name.as_str(), "vck190-kir-7-AF001A4801234567-2026-01-02");
}

#[test]
fn nightly_and_stable_share_the_board_token() {
    let nonce = vec![0u8; 16];
    let stable = RunnerName::assemble(FpgaTarget::Zcu104, "1", "kir", &nonce, 2026, 5, 5);
    let nightly = RunnerName::assemble(FpgaTarget::Zcu104Nightly, "1", "kir", &nonce, 2026, 5, 5);
    assert_eq!(stable.as_str(), nightly.as_str());
    assert!(stable.as_str().starts_with("caliptra-fpga-"));
}

#[test]
fn date_is_zero_padded() {
    let nonce = vec![0u8; 16];
    let name = RunnerName::assemble(FpgaTarget::Vck190, "1", "x", &nonce, 987, 3, 4);
    assert_eq!(name.as_str(), "vck190-x-1-0000000000000000-0987-03-04");
}

#[test]
fn names_differ_exactly_when_the_nonce_does() {
    let a = RunnerName::assemble(FpgaTarget::Zcu104, "5", "site1", &vec![0u8; 16], 2026, 10, 11);
    let b = RunnerName::assemble(FpgaTarget::Zcu104, "5", "site1", &vec![1u8; 16], 2026, 10, 11);
    let c = RunnerName::assemble(FpgaTarget::Zcu104, "5", "site1", &vec![0u8; 16], 2026, 10, 11);
    assert_ne!(a.as_str(), b.as_str());
    assert_eq!(a.as_str(), c.as_str());
}

#[test]
fn generated_names_are_distinct() {
    let mut names: Vec<String> = Vec::new();
    for _ in 0..100 {
        let name = RunnerName::new(FpgaTarget::Zcu104, "5", "site1").into_string();
        assert!(!names.contains(&name), "two generated names collided");
        names.push(name);
    }
}

#[test]
fn generated_name_has_the_documented_shape() {
    let name = RunnerName::new(FpgaTarget::Vck190, "9", "kir").into_string();
    let prefix = "vck190-kir-9-";
    assert!(name.starts_with(prefix), "unexpected name: {name}");
    let rest = &name[prefix.len()..];
    // Sixteen hexadecimal digits, a dash, then YYYY-MM-DD.
    assert_eq!(rest.len(), 16 + 1 + 10, "unexpected name: {name}");
    let (nonce, date) = rest.split_at(16);
    assert!(nonce.chars().all(|c| c.is_ascii_hexdigit()), "unexpected nonce: {nonce}");
    let date = &date[1..];
    let parts: Vec<&str> = date.split('-').collect();
    assert_eq!(parts.len(), 3, "unexpected date: {date}");
    assert_eq!(parts[0].len(), 4);
    assert_eq!(parts[1].len(), 2);
    assert_eq!(parts[2].len(), 2);
    let month: u32 = parts[1].parse().unwrap();
    let day: u32 = parts[2].parse().unwrap();
    assert!((1..=12).contains(&month));
    assert!((1..=31).contains(&day));
}
