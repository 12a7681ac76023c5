use modlookup::hash::{ascii_upper, calc_checksum, calc_wide_checksum, fold, PRIME, SEED};

fn wide(s: &str) -> Vec<u16> {
    s.encode_utf16().collect()
}

fn split(w: &[u16]) -> Vec<u8> {
    let mut out = Vec::new();
    for c in w {
        out.push((c & 0xff) as u8);
        out.push((c >> 8) as u8);
    }
    out
}

#[test]
fn constants_are_the_documented_ones() {
    assert_eq!(SEED, 0x811c9dc5);
    assert_eq!(PRIME, 0x01000193);
}

#[test]
fn empty_input_gives_the_seed() {
    assert_eq!(calc_checksum(b""), 0x811c9dc5);
    assert_eq!(calc_wide_checksum(&[]), 0x811c9dc5);
}

#[test]
fn one_step_is_xor_then_wrapping_multiply() {
    assert_eq!(fold(SEED, b'A'), (SEED ^ 0x41).wrapping_mul(PRIME));
    assert_eq!(fold(SEED, b'A'), 0xc40bf6cc);
    assert_eq!(fold(SEED, b'a'), 0xc40bf6cc);
    assert_eq!(fold(0, 0), 0);
    assert_eq!(fold(0xffff_ffff, 0), 0xffff_ffffu32.wrapping_mul(PRIME));
}

#[test]
fn narrow_names_have_fixed_values() {
    assert_eq!(calc_checksum(b"NtAllocateVirtualMemory"), 0xd58d5a18);
    assert_eq!(calc_checksum(b"NtClose"), 0x1498d8a5);
    assert_eq!(calc_checksum(b"NtOpenFile"), 0x94755a1d);
    assert_eq!(calc_checksum(b"RtlInitUnicodeString"), 0x99fc9d8f);
    assert_eq!(calc_checksum(b"a"), 0xc40bf6cc);
}

#[test]
fn wide_names_have_fixed_values() {
    assert_eq!(calc_wide_checksum(&wide("ntdll.dll")), 0xb8e7e9f9);
    assert_eq!(calc_wide_checksum(&wide("kernel32.dll")), 0xe26c18ed);
    assert_eq!(calc_wide_checksum(&wide("app.exe")), 0x9dd0d512);
}

#[test]
fn values_are_the_same_on_every_call() {
    let first = calc_checksum(b"NtAllocateVirtualMemory");
    let second = calc_checksum(b"NtAllocateVirtualMemory");
    assert_eq!(first, second);
    let name = wide("ntdll.dll");
    assert_eq!(calc_wide_checksum(&name), calc_wide_checksum(&name));
}

#[test]
fn case_does_not_matter() {
    let names: [&[u8]; 5] =
        [b"NtAllocateVirtualMemory", b"ntclose", b"MiXeD_cAsE-123", b"", b"zzzzAAAA"];
    for name in names {
        let upper: Vec<u8> = name.iter().map(|b| b.to_ascii_uppercase()).collect();
        let lower: Vec<u8> = name.iter().map(|b| b.to_ascii_lowercase()).collect();
        assert_eq!(calc_checksum(name), calc_checksum(&upper));
        assert_eq!(calc_checksum(name), calc_checksum(&lower));
    }
    assert_eq!(calc_wide_checksum(&wide("NTDLL.DLL")), calc_wide_checksum(&wide("ntdll.dll")));
    assert_eq!(calc_wide_checksum(&wide("NtDll.Dll")), 0xb8e7e9f9);
}

#[test]
fn upper_casing_touches_ascii_letters_only() {
    for b in 0..=255u8 {
        assert_eq!(ascii_upper(b), b.to_ascii_uppercase());
    }
    assert_eq!(ascii_upper(b'a'), b'A');
    assert_eq!(ascii_upper(b'z'), b'Z');
    assert_eq!(ascii_upper(b'`'), b'`');
    assert_eq!(ascii_upper(b'{'), b'{');
    assert_eq!(ascii_upper(0xe9), 0xe9);
    assert_eq!(calc_checksum(&[0xe9]), 0x6c0b6c44);
    assert_eq!(calc_checksum(&[0xc9]), 0x4c0b39e4);
}

#[test]
fn order_matters() {
    assert_eq!(calc_checksum(b"ab"), 0x2cd5218a);
    assert_eq!(calc_checksum(b"ba"), 0x1bdd558c);
    assert_ne!(calc_checksum(b"ab"), calc_checksum(b"ba"));
}

#[test]
fn wide_is_narrow_of_low_then_high_bytes() {
    let samples: [Vec<u16>; 5] = [
        wide("ntdll.dll"),
        wide("KERNEL32.DLL"),
        vec![0x0161, 0x6100, 0xffff, 0x0000, 0x617a],
        vec![],
        vec![0x1234],
    ];
    for w in samples.iter() {
        assert_eq!(calc_wide_checksum(w), calc_checksum(&split(w)));
    }
    assert_eq!(calc_wide_checksum(&[0x1234]), calc_checksum(&[0x34, 0x12]));
    assert_ne!(calc_wide_checksum(&[0x1234]), calc_checksum(&[0x12, 0x34]));
}

#[test]
fn each_byte_of_a_code_unit_is_upper_cased() {
    assert_eq!(calc_wide_checksum(&[0x0161]), 0x6bd584b7);
    assert_eq!(calc_wide_checksum(&[0x0141]), 0x6bd584b7);
    assert_eq!(calc_wide_checksum(&[0x6100]), 0x5076fafa);
    assert_eq!(calc_wide_checksum(&[0x4100]), 0x5076fafa);
}
