use clap_wrapper::hex::to_hex_lower;
use clap_wrapper::text::{has_extension, last_dot, str_eq};
use std::path::Path;

#[test]
fn hex_small_values() {
    assert_eq!(to_hex_lower(0), "0");
    assert_eq!(to_hex_lower(9), "9");
    assert_eq!(to_hex_lower(10), "a");
    assert_eq!(to_hex_lower(15), "f");
    assert_eq!(to_hex_lower(16), "10");
    assert_eq!(to_hex_lower(255), "ff");
    assert_eq!(to_hex_lower(256), "100");
}

#[test]
fn hex_large_values() {
    assert_eq!(to_hex_lower(0xdead_beef), "deadbeef");
    assert_eq!(to_hex_lower(u64::MAX), "ffffffffffffffff");
    assert_eq!(to_hex_lower(1u64 << 63), "8000000000000000");
}

#[test]
fn hex_agrees_with_format() {
    let samples = [0u64, 1, 7, 16, 4095, 4096, 0x0123_4567_89ab_cdef, u64::MAX - 1, u64::MAX];
    for n in samples {
        assert_eq!(to_hex_lower(n), format!("{:x}", n));
    }
}

#[test]
fn hex_spellings_differ_for_different_values() {
    let samples = [0u64, 1, 15, 16, 17, 255, 256, 0xff_ff, 0x1_00_00];
    for a in samples {
        for b in samples {
            assert_eq!(to_hex_lower(a) == to_hex_lower(b), a == b);
        }
    }
}

#[test]
fn hex_reads_back() {
    for n in [0u64, 3, 0xabc, 0x1234_5678_9abc_def0, u64::MAX] {
        assert_eq!(u64::from_str_radix(&to_hex_lower(n), 16).unwrap(), n);
    }
}

#[test]
fn str_eq_cases() {
    assert!(str_eq("", ""));
    assert!(str_eq("macos", "macos"));
    assert!(!str_eq("macos", "macOS"));
    assert!(!str_eq("mac", "macos"));
    assert!(!str_eq("macos", ""));
    assert!(str_eq("héllo", "héllo"));
}

#[test]
fn last_dot_cases() {
    assert_eq!(last_dot("a.b.c"), Some(3));
    assert_eq!(last_dot("abc"), None);
    assert_eq!(last_dot(".hidden"), Some(0));
    assert_eq!(last_dot(""), None);
}

#[test]
fn extension_cases() {
    assert!(has_extension("foo.cpp", "cpp"));
    assert!(has_extension("a.b.cpp", "cpp"));
    assert!(!has_extension("foo.cpp.bak", "cpp"));
    assert!(!has_extension(".cpp", "cpp"));
    assert!(!has_extension("foo", "cpp"));
    assert!(!has_extension("foo.CPP", "cpp"));
    assert!(!has_extension("foo.cp", "cpp"));
    assert!(has_extension("foo.", ""));
    assert!(has_extension("..cpp", "cpp"));
}

#[test]
fn extension_agrees_with_std_path() {
    let names = [
        "foo.cpp", "a.b.cpp", "foo.cpp.bak", ".cpp", ".hidden.cpp", "foo", "foo.", "..cpp",
        "x.cpp.", "plain.c", "main.mm", "CMakeLists.txt", ".", "a..cpp",
    ];
    let exts = ["cpp", "", "mm", "c", "txt", "bak"];
    for name in names {
        for ext in exts {
            let expected = Path::new(name).extension().and_then(|e| e.to_str()) == Some(ext);
            assert_eq!(has_extension(name, ext), expected, "name {:?} ext {:?}", name, ext);
        }
    }
}
