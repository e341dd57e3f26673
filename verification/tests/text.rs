use phoenix::fs::shell::handle_command;
use phoenix::safe_alloc::{
    concat2, concat3, contains, copy_from_slice, first_word, push_digits, short_ascii, str_eq,
    string_from_utf8_bytes, to_string, zeroed_vec, SafeWriter, MAX_LEN,
};

#[test]
fn to_string_keeps_short_strings() {
    assert_eq!(to_string("phoenix"), "phoenix");
    assert_eq!(short_ascii("KernelCore"), "KernelCore");
}

#[test]
fn to_string_clips_at_max_len() {
    let long = "x".repeat(300);
    let s = to_string(&long);
    assert_eq!(s.len(), MAX_LEN);
    assert_eq!(s, "x".repeat(128));
}

#[test]
fn concat_joins_and_clips() {
    assert_eq!(concat2("Proxy-", "eth0"), "Proxy-eth0");
    assert_eq!(concat3("EXCEPTION: ", "Breakpoint", " - "), "EXCEPTION: Breakpoint - ");
    let a = "a".repeat(100);
    let b = "b".repeat(100);
    let c = concat2(&a, &b);
    assert_eq!(c.len(), 128);
    assert_eq!(&c[..100], a.as_str());
    assert_eq!(&c[100..], &b[..28]);
}

#[test]
fn str_eq_and_contains() {
    assert!(str_eq("abc", "abc"));
    assert!(!str_eq("abc", "abd"));
    assert!(!str_eq("abc", "ab"));
    assert!(contains("please bypass the lock", "bypass"));
    assert!(!contains("bypas", "bypass"));
    assert!(contains("anything", ""));
}

#[test]
fn first_word_skips_leading_blanks() {
    assert_eq!(first_word("  help me"), "help");
    assert_eq!(first_word("ls"), "ls");
    assert_eq!(first_word("   "), "");
    assert_eq!(first_word(""), "");
}

#[test]
fn zeroed_vec_and_copy() {
    let v = zeroed_vec(1000);
    assert_eq!(v.len(), 1000);
    assert!(v.iter().all(|&b| b == 0));
    let mut dst = [0u8; 3];
    copy_from_slice(&mut dst, &[1, 2, 3]);
    assert_eq!(dst, [1, 2, 3]);
}

#[test]
fn utf8_bytes_become_string_only_when_valid() {
    assert_eq!(string_from_utf8_bytes(b"Genuine".to_vec()), Some(String::from("Genuine")));
    assert_eq!(string_from_utf8_bytes(vec![0xff, 0xfe]), None);
}

#[test]
fn digits_in_hex_and_decimal() {
    let mut s = String::new();
    push_digits(&mut s, 0x8086, 16);
    assert_eq!(s, "8086");
    let mut s = String::new();
    push_digits(&mut s, 0xbeef, 16);
    assert_eq!(s, "beef");
    let mut s = String::new();
    push_digits(&mut s, 0, 10);
    assert_eq!(s, "0");
    let mut s = String::from("n=");
    push_digits(&mut s, 4096, 10);
    assert_eq!(s, "n=4096");
}

#[test]
fn safe_writer_collects_text() {
    let mut w = SafeWriter::new();
    w.write_str("Kernel ");
    w.write_str("ready");
    assert_eq!(w.into_string(), "Kernel ready");
}

#[test]
fn shell_known_commands() {
    assert_eq!(handle_command("help"), "Available: help, clear, info, ls, whoami, exit");
    assert_eq!(handle_command("clear"), "");
    assert_eq!(handle_command("info"), "Phoenix OS v0.1.0 - Cognitive Core Active");
    assert_eq!(handle_command("whoami"), "root@phoenix");
    assert_eq!(handle_command("  ls -la"), "Documents/ System/ PhoenixFS/");
    assert_eq!(handle_command("exit"), "Shutting down shell...");
}

#[test]
fn shell_unknown_and_empty_commands() {
    assert_eq!(handle_command("frobnicate now"), "Unknown command: frobnicate");
    assert_eq!(handle_command("   "), "");
    assert_eq!(handle_command(""), "");
}

#[test]
fn to_string_cuts_on_a_character_boundary() {
    // 127 ASCII bytes then a 3-byte character: the cut at 128 would split it.
    let s = format!("{}€tail", "a".repeat(127));
    let r = to_string(&s);
    assert_eq!(r, "a".repeat(127));
    let s = format!("{}€", "a".repeat(125));
    assert_eq!(to_string(&s), s);
    let c = concat2(&"b".repeat(126), "ééé");
    assert_eq!(c, format!("{}é", "b".repeat(126)));
    let c = concat3("x", &"é".repeat(70), "y");
    assert_eq!(c.len(), 127);
    assert!(c.starts_with('x'));
}
