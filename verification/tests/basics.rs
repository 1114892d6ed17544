//! Texts, paths, lists and the other small parts.

use luksbox_gui::clock::{now_unix, timestamp};
use luksbox_gui::devices::{
    fido2_salt_conventions, pre_check_fido2, pre_check_sep, pre_check_tpm, reselect_device,
    selected_fido2_device, set_selected_fido2_device, Device, SelectedDevice,
};
use luksbox_gui::host::{
    candidates, drive_roots, find_free_windows_drive_letter, looks_like_font, opener_candidates,
    resolved_default_app_opener, wants_font,
};
use luksbox_gui::icon::{decode_icon, icon_or_blank};
use luksbox_gui::kinds::{
    bad_kem, cipher_label, cipher_variant, pq_params, pq_params_name, pq_params_or_768,
    CipherSuite, KdfStrength, Platform, PqParams, SepFactors, SlotKind, TargetOs,
};
use luksbox_gui::passgen::{draw_chars, generate_passphrase_with, take_block, PassgenOpts};
use luksbox_gui::paths::{
    format_size, home, join_path, parent_path, shorten_middle, split_parent_name, usb,
};
use luksbox_gui::preferences::{
    answer_clipboard_warning, route_copy, CopyRoute, Preferences, WarningAnswer,
};
use luksbox_gui::recent::{forget, forget_marked, upsert, upsert_marked, RecentVault, MAX_RECENT};
use luksbox_gui::sidecar::{
    append_entry, find_entry, merge_entry, relabel_entries, rollback_sidecar, HybridEntry,
    SidecarFix,
};
use luksbox_gui::strength::{
    passphrase_strength, pieces, strength_label, strength_line, strongest, Strength,
};
use luksbox_gui::text::{decimal_text, is_white, trimmed};

#[test]
fn white_space_is_trimmed_as_unicode_has_it() {
    for c in 0u32..0x11_0000 {
        if let Some(c) = char::from_u32(c) {
            assert_eq!(is_white(c), c.is_whitespace());
        }
    }
    assert_eq!(trimmed(" \t a b\u{3000}\n"), "a b");
    assert_eq!(trimmed(&trimmed("  x ")), "x");
    assert_eq!(trimmed(" \n "), "");
}

#[test]
fn numbers_are_written_in_decimal() {
    for n in [0, 7, 10, 20_480, u64::MAX] {
        assert_eq!(decimal_text(n), format!("{n}"));
    }
}

#[test]
fn vault_paths_go_up_and_down() {
    assert_eq!(parent_path("/"), "/");
    assert_eq!(parent_path("/a"), "/");
    assert_eq!(parent_path("/a/b"), "/a");
    assert_eq!(parent_path("/a/b/"), "/a");
    assert_eq!(parent_path("a"), "/");
    assert_eq!(join_path("/", "a"), "/a");
    assert_eq!(join_path("/a", "b"), "/a/b");
    assert_eq!(parent_path(&join_path("/a/b", "c")), "/a/b");
    assert_eq!(split_parent_name("/a/b/c"), Ok(("a/b".to_string(), "c".to_string())));
    assert_eq!(split_parent_name("c"), Ok((String::new(), "c".to_string())));
    assert_eq!(split_parent_name("//"), Err("empty path".to_string()));
}

#[test]
fn long_texts_lose_their_middle() {
    assert_eq!(shorten_middle("abcdef", 6), "abcdef");
    assert_eq!(shorten_middle("abcdefghij", 8), "abc...ij");
    assert_eq!(shorten_middle("abcdefghij", 3), "...");
    assert_eq!(shorten_middle("abcdefghij", 2), "..");
    assert_eq!(shorten_middle("äöüßéèêë", 7), "äö...êë");
}

#[test]
fn sizes_are_shown_as_the_formatter_rounds_them() {
    let shown = |b: u64| {
        let f = b as f64;
        if b < 1024 {
            format!("{b} B")
        } else if b < 1 << 20 {
            format!("{:.1} KB", f / 1024.0)
        } else if b < 1 << 30 {
            format!("{:.1} MB", f / (1u64 << 20) as f64)
        } else if b < 1 << 40 {
            format!("{:.1} GB", f / (1u64 << 30) as f64)
        } else {
            format!("{:.1} TB", f / (1u64 << 40) as f64)
        }
    };
    let mut b: u64 = 1;
    for i in 0u64..20_000 {
        b = b.wrapping_mul(6_364_136_223_846_793_005).wrapping_add(1_442_695_040_888_963_407);
        for n in [i * 51, b >> (i % 64), u64::MAX - i] {
            assert_eq!(format_size(n), shown(n), "{n}");
        }
    }
    assert_eq!(format_size(1023), "1023 B");
    assert_eq!(format_size(1536), "1.5 KB");
    assert_eq!(format_size(1_048_575), "1024.0 KB");
    assert_eq!(format_size(u64::MAX), "16777216.0 TB");
}

#[test]
fn example_paths_follow_the_system() {
    assert_eq!(home("v.lbx", TargetOs::Linux), "/home/you/v.lbx");
    assert_eq!(home("v.lbx", TargetOs::Macos), "/Users/you/v.lbx");
    assert_eq!(home("v.lbx", TargetOs::Windows), "C:\\Users\\you\\v.lbx");
    assert_eq!(usb("v.hdr", TargetOs::Linux), "/media/usb/v.hdr");
    assert_eq!(usb("v.hdr", TargetOs::Macos), "/Volumes/USB/v.hdr");
    assert_eq!(usb("v.hdr", TargetOs::Windows), "D:\\v.hdr");
}

#[test]
fn only_absolute_openers_are_tried() {
    let c = opener_candidates(TargetOs::Linux, None);
    assert_eq!(c, vec!["/usr/bin/xdg-open", "/bin/xdg-open", "/usr/local/bin/xdg-open"]);
    assert_eq!(
        resolved_default_app_opener(&c, &vec![false, true, true]),
        Some("/bin/xdg-open".to_string())
    );
    assert_eq!(resolved_default_app_opener(&c, &vec![false, false, false]), None);
    assert_eq!(opener_candidates(TargetOs::Windows, None), vec!["C:\\Windows\\explorer.exe"]);
    assert_eq!(
        opener_candidates(TargetOs::Windows, Some("D:\\W\\explorer.exe")),
        vec!["D:\\W\\explorer.exe"]
    );
    assert!(opener_candidates(TargetOs::Other, None).is_empty());
}

#[test]
fn drive_letters_run_from_z_to_e() {
    let roots = drive_roots();
    assert_eq!(roots.len(), 22);
    assert_eq!(roots[0], "Z:\\");
    assert_eq!(roots[21], "E:\\");
    let mut taken = vec![true; 22];
    assert_eq!(find_free_windows_drive_letter(&taken), None);
    taken[2] = false;
    taken[5] = false;
    assert_eq!(find_free_windows_drive_letter(&taken), Some("X:".to_string()));
}

#[test]
fn fonts_are_recognised_by_their_first_bytes() {
    assert!(looks_like_font(&[0, 1, 0, 0, 9]));
    assert!(looks_like_font(b"OTTO...."));
    assert!(looks_like_font(b"ttcf"));
    assert!(looks_like_font(b"true"));
    assert!(!looks_like_font(b"ttc"));
    assert!(!looks_like_font(b"<svg xmlns"));
    let c = candidates(TargetOs::Windows, "C:\\Windows\\Fonts");
    assert_eq!(c[0].path, "C:\\Windows\\Fonts\\msyh.ttc");
    assert_eq!(c[1].name, "sys-hangul");
    assert!(wants_font(&c, &vec![true], 1));
    let c = candidates(TargetOs::Linux, "");
    assert_eq!(c.len(), 6);
    assert!(!wants_font(&c, &vec![true], 1));
    assert!(wants_font(&c, &vec![false, false], 2));
}

#[test]
fn icons_are_decoded() {
    let pixels = vec![1u8, 2, 3, 255, 9, 8, 7, 255];
    let img = image::RgbaImage::from_raw(2, 1, pixels.clone()).unwrap();
    let mut file = std::io::Cursor::new(Vec::new());
    img.write_to(&mut file, image::ImageFormat::Png).unwrap();
    let icon = decode_icon(file.get_ref());
    assert_eq!((icon.rgba, icon.width, icon.height), (pixels, 2, 1));
    let bitmap = b"BM:\0\0\0\0\0\0\x006\0\0\0(\0\0\0\x01\0\0\0\x01\0\0\0\x01\0\x18\0\0\0\0\0\x04\0\0\0\0\0\0\0\0\0\0\0\0\0\0\0\0\0\0\0\x07\x08\x09\0";
    assert_eq!(decode_icon(bitmap).rgba, vec![0, 0, 0, 0]);
    let blank = decode_icon(b"no image");
    assert_eq!((blank.rgba, blank.width, blank.height), (vec![0, 0, 0, 0], 1, 1));
    assert_eq!(icon_or_blank(Some((vec![5, 5, 5, 5], 1, 1))).rgba, vec![5, 5, 5, 5]);
}

#[test]
fn timestamps_count_from_the_epoch() {
    assert_eq!(timestamp(None), 0);
    assert_eq!(timestamp(Some(1_700_000_000)), 1_700_000_000);
    assert_eq!(timestamp(Some(u64::MAX)), -1);
    assert!(now_unix() > 1_600_000_000);
}

fn entry(path: &str) -> RecentVault {
    RecentVault {
        path: path.to_string(),
        header_path: None,
        anchor_path: None,
        last_opened: Some(1),
        cipher: "AES-256-GCM-SIV".to_string(),
        has_fido2: false,
        has_hybrid_pq: false,
        has_tpm: false,
    }
}

fn paths_of(list: &[RecentVault]) -> Vec<&str> {
    list.iter().map(|e| e.path.as_str()).collect()
}

#[test]
fn the_last_opened_vault_comes_first() {
    let list = upsert(vec![entry("/a"), entry("/b"), entry("/c")], entry("/b"));
    assert_eq!(paths_of(&list), ["/b", "/a", "/c"]);
    // Another spelling of the same path takes its place.
    let list = upsert(list, entry("//c/."));
    assert_eq!(paths_of(&list), ["//c/.", "/b", "/a"]);
    let list = forget(list, "/c");
    assert_eq!(paths_of(&list), ["/b", "/a"]);
    let list = forget(list, "/nowhere");
    assert_eq!(paths_of(&list), ["/b", "/a"]);
}

#[test]
fn what_names_the_same_vault_gives_way() {
    let list = || vec![entry("C:\\A"), entry("/b"), entry("c:/a")];
    let marks = vec![true, false, true];
    assert_eq!(paths_of(&forget_marked(list(), &marks)), ["/b"]);
    assert_eq!(paths_of(&upsert_marked(list(), &marks, entry("C:/A"))), ["C:/A", "/b"]);
    let none = vec![false, false, false];
    assert_eq!(paths_of(&forget_marked(list(), &none)), ["C:\\A", "/b", "c:/a"]);
    // Whatever was put in again is there once.
    let again = upsert(upsert(list(), entry("/b")), entry("/b"));
    assert_eq!(paths_of(&again), ["/b", "C:\\A", "c:/a"]);
}

#[test]
fn the_recent_list_is_limited() {
    let mut list = Vec::new();
    for i in 0..30 {
        list = upsert(list, entry(&format!("/v{i}")));
    }
    assert_eq!(list.len(), MAX_RECENT);
    assert_eq!(list[0].path, "/v29");
    assert_eq!(list[19].path, "/v10");
}

#[test]
fn the_clipboard_warning_is_shown_until_accepted() {
    let prefs = Preferences::default();
    assert_eq!(route_copy(&prefs), CopyRoute::Warn);
    let o = answer_clipboard_warning(prefs, WarningAnswer::Cancelled);
    assert!(!o.copy && !o.save && o.close && !o.prefs.clipboard_warning_acknowledged);
    let o = answer_clipboard_warning(prefs, WarningAnswer::Open);
    assert!(!o.copy && !o.close);
    let o = answer_clipboard_warning(prefs, WarningAnswer::Acknowledged);
    assert!(o.copy && o.save && o.close);
    assert_eq!(route_copy(&o.prefs), CopyRoute::Copy);
}

#[test]
fn strengths_follow_the_estimate() {
    assert_eq!(passphrase_strength(""), Strength { score: 0, guesses: 1 });
    let weak = passphrase_strength("password");
    assert_eq!(weak.score, 0);
    let long = passphrase_strength("vT4#qe!Mz9-hP2.wK7;uR");
    assert_eq!(long.score, 4);
    assert!(long.guesses > weak.guesses);
    let longer = passphrase_strength(&"aa;Q7x9".repeat(40));
    assert_eq!(longer.score, 4);
    let part = passphrase_strength("vT4#qe!Mz9-hP2.wK7;u");
    assert_eq!(long, part);
    assert_eq!(strongest(&vec![weak, part, weak]), part);
    for text in ["a", "Q", "~", "ab", "2026", "zq%7", "correct"] {
        let n = text.chars().count() as u32;
        let s = passphrase_strength(text);
        let most = if n == 1 { 12 } else { 10u64.pow(n) + 1 };
        assert!(2 <= s.guesses && s.guesses <= most, "{text}");
    }
    assert_eq!(strength_label(2), "okay");
    assert_eq!(strength_line("a", 0), "very weak  ·  1 char");
    assert_eq!(strength_line("äöü", 4), "very strong  ·  3 chars");
}

#[test]
fn long_texts_are_cut_into_pieces() {
    assert_eq!(pieces(""), [""]);
    assert_eq!(pieces("äöü"), ["äöü"]);
    let n = if usize::MAX > 0xffff_ffff { 20 } else { 12 };
    let text: String = ('a'..='z').chain('A'..='Z').collect();
    let cut = pieces(&text);
    assert!(cut[..cut.len() - 1].iter().all(|p| p.len() == n));
    assert!(cut[cut.len() - 1].len() <= n);
    assert_eq!(cut.concat(), text);
}

#[test]
fn passphrases_are_drawn_from_the_alphabet() {
    let o = PassgenOpts { length: 40, lowercase: false, uppercase: false, digits: true, symbols: false };
    assert_eq!(o.charset(), b"23456789".to_vec());
    let s = generate_passphrase_with(&o).unwrap();
    assert_eq!(s.len(), 40);
    assert!(s.chars().all(|c| ('2'..='9').contains(&c)));
    assert_ne!(s, generate_passphrase_with(&o).unwrap());
    let bad = PassgenOpts { length: 3, ..o };
    assert!(!bad.is_valid());
    assert_eq!(generate_passphrase_with(&bad).unwrap().chars().count(), 20);
    let all = PassgenOpts::default();
    assert_eq!(all.charset().len(), 74);
    for c in b"0O1lI" {
        assert!(!all.charset().contains(c));
    }
}

#[test]
fn biased_bytes_are_rejected() {
    let charset = b"abc".to_vec();
    // 255 is the one byte value beyond the last multiple of three.
    assert_eq!(draw_chars(&charset, &[0, 255, 4, 254], "x".to_string(), 4), "xabc");
    assert_eq!(draw_chars(&charset, &[0, 1, 2], "x".to_string(), 2), "xa");
    // A divisor of 256 rejects nothing.
    assert_eq!(draw_chars(&b"ab".to_vec(), &[255, 254], String::new(), 9), "ba");
}

#[test]
fn a_block_adds_what_is_missing() {
    let o = PassgenOpts { length: 6, lowercase: false, uppercase: false, digits: true, symbols: false };
    let mut block = [0u8; 64];
    block[1] = 7;
    block[2] = 9;
    assert_eq!(take_block(&o, "34".to_string(), Some(block)), Some("342932".to_string()));
    assert_eq!(take_block(&o, "34".to_string(), None), None);
    // Invalid options give way to the default ones: 222 is beyond the last
    // multiple of 74.
    let bad = PassgenOpts { length: 3, ..o };
    let mut block = [255u8; 64];
    block[63] = 73;
    block[0] = 222;
    assert_eq!(take_block(&bad, String::new(), Some(block)), Some(":".to_string()));
}

fn hybrid(slot_idx: u8, key: u8) -> HybridEntry {
    HybridEntry { slot_idx, level: PqParams::Ml768, pubkey: vec![key], ciphertext: vec![] }
}

fn slots_of(entries: &[HybridEntry]) -> Vec<(u8, u8)> {
    entries.iter().map(|e| (e.slot_idx, e.pubkey[0])).collect()
}

#[test]
fn sidecar_entries_are_kept_by_slot() {
    let e = merge_entry(vec![hybrid(1, 10), hybrid(2, 20)], hybrid(1, 11));
    assert_eq!(slots_of(&e), [(2, 20), (1, 11)]);
    assert_eq!(find_entry(&e, 1), Some(1));
    assert_eq!(find_entry(&e, 7), None);
    let e = append_entry(e, hybrid(3, 30));
    assert_eq!(slots_of(&e), [(2, 20), (1, 11), (3, 30)]);
    let e = relabel_entries(e, 3);
    assert_eq!(slots_of(&e), [(2, 20), (1, 11), (0, 30)]);
    assert_eq!(rollback_sidecar(&e), SidecarFix::Rewrite);
    assert_eq!(rollback_sidecar(&vec![]), SidecarFix::Delete);
}

#[test]
fn the_selected_authenticator_is_kept() {
    let mut cell = SelectedDevice { path: None };
    assert_eq!(selected_fido2_device(&cell), None);
    set_selected_fido2_device(&mut cell, Some("/dev/hidraw1".to_string()));
    assert_eq!(selected_fido2_device(&cell), Some("/dev/hidraw1".to_string()));
    let device = |p: &str| Device { path: p.to_string(), label: String::new() };
    let found = vec![device("/dev/hidraw0"), device("/dev/hidraw1")];
    assert_eq!(reselect_device(&found, Some("/dev/hidraw1")), Some(1));
    assert_eq!(reselect_device(&found, Some("/dev/hidraw9")), Some(0));
    assert_eq!(reselect_device(&found, None), Some(0));
    assert_eq!(reselect_device(&vec![], Some("/dev/hidraw1")), None);
}

#[test]
fn both_salt_conventions_are_tried_on_windows() {
    assert_eq!(fido2_salt_conventions(true, TargetOs::Windows), [true, false]);
    assert_eq!(fido2_salt_conventions(false, TargetOs::Windows), [false, true]);
    assert_eq!(fido2_salt_conventions(true, TargetOs::Linux), [true]);
}

#[test]
fn hardware_is_checked_before_a_flow_starts() {
    let with = Platform { os: TargetOs::Linux, hardware: true };
    let without = Platform { os: TargetOs::Linux, hardware: false };
    assert_eq!(pre_check_tpm(with, Ok(())), Ok(()));
    assert!(pre_check_tpm(with, Err("busy".to_string())).unwrap_err().ends_with("\n\nbusy"));
    assert_eq!(
        pre_check_tpm(without, Ok(())),
        Err("TPM 2.0 hardware support not compiled in".to_string())
    );
    assert_eq!(pre_check_sep(with, Ok(())), Ok(()));
    assert!(pre_check_sep(with, Err("none".to_string())).unwrap_err().ends_with("\n\nnone"));
    assert!(pre_check_sep(without, Ok(())).is_err());
    assert_eq!(pre_check_fido2(with, 1), Ok(()));
    assert!(pre_check_fido2(with, 0).unwrap_err().starts_with("No FIDO2 authenticator detected."));
    assert!(pre_check_fido2(without, 1).is_err());
}

#[test]
fn kinds_have_names() {
    assert_eq!(cipher_label(CipherSuite::ChaCha20Poly1305), "ChaCha20-Poly1305");
    assert_eq!(cipher_variant(CipherSuite::Aes256GcmSiv), "Aes256GcmSiv");
    assert_eq!(pq_params(768), Some(PqParams::Ml768));
    assert_eq!(pq_params(512), None);
    assert_eq!(pq_params_or_768(1024), PqParams::Ml1024);
    assert_eq!(pq_params_or_768(0), PqParams::Ml768);
    assert_eq!(pq_params_name(PqParams::Ml1024), "Ml1024");
    assert_eq!(bad_kem(512), "unsupported ML-KEM size 512 (use 768 or 1024)");
    assert!(KdfStrength::Moderate.label().starts_with("Moderate"));
    assert_eq!(
        SepFactors::Fido2.slot_kind(Some(1024)),
        Ok(SlotKind::HybridPqKem1024SepFido2)
    );
    assert_eq!(SepFactors::Passphrase.slot_kind(None), Ok(SlotKind::SepPassphrase));
    assert!(SepFactors::Passphrase.slot_kind(Some(1)).is_err());
}
