use xpm::ui::get_local_package_info;
use xpm::window::{append_to_window, window_tail};

fn by_std(combined: &str) -> &str {
    if combined.len() > 65536 {
        let mut cut = combined.len() - 65536;
        while !combined.is_char_boundary(cut) {
            cut += 1;
        }
        &combined[cut..]
    } else {
        combined
    }
}

#[test]
fn a_short_text_is_all_in_the_window() {
    assert_eq!(window_tail(""), "");
    assert_eq!(window_tail("hello\n"), "hello\n");
    assert_eq!(append_to_window("abc", "def"), "abcdef");
    assert_eq!(append_to_window("", ""), "");
    let full = "x".repeat(65536);
    assert_eq!(window_tail(&full), full);
}

#[test]
fn a_long_text_keeps_its_last_64_kib() {
    let text = format!("{}{}", "a".repeat(10), "b".repeat(65536));
    assert_eq!(window_tail(&text), "b".repeat(65536));
    let grown = append_to_window(&"a".repeat(65536), "tail");
    assert_eq!(grown.len(), 65536);
    assert!(grown.ends_with("aaaatail"));
    assert!(grown.starts_with("aaaa"));
}

#[test]
fn the_window_starts_at_a_whole_character() {
    let text = format!("é{}", "b".repeat(65535));
    assert_eq!(text.len(), 65537);
    assert_eq!(window_tail(&text), "b".repeat(65535));
    let text = format!("a€{}", "b".repeat(65534));
    assert_eq!(window_tail(&text), "b".repeat(65534));
    let text = format!("{}\u{1f600}", "b".repeat(65535));
    assert_eq!(window_tail(&text).len(), 65536);
    let tail = format!("{}é", "é".repeat(32768));
    assert_eq!(window_tail(&tail), "é".repeat(32768));
}

#[test]
fn the_window_agrees_with_slicing_at_a_boundary() {
    for lead in ["", "a", "é", "€", "\u{1f600}", "aé€\u{1f600}"] {
        for pad in 65530..65540usize {
            for fill in ["b", "é", "€"] {
                let text = format!("{}{}", lead, fill.repeat(pad / fill.len()));
                assert_eq!(window_tail(&text), by_std(&text));
                assert_eq!(append_to_window(lead, &text), by_std(&format!("{}{}", lead, text)));
            }
        }
    }
}

#[test]
fn a_local_package_is_found_by_its_path() {
    let row = get_local_package_info("/var/cache/pkg/tool-2.0-1-any.pkg.tar.zst", true, Some(2048)).unwrap();
    assert_eq!(row.name, "tool");
    assert_eq!(row.version, "2.0-1");
    assert_eq!(row.description, "Local package: tool-2.0-1-any.pkg.tar.zst");
    assert_eq!(row.installed_size, "2.0 KB");
    assert!(get_local_package_info("/var/cache/pkg/tool-2.0-1-any.pkg.tar.zst", false, Some(2048)).is_none());
    assert!(get_local_package_info("/var/cache/pkg/notes.txt", true, None).is_none());
    assert!(get_local_package_info("/var/cache/pkg/..", true, None).is_none());
    assert!(get_local_package_info("/", true, None).is_none());
    let dir = get_local_package_info("dir.pkg.tar/", true, None).unwrap();
    assert_eq!(dir.name, "dir");
    assert_eq!(dir.installed_size, "Unknown");
}
