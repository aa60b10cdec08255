use ggrs_plot_operator::memory::{line_rss_kb, rss_bytes, rss_kb_from_status, white_space};

const STATUS: &str = "Name:\tggrs\nVmPeak:\t  200000 kB\nVmRSS:\t   123456 kB\nThreads:\t4\n";

#[test]
fn resident_memory_from_status() {
    assert_eq!(rss_kb_from_status(STATUS), Some(123456));
    assert_eq!(rss_bytes(rss_kb_from_status(STATUS)), 123456 * 1024);
}

#[test]
fn missing_or_unreadable_rss_gives_zero() {
    assert_eq!(rss_kb_from_status("Name:\tx\n"), None);
    assert_eq!(rss_kb_from_status(""), None);
    assert_eq!(rss_bytes(None), 0);
    // An unreadable VmRSS line is skipped in favour of a later readable one.
    assert_eq!(rss_kb_from_status("VmRSS: lots kB\nVmRSS: 12 kB"), Some(12));
    assert_eq!(rss_kb_from_status("VmRSS:\r\nVmRSS:\t+7 kB\r\n"), Some(7));
}

#[test]
fn vmrss_lines() {
    assert_eq!(line_rss_kb("VmRSS:    4 kB"), Some(4));
    assert_eq!(line_rss_kb("VmRSS:4 kB"), None);
    assert_eq!(line_rss_kb("  VmRSS: 4 kB"), None);
    assert_eq!(line_rss_kb("VmRSS:\u{3000}9"), Some(9));
    assert_eq!(line_rss_kb("VmRSS: 18446744073709551615"), Some(u64::MAX));
    assert_eq!(line_rss_kb("VmRSS: 18446744073709551616"), None);
}

#[test]
fn white_space_characters() {
    for c in ['\t', '\n', '\r', ' ', '\u{a0}', '\u{2003}', '\u{3000}'] {
        assert!(white_space(c), "{:?}", c);
        assert_eq!(white_space(c), c.is_whitespace());
    }
    for c in ['a', '0', '\u{200b}', '_'] {
        assert!(!white_space(c));
        assert_eq!(white_space(c), c.is_whitespace());
    }
}
