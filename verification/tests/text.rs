use zdownload::text::{chars_of, contains, joined, same_text};

#[test]
fn chars_of_keeps_every_character_in_order() {
    assert_eq!(chars_of("a视b"), vec!['a', '视', 'b']);
    assert_eq!(chars_of(""), Vec::<char>::new());
}

#[test]
fn contains_finds_a_run_anywhere() {
    assert!(contains("https://www.youtube.com/watch?v=1", "youtube.com"));
    assert!(contains("youtu.be", "youtu.be"));
    assert!(contains("xxyoutu.be", "youtu.be"));
    assert!(contains("youtu.bexx", "youtu.be"));
    assert!(!contains("youtu.b", "youtu.be"));
    assert!(!contains("you.tube.com", "youtube.com"));
}

#[test]
fn contains_agrees_with_std_on_edge_cases() {
    let cases = [("", ""), ("abc", ""), ("", "a"), ("aab", "ab"), ("视频下载", "频下"), ("视频", "下")];
    for (hay, needle) in cases {
        assert_eq!(contains(hay, needle), hay.contains(needle), "{hay:?} {needle:?}");
    }
}

#[test]
fn same_text_compares_characters() {
    assert!(same_text("best", "best"));
    assert!(!same_text("best", "Best"));
    assert!(!same_text("best", "best "));
    assert!(!same_text("", "no"));
    assert!(same_text("", ""));
}

#[test]
fn joined_puts_the_second_after_the_first() {
    assert_eq!(joined("yt-dlp-temp", ".exe"), "yt-dlp-temp.exe");
    assert_eq!(joined("", "x"), "x");
}
