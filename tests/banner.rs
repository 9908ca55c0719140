use ducky::banner::{render_banner, split_lines, BannerCache, Color, StyledLine, TextStyle};
use std::cell::Cell;

fn red() -> TextStyle {
    TextStyle { fg: Some(Color::Red), bold: false, dim: false, reversed: false }
}

fn texts(lines: &[StyledLine]) -> Vec<String> {
    lines.iter().map(|l| l.text.clone()).collect()
}

#[test]
fn split_lines_follows_line_endings() {
    assert_eq!(split_lines("a\r\nb\n"), vec!["a", "b"]);
    assert_eq!(split_lines("a\n\nb"), vec!["a", "", "b"]);
    assert_eq!(split_lines("x\r"), vec!["x\r"]);
    assert_eq!(split_lines("\n"), vec![""]);
    assert!(split_lines("").is_empty());
}

#[test]
fn failed_tool_gives_the_box() {
    let lines = render_banner(None, "Ducky", Color::Red);
    assert_eq!(texts(&lines), vec!["+-------+", "| Ducky |", "+-------+"]);
    assert!(lines.iter().all(|l| l.style == red()));
}

#[test]
fn box_for_every_text() {
    for text in ["", "a", "hello world", "two\nlines", "héllo"] {
        let lines = render_banner(None, text, Color::Blue);
        let border = format!("+{}+", "-".repeat(text.chars().count() + 2));
        assert_eq!(texts(&lines), vec![border.clone(), format!("| {} |", text), border]);
    }
}

#[test]
fn empty_output_gives_the_box() {
    let lines = render_banner(Some(String::new()), "ab", Color::Green);
    assert_eq!(texts(&lines), vec!["+----+", "| ab |", "+----+"]);
}

#[test]
fn output_lines_are_colored() {
    let lines = render_banner(Some(" _ \n|_|\n".to_string()), "x", Color::Rgb(1, 2, 3));
    assert_eq!(texts(&lines), vec![" _ ", "|_|"]);
    let style = TextStyle { fg: Some(Color::Rgb(1, 2, 3)), bold: false, dim: false, reversed: false };
    assert!(lines.iter().all(|l| l.style == style));
}

#[test]
fn cache_miss_then_hit_calls_tool_once() {
    let output = "  ___\n / _ \\\n| (_) |\n";
    let calls = Cell::new(0u32);
    let mut cache = BannerCache::new();
    let first = cache.get_or_render("Ducky", "alligator", Color::Red, |text: &str, font: &str| {
        assert_eq!(text, "Ducky");
        assert_eq!(font, "alligator");
        calls.set(calls.get() + 1);
        Some(output.to_string())
    });
    assert_eq!(texts(&first), vec!["  ___", " / _ \\", "| (_) |"]);
    assert!(first.iter().all(|l| l.style == red()));
    let second = cache.get_or_render("Ducky", "alligator", Color::Red, |_: &str, _: &str| {
        calls.set(calls.get() + 1);
        Some("other".to_string())
    });
    assert_eq!(first, second);
    assert_eq!(calls.get(), 1);
}

#[test]
fn repeated_requests_are_equal() {
    for (text, font, color) in [("a", "f", Color::Red), ("", "", Color::Indexed(7)), ("Ducky", "big", Color::White)] {
        let calls = Cell::new(0u32);
        let mut cache = BannerCache::new();
        let mut get = |cache: &mut BannerCache| {
            cache.get_or_render(text, font, color, |_: &str, _: &str| {
                calls.set(calls.get() + 1);
                None
            })
        };
        let first = get(&mut cache);
        let second = get(&mut cache);
        assert_eq!(first, second);
        assert_eq!(calls.get(), 1);
    }
}

#[test]
fn keys_differ_by_each_field() {
    let calls = Cell::new(0u32);
    let mut cache = BannerCache::new();
    let mut render = |text: &str, font: &str, color: Color| {
        cache.get_or_render(text, font, color, |t: &str, _: &str| {
            calls.set(calls.get() + 1);
            Some(format!("{}\n", t))
        })
    };
    render("a", "f", Color::Red);
    render("b", "f", Color::Red);
    render("a", "g", Color::Red);
    render("a", "f", Color::Blue);
    render("a", "f", Color::Red);
    assert_eq!(calls.get(), 4);
    assert!(cache.lookup("a", "g", Color::Red).is_some());
    assert!(cache.lookup("a", "h", Color::Red).is_none());
}

#[test]
fn failed_tool_result_is_cached() {
    let mut cache = BannerCache::new();
    let first = cache.get_or_render("Hi", "none", Color::Red, |_: &str, _: &str| None);
    assert_eq!(texts(&first), vec!["+----+", "| Hi |", "+----+"]);
    let stored = cache.lookup("Hi", "none", Color::Red).unwrap();
    assert_eq!(stored, first);
}
