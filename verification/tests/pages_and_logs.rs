use sunberry::ezlogger::{compose_line, level_tag, EZLogger, Level, Paint};
use sunberry::pages::{
    build_markdown_page, expand_image_placeholders, fallback, image_gallery, md_file_path,
    page_home, page_not_found_text, page_title, render_markdown,
};

fn names(list: &[&str]) -> Vec<String> {
    list.iter().map(|s| s.to_string()).collect()
}

#[test]
fn home_page_name() {
    assert_eq!(page_home().page, "home");
}

#[test]
fn fallback_answer() {
    assert_eq!(fallback(), (404, "Eeeeee?! (Error 404)"));
    assert_eq!(page_not_found_text(), "Page not found, even though status code is 200...");
}

#[test]
fn gallery_tags() {
    let tags = image_gallery("/static/img/naturarchiv/flora/", &names(&["a.jpg", "b.png"]));
    assert_eq!(
        tags,
        "<img src='/static/img/naturarchiv/flora/a.jpg'><img src='/static/img/naturarchiv/flora/b.png'>"
    );
}

#[test]
fn placeholders_expanded_in_order() {
    let listings = vec![names(&["f.jpg"]), names(&[]), names(&["m.jpg"]), names(&[])];
    let out = expand_image_placeholders("A {{flora}} B {{fauna}} C {{funga}} D {{gestein}}", &listings);
    assert_eq!(
        out,
        "A <img src='/static/img/naturarchiv/flora/f.jpg'> B  C <img src='/static/img/naturarchiv/funga/m.jpg'> D "
    );
}

#[test]
fn source_without_placeholders_unchanged() {
    let listings = vec![names(&["f.jpg"]), names(&["x"]), names(&[]), names(&[])];
    assert_eq!(expand_image_placeholders("plain {text}", &listings), "plain {text}");
}

#[test]
fn markdown_page_rendered_with_raw_html() {
    let listings = vec![names(&["a.jpg"]), names(&[]), names(&[]), names(&[])];
    let page = build_markdown_page("flora", "x {{flora}}", &listings);
    assert_eq!(page.page, "flora");
    assert_eq!(page.md_content, "<p>x <img src='/static/img/naturarchiv/flora/a.jpg'></p>");
}

#[test]
fn safe_markdown_escapes_html() {
    assert_eq!(render_markdown("# Hi"), "<h1>Hi</h1>");
    assert_eq!(render_markdown("<b>x</b>"), "<p>&lt;b&gt;x&lt;/b&gt;</p>");
}

#[test]
fn titles_and_paths() {
    assert_eq!(page_title("mein_wander_stein"), "mein wander stein");
    assert_eq!(md_file_path("Best_Practices"), "md/best_practices.md");
}

#[test]
fn level_tags() {
    assert_eq!(level_tag(Level::Trace), ("TRC", Paint::BoldBlack));
    assert_eq!(level_tag(Level::Info), ("INF", Paint::BoldGreen));
    assert_eq!(level_tag(Level::Error), ("ERR", Paint::BoldRed));
}

#[test]
fn logger_levels() {
    let console = EZLogger::for_console();
    assert!(console.enabled(Level::Debug));
    assert!(!console.enabled(Level::Trace));
    let file = EZLogger::for_file();
    assert!(file.enabled(Level::Trace));
    assert!(console.format_record(Level::Trace, "t", "m").is_none());
    let warn_only = EZLogger::with_max_level(Level::Warn);
    assert!(warn_only.enabled(Level::Error));
    assert!(!warn_only.enabled(Level::Info));
}

#[test]
fn log_line_layout() {
    assert_eq!(compose_line("2024-01-01", "INF", "hello"), "2024-01-01 INF hello\n");
    let line = EZLogger::for_file().format_record(Level::Info, "2024-01-01", "hello").unwrap();
    let plain = "2024-01-01 INF hello\n";
    let coloured = "\u{1b}[30m2024-01-01\u{1b}[0m \u{1b}[1;32mINF\u{1b}[0m hello\n";
    assert!(line == plain || line == coloured, "{:?}", line);
}

#[test]
fn log_line_coloured_when_forced() {
    colored::control::set_override(true);
    let line = EZLogger::for_file().format_record(Level::Trace, "12:00", "tick").unwrap();
    assert_eq!(line, "\u{1b}[30m12:00\u{1b}[0m \u{1b}[1;30mTRC\u{1b}[0m tick\n");
    colored::control::set_override(false);
    let line = EZLogger::for_file().format_record(Level::Warn, "12:00", "tock").unwrap();
    assert_eq!(line, "12:00 WRN tock\n");
}
