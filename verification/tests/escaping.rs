use rsmedia::filter::{escape_filter_expr, escape_filter_graph_str, escape_filter_option, escape_filter_str};

#[test]
fn test_escape_filter_str() {
    assert_eq!(escape_filter_str(""), "", "Empty string should return empty string");
    assert_eq!(escape_filter_str("normal text"), "normal\\ text", "Spaces are also escaped by av_escape");
    assert_eq!(
        escape_filter_str("text with [brackets]"),
        "text\\ with\\ \\[brackets\\]",
        "Brackets should be escaped and spaces too"
    );
    assert_eq!(
        escape_filter_str("file:///path/to/video.mp4"),
        "file\\:///path/to/video.mp4",
        "Single-level (option) escaping escapes the colon"
    );
    let input = "filter=value,'text',[in],[out],key=val;next:filter\\backslash";
    let expected = "filter\\=value\\,\\'text\\'\\,\\[in\\]\\,\\[out\\]\\,key\\=val\\;next\\:filter\\\\backslash";
    assert_eq!(escape_filter_str(input), expected, "All special characters should be escaped");
    assert_eq!(
        escape_filter_str("already\\escaped"),
        "already\\\\escaped",
        "Backslashes should be escaped even if they're escaping something else"
    );
    let complex_filter = "drawtext=text='Hello, World!':x=10:y=10";
    let expected = "drawtext\\=text\\=\\'Hello\\,\\ World!\\'\\:x\\=10\\:y\\=10";
    assert_eq!(escape_filter_str(complex_filter), expected, "Complex filter string should be properly escaped");
    assert_eq!(escape_filter_str("Warning!"), "Warning!", "Exclamation marks should be escaped");

    let unicode_result = escape_filter_str("Unicode: こんにちは");
    assert!(unicode_result.contains("Unicode"), "Result should contain the word 'Unicode'");
    assert!(unicode_result.contains("こんにちは"), "Result should contain the Japanese characters");

    let unicode_special_result = escape_filter_str("Unicode: こんにちは[世界]");
    assert!(
        unicode_special_result.contains("\\[") && unicode_special_result.contains("\\]"),
        "Unicode string with special characters should have brackets escaped"
    );

    let long_string = "x".repeat(1000) + "=[]:";
    let long_result = escape_filter_str(&long_string);
    assert!(
        long_result.ends_with("\\=\\[\\]\\:"),
        "Long strings should have special characters at the end properly escaped"
    );
}

#[test]
fn test_escape_filter_option_two_levels() {
    for plain in ["lanczos", "send_frame", "black@0.5", "16/9"] {
        assert_eq!(escape_filter_option(plain), plain, "plain value changed");
    }

    let path = escape_filter_option("file:///path/to/video.mp4");
    assert!(path.starts_with(r"file\\"), "option-level backslash must be escaped for the graph level: {path}");
    assert!(path.contains(r"\:"), "colon must stay escaped after graph-level escaping: {path}");

    let tricky = escape_filter_option("/tmp/a,b;c[d].mp4");
    for ch in [',', ';', '[', ']'] {
        assert!(tricky.contains(&format!("\\{ch}")), "{ch} must be escaped for the graph level: {tricky}");
    }
}

#[test]
fn test_real_world_filter_strings() {
    assert_eq!(
        escape_filter_str("scale=width=1280:height=720"),
        "scale\\=width\\=1280\\:height\\=720",
        "Scale filter string should be properly escaped"
    );
    assert_eq!(
        escape_filter_str("overlay=x=10:y=10"),
        "overlay\\=x\\=10\\:y\\=10",
        "Overlay filter string should be properly escaped"
    );
    let drawtext = "drawtext=text='Copyright © 2023':fontcolor=white:fontsize=24:box=1:boxcolor=black@0.5:x=(w-text_w)/2:y=h-th-10";
    let drawtext_result = escape_filter_str(drawtext);
    assert!(drawtext_result.contains("drawtext\\="), "Result should contain escaped filter name");
    assert!(drawtext_result.contains("text\\=\\'"), "Result should contain escaped parameter text");
    assert!(drawtext_result.contains("Copyright"), "Result should preserve the copyright text");
    assert!(drawtext_result.contains("\\:fontcolor\\="), "Result should escape colon and equals sign");
    assert_eq!(
        escape_filter_str("[in1][in2]overlay=format=rgb[out]"),
        "\\[in1\\]\\[in2\\]overlay\\=format\\=rgb\\[out\\]",
        "Filter with pad names should be properly escaped"
    );
}

#[test]
fn test_escape_filter_expr() {
    assert_eq!(escape_filter_expr("%{localtime}"), "%{localtime}", "Time expansion block should be preserved");
    assert_eq!(
        escape_filter_expr("T %{pts:hms}"),
        "T\\ %{pts:hms}",
        "Surrounding text should be escaped but block preserved"
    );
    assert_eq!(
        escape_filter_expr("%{frame_num}/%{n}"),
        "%{frame_num}/%{n}",
        "Multiple expansion blocks should be preserved"
    );
    assert_eq!(
        escape_filter_expr("plain: text"),
        escape_filter_str("plain: text"),
        "Without expansion blocks it should match plain escaping"
    );
}

#[test]
fn nul_characters_are_dropped_without_escaping() {
    assert_eq!(escape_filter_str("a\0:b"), "a:b");
    assert_eq!(escape_filter_graph_str("[x]\0"), "[x]");
}

#[test]
fn graph_level_escapes_only_edge_whitespace() {
    assert_eq!(escape_filter_graph_str(" a b "), "\\ a b\\ ");
    assert_eq!(escape_filter_graph_str("a:b=c"), "a:b=c");
    assert_eq!(escape_filter_graph_str("x[1],y;z"), "x\\[1\\]\\,y\\;z");
    assert_eq!(escape_filter_option("a b"), "a\\\\ b");
}

#[test]
fn unclosed_expansion_block_is_escaped() {
    assert_eq!(escape_filter_expr("a %{b"), "a\\ %\\{b");
    assert_eq!(escape_filter_expr("%{a}:%{b"), "%{a}\\:%\\{b");
}

#[test]
fn expression_blocks_split_the_text() {
    let (a, b, rest) = ("size: [a,b]", "pts\\:hms", "x, y%{eif:n:d} z");
    let whole = format!("{a}%{{{b}}}{rest}");
    assert_eq!(
        escape_filter_expr(&whole),
        format!("{}%{{{b}}}{}", escape_filter_str(a), escape_filter_expr(rest))
    );
    let unclosed = format!("{a}%{{{b}");
    assert_eq!(
        escape_filter_expr(&unclosed),
        format!("{}{}", escape_filter_str(a), escape_filter_str(&format!("%{{{b}")))
    );
}
