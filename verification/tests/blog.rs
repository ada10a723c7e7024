use raydiance::blog::expr::{
    render_display_math, render_inline_math, render_math, unescape_expression, MathError,
};
use raydiance::blog::input::{post_from_dir, sort_posts, Post, PostError};
use raydiance::blog::md::{
    custom_element_source, custom_element_sources, is_custom_element, to_html, unescape_text,
    Element, EventContext, Expansion, ImagePair, ImageSingle, InlineSvg, MdError, Metadata, Video,
};
use raydiance::blog::{commit_short, join_articles, new_post, zero_commit, NewArgs};

#[test]
fn expression_escapes_are_undone() {
    assert_eq!(unescape_expression("a &amp; b"), "a & b");
    assert_eq!(unescape_expression("x\r\ny"), "x\ny");
    assert_eq!(unescape_expression("a \\\nb"), "a \\\\b");
    assert_eq!(unescape_expression("a \\\r\nb"), "a \\\\b");
    assert_eq!(unescape_expression("plain"), "plain");
}

#[test]
fn math_outside_delimiters_is_kept() {
    assert_eq!(render_math("no math here").unwrap(), "no math here");
}

#[test]
fn display_math_is_rendered_between_pairs() {
    let out = render_display_math("before $$x^2$$ after").unwrap();
    assert!(out.starts_with("before "));
    assert!(out.ends_with(" after"));
    assert!(out.contains("katex-display"));
    assert!(!out.contains("$$"));
}

#[test]
fn inline_math_is_rendered_between_pairs() {
    let out = render_inline_math("a $y$ b").unwrap();
    assert!(out.starts_with("a "));
    assert!(out.ends_with(" b"));
    assert!(out.contains("katex"));
    assert!(!out.contains("katex-display"));
}

#[test]
fn render_math_takes_display_then_inline() {
    let out = render_math("$$a$$ and $b$").unwrap();
    assert!(out.contains("katex-display"));
    assert!(out.contains(" and "));
    assert!(!out.contains('$'));
}

#[test]
fn unpaired_delimiters_are_refused() {
    assert!(matches!(render_math("$$x$$ $$y"), Err(MathError::OddDelimiterCount)));
    assert!(matches!(render_math("cost: $5"), Err(MathError::OddDelimiterCount)));
    assert!(matches!(render_inline_math("$a$ $b"), Err(MathError::OddDelimiterCount)));
}

#[test]
fn refused_expressions_are_katex_errors() {
    assert!(matches!(render_math("$$\\notacommand{x}$$"), Err(MathError::Katex(_))));
    assert!(matches!(render_inline_math("$\\frac{1}{$"), Err(MathError::Katex(_))));
}

#[test]
fn caption_line_breaks_are_unescaped() {
    assert_eq!(unescape_text("one{{br}}two{{br}}"), "one<br/>two<br/>");
    assert_eq!(unescape_text("plain"), "plain");
}

#[test]
fn custom_elements_are_recognized() {
    assert!(is_custom_element("{{Meta(())}}"));
    assert!(is_custom_element("{{}}"));
    assert!(!is_custom_element("{{Meta"));
    assert!(!is_custom_element("text}}"));
    assert!(!is_custom_element("{"));
}

#[test]
fn custom_element_source_doubles_backslashes() {
    assert_eq!(custom_element_source("{{Meta((title:\"a\"))}}"), "Meta((title:\"a\"))");
    assert_eq!(custom_element_source("{{x\\y}}"), "x\\\\y");
    assert_eq!(custom_element_source("{{}}"), "");
}

#[test]
fn urls_are_rebased_to_the_post() {
    let ctx = EventContext { dir: "20230101-120000-first".to_string() };
    assert_eq!(ctx.rebase_url("image.png"), "posts/20230101-120000-first/image.png");
}

#[test]
fn elements_are_prepared() {
    let ctx = EventContext { dir: "d".to_string() };
    match ctx.prepare_element(Element::ImageSingle(ImageSingle {
        image: "a.png".to_string(),
        text: "x{{br}}y".to_string(),
    })) {
        Element::ImageSingle(p) => {
            assert_eq!(p.image, "posts/d/a.png");
            assert_eq!(p.text, "x<br/>y");
        },
        _ => panic!("kind changed"),
    }
    match ctx.prepare_element(Element::ImagePair(ImagePair {
        left: "l.png".to_string(),
        left_text: "l{{br}}".to_string(),
        right: "r.png".to_string(),
        right_text: "r".to_string(),
    })) {
        Element::ImagePair(p) => {
            assert_eq!(p.left, "posts/d/l.png");
            assert_eq!(p.left_text, "l<br/>");
            assert_eq!(p.right, "posts/d/r.png");
            assert_eq!(p.right_text, "r");
        },
        _ => panic!("kind changed"),
    }
    match ctx.prepare_element(Element::Video(Video {
        h265: "v.mp4".to_string(),
        vp9: "v.webm".to_string(),
    })) {
        Element::Video(p) => {
            assert_eq!(p.h265, "posts/d/v.mp4");
            assert_eq!(p.vp9, "posts/d/v.webm");
        },
        _ => panic!("kind changed"),
    }
    match ctx.prepare_element(Element::InlineSvg(InlineSvg { svg: "s.svg".to_string() })) {
        Element::InlineSvg(p) => assert_eq!(p.svg, "posts/d/s.svg"),
        _ => panic!("kind changed"),
    }
    match ctx.prepare_element(Element::Meta(Metadata {
        title: "T{{br}}".to_string(),
        commit: "c".to_string(),
    })) {
        Element::Meta(m) => {
            assert_eq!(m.title, "T{{br}}");
            assert_eq!(m.commit, "c");
        },
        _ => panic!("kind changed"),
    }
}

#[test]
fn post_directory_names_are_read() {
    let post = post_from_dir("20230215-093000-my-post", "# Hi".to_string()).unwrap();
    assert_eq!(post.dir_name, "20230215-093000-my-post");
    assert_eq!(post.timestamp, "20230215-093000");
    assert_eq!(post.date, "2023-02-15");
    assert_eq!(post.link_name, "my-post");
    assert_eq!(post.markdown, "# Hi");
}

#[test]
fn short_post_directory_names_are_refused() {
    assert!(matches!(post_from_dir("20230215-093000-", String::new()), Err(PostError::DirNameTooShort)));
    assert!(matches!(post_from_dir("", String::new()), Err(PostError::DirNameTooShort)));
}

fn post(dir: &str) -> Post {
    post_from_dir(dir, String::new()).unwrap()
}

#[test]
fn posts_are_sorted_newest_first() {
    let mut posts = vec![
        post("20220101-000000-b"),
        post("20230101-000000-c"),
        post("20210101-000000-a"),
        post("20230101-000001-d"),
    ];
    sort_posts(&mut posts);
    let names: Vec<&str> = posts.iter().map(|p| p.link_name.as_str()).collect();
    assert_eq!(names, vec!["d", "c", "b", "a"]);
}

#[test]
fn posts_with_one_timestamp_keep_their_order() {
    let mut posts = vec![post("20220101-000000-x"), post("20220101-000000-y"), post("20230101-000000-z")];
    sort_posts(&mut posts);
    let names: Vec<&str> = posts.iter().map(|p| p.link_name.as_str()).collect();
    assert_eq!(names, vec!["z", "x", "y"]);
}

#[test]
fn new_posts_start_with_front_matter() {
    let args = NewArgs { title: "Hello".to_string(), link_name: "hello".to_string() };
    let created = new_post(&args, "20240102-030405");
    assert_eq!(created.dir_name, "20240102-030405-hello");
    assert_eq!(
        created.markdown,
        format!("{{{{Meta((title:\"Hello\", commit:\"{}\"))}}}}", "0".repeat(40))
    );
    assert_eq!(zero_commit(), "0".repeat(40));
}

#[test]
fn articles_are_joined_with_rules() {
    assert_eq!(join_articles(&vec![]), "");
    assert_eq!(join_articles(&vec!["a".to_string()]), "a");
    assert_eq!(join_articles(&vec!["a".to_string(), "b".to_string(), "c".to_string()]), "a<hr>b<hr>c");
}

fn meta(title: &str) -> Expansion {
    Expansion::Meta(Metadata { title: title.to_string(), commit: "c".to_string() })
}

#[test]
fn custom_elements_are_listed_in_order() {
    let md = "{{Meta((title:\"T\", commit:\"c\"))}}\n\nHello {{x}}\n\n{{Video((h265:\"a\", vp9:\"b\"))}}\n";
    assert_eq!(
        custom_element_sources(md),
        vec!["Meta((title:\"T\", commit:\"c\"))".to_string(), "Video((h265:\"a\", vp9:\"b\"))".to_string()]
    );
    assert!(custom_element_sources("no elements").is_empty());
}

#[test]
fn new_post_markdown_reads_back_its_front_matter() {
    let args = NewArgs { title: "Hello".to_string(), link_name: "hello".to_string() };
    let created = new_post(&args, "20240102-030405");
    let zeros = "0".repeat(40);
    assert_eq!(
        custom_element_sources(&created.markdown),
        vec![format!("Meta((title:\"Hello\", commit:\"{zeros}\"))")]
    );
    let (html, front) = to_html(&created.markdown, "d", vec![meta("Hello")]).unwrap();
    assert_eq!(front.title, "Hello");
    assert_eq!(html, "<p></p>\n");
}

#[test]
fn markdown_becomes_html_with_expansions() {
    let md = "{{Meta(())}}\n\nSome *text*.\n\n{{ImageSingle(())}}\n\n![alt](pic.png \"title\")\n";
    let expansions = vec![meta("T"), Expansion::Html("<figure>x</figure>".to_string())];
    let (html, front) = to_html(md, "20230101-000000-post", expansions).unwrap();
    assert_eq!(front.title, "T");
    assert_eq!(
        html,
        "<p></p>\n<p>Some <em>text</em>.</p>\n<p><figure>x</figure></p>\n\
         <p><img src=\"posts/20230101-000000-post/pic.png\" alt=\"alt\" /></p>\n"
    );
}

#[test]
fn the_first_front_matter_wins() {
    let md = "{{a}}\n\n{{b}}\n";
    let (_, front) = to_html(md, "d", vec![meta("first"), meta("second")]).unwrap();
    assert_eq!(front.title, "first");
}

#[test]
fn markdown_errors() {
    assert!(matches!(to_html("plain text", "d", vec![]), Err(MdError::MissingMeta)));
    assert!(matches!(
        to_html("{{a}}\n", "d", vec![Expansion::Html(String::new())]),
        Err(MdError::MissingMeta)
    ));
    assert!(matches!(to_html("{{a}}\n", "d", vec![]), Err(MdError::ExpansionCount)));
    assert!(matches!(to_html("text", "d", vec![meta("t")]), Err(MdError::ExpansionCount)));
}

#[test]
fn short_commits_take_eight_bytes() {
    assert_eq!(commit_short("0123456789abcdef"), "01234567");
    assert_eq!(commit_short("abcdefgh"), "abcdefgh");
}
