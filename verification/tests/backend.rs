use cairo_listings::backend::{
    chapter_prefix_from_name, extract_programs, is_default_build, prefix_from_matches,
    process_chapter, process_chapters, program_dirs, program_file_name, tags_in_info, CairoConfig,
    Dir, MarkEvent,
};
use cairo_listings::book::{Book, BookItem, Chapter};
use cairo_listings::tags::{TagSet, Tags};

fn summary(files: &[cairo_listings::backend::Extract]) -> Vec<(Dir, String)> {
    files.iter().map(|f| (f.dir, f.file_name.clone())).collect()
}

#[test]
fn programs_are_taken_out_of_the_code_blocks() {
    let content = "# Title\n\ntext\n\n```rust\nfn main() {\n    let x = 1;\n}\n```\n\nmore\n\n```rust,does_not_run\nfn main() {}\n```\n\n```python\nprint(1)\n```\n\n```rust,ignore_format,test_fails\n#[test]\nfn t() {}\n```\n";
    let files = process_chapter("ch01_02", content);
    assert_eq!(
        summary(&files),
        vec![
            (Dir::Runnable, "ch01_02_1.cairo".to_string()),
            (Dir::Formats, "ch01_02_1.cairo".to_string()),
            (Dir::Compilable, "ch01_02_2.cairo".to_string()),
            (Dir::Formats, "ch01_02_2.cairo".to_string()),
            (Dir::Compilable, "ch01_02_3.cairo".to_string()),
        ]
    );
    assert_eq!(files[0].content, "fn main() {\n    let x = 1;\n}\n");
    assert_eq!(files[4].content, "#[test]\nfn t() {}\n");
}

#[test]
fn contracts_and_tests_have_directories_of_their_own() {
    let content = "```rust\n#[contract]\nmod c {\n    fn main() {}\n    #[test]\n    fn t() {}\n}\n```\n\n```rust,does_not_compile\n#[contract]\nmod d {}\n```\n";
    let files = process_chapter("ch09_01", content);
    assert_eq!(
        summary(&files),
        vec![
            (Dir::Contracts, "ch09_01_1.cairo".to_string()),
            (Dir::Testable, "ch09_01_1.cairo".to_string()),
            (Dir::Formats, "ch09_01_1.cairo".to_string()),
            (Dir::Formats, "ch09_01_2.cairo".to_string()),
        ]
    );
}

#[test]
fn events_decide_what_is_extracted() {
    let events = vec![
        MarkEvent::Text("fn main() {}".to_string()),
        MarkEvent::FencedStart("rust".to_string()),
        MarkEvent::Other,
        MarkEvent::Text("fn main() {}".to_string()),
        MarkEvent::Text("fn other() {}".to_string()),
        MarkEvent::CodeEnd,
        MarkEvent::Text("fn main() {}".to_string()),
        MarkEvent::FencedStart("text".to_string()),
        MarkEvent::Text("fn main() {}".to_string()),
        MarkEvent::CodeEnd,
        MarkEvent::FencedStart("rust does_not_compile ignore_format".to_string()),
        MarkEvent::Text("x".to_string()),
        MarkEvent::CodeEnd,
        MarkEvent::FencedStart("rust".to_string()),
        MarkEvent::Text("y".to_string()),
    ];
    let files = extract_programs("p", &events);
    assert_eq!(
        summary(&files),
        vec![
            (Dir::Runnable, "p_1.cairo".to_string()),
            (Dir::Formats, "p_1.cairo".to_string()),
            (Dir::Compilable, "p_2.cairo".to_string()),
            (Dir::Formats, "p_2.cairo".to_string()),
            (Dir::Compilable, "p_4.cairo".to_string()),
            (Dir::Formats, "p_4.cairo".to_string()),
        ]
    );
    assert!(extract_programs("p", &Vec::new()).is_empty());
}

#[test]
fn directories_of_a_program() {
    let none = TagSet::new();
    assert_eq!(program_dirs("fn main() {}", &none), vec![Dir::Runnable, Dir::Formats]);
    assert_eq!(program_dirs("fn f() {}", &none), vec![Dir::Compilable, Dir::Formats]);
    assert_eq!(program_dirs("#[contract] fn main()", &none), vec![Dir::Contracts, Dir::Formats]);
    assert_eq!(
        program_dirs("#[test] fn t() {}", &none),
        vec![Dir::Compilable, Dir::Testable, Dir::Formats]
    );
    let mut tags = TagSet::new();
    tags.insert(Tags::DoesNotRun);
    assert_eq!(program_dirs("fn main() {}", &tags), vec![Dir::Compilable, Dir::Formats]);
    tags.insert(Tags::DoesNotCompile);
    tags.insert(Tags::FailingTests);
    tags.insert(Tags::IgnoreFormat);
    assert_eq!(program_dirs("fn main() {} #[test]", &tags), Vec::<Dir>::new());
    assert_eq!(program_dirs("#[contract]", &tags), Vec::<Dir>::new());
}

#[test]
fn tags_of_an_info_string() {
    let tags = tags_in_info("rust,does_not_run,test_fails");
    assert!(tags.contains(Tags::DoesNotRun));
    assert!(tags.contains(Tags::FailingTests));
    assert!(!tags.contains(Tags::DoesNotCompile));
    assert!(!tags.contains(Tags::IgnoreFormat));
    assert!(tags_in_info("rust").is_empty());
    assert!(tags_in_info("xdoes_not_compilex").contains(Tags::DoesNotCompile));
}

#[test]
fn file_names_and_directories() {
    assert_eq!(program_file_name("ch01_02", 1), "ch01_02_1.cairo");
    assert_eq!(program_file_name("ch10_00", 123), "ch10_00_123.cairo");
    assert_eq!(Dir::Compilable.name(), "compilable");
    assert_eq!(Dir::Runnable.name(), "runnable");
    assert_eq!(Dir::Testable.name(), "testable");
    assert_eq!(Dir::Contracts.name(), "contracts");
    assert_eq!(Dir::Formats.name(), "formats");
    assert_eq!(CairoConfig::default().output_dir, "");
}

#[test]
fn chapter_prefix_comes_from_the_file_name() {
    let chapter = Chapter::new("C", String::new(), "ch02-05-control-flow.md", Vec::new());
    assert_eq!(chapter_prefix_from_name(&chapter), Some("ch02_05".to_string()));
    let chapter = Chapter::new("C", String::new(), "appendix-01.md", Vec::new());
    assert_eq!(chapter_prefix_from_name(&chapter), None);
    let chapter = Chapter::new("C", String::new(), "ch2-05-x.md", Vec::new());
    assert_eq!(chapter_prefix_from_name(&chapter), None);
    let mut chapter = Chapter::new("C", String::new(), "ch02-05-x.md", Vec::new());
    chapter.path = None;
    assert_eq!(chapter_prefix_from_name(&chapter), None);
}

#[test]
fn programs_of_a_whole_book() {
    let mut book = Book::new();
    book.push_item(Chapter::new("A", "```rust\nfn main() {}\n```\n".to_string(), "ch01-01-a.md", Vec::new()));
    book.sections.push(BookItem::Separator);
    book.push_item(Chapter::new("B", "```rust\nfn main() {}\n```\n".to_string(), "title-page.md", Vec::new()));
    book.push_item(Chapter::new("C", "```rust,ignore_format\nfn f() {}\n```\n".to_string(), "ch03-02-c.md", Vec::new()));
    let files = process_chapters(&book);
    assert_eq!(
        summary(&files),
        vec![
            (Dir::Runnable, "ch01_01_1.cairo".to_string()),
            (Dir::Formats, "ch01_01_1.cairo".to_string()),
            (Dir::Compilable, "ch03_02_1.cairo".to_string()),
        ]
    );
}

#[test]
fn only_the_default_build_is_extracted() {
    assert!(is_default_build("/home/me/book/cairo/html"));
    assert!(!is_default_build("/home/me/book/fr/html"));
    assert!(!is_default_build(""));
}

#[test]
fn prefix_is_made_of_the_first_two_groups() {
    let groups = |v: &[Option<&str>]| -> Vec<Option<String>> {
        v.iter().map(|g| g.map(|s| s.to_string())).collect()
    };
    assert_eq!(prefix_from_matches(&Vec::new()), None);
    assert_eq!(
        prefix_from_matches(&vec![groups(&[Some("ch02-05-x.md"), Some("02"), Some("05"), Some("x.md")])]),
        Some("ch02_05".to_string())
    );
    assert_eq!(prefix_from_matches(&vec![groups(&[Some("w"), Some("02")])]), None);
    assert_eq!(prefix_from_matches(&vec![groups(&[Some("w"), None, Some("05")])]), None);
    assert_eq!(prefix_from_matches(&vec![groups(&[Some("w"), Some("02"), None])]), None);
    assert_eq!(
        prefix_from_matches(&vec![
            groups(&[Some("w"), Some("1"), Some("2")]),
            groups(&[Some("w"), Some("3"), Some("4")])
        ]),
        Some("ch1_2".to_string())
    );
}
