use veruna::data::Page;
use veruna::pages::{PageReadAction, PageReader, PageTrait};
use veruna::DomainError;

/// A small page store: the main page "1", its child "about" = "2", whose
/// child "team" = "3".
fn store_main() -> Option<Page> {
    Some(Page::from_record(None, "Main".to_string(), "1".to_string()))
}

fn store_child(parent: &str, code: &str) -> Option<Page> {
    match (parent, code) {
        ("1", "about") => Some(Page::from_record(
            Some("about".to_string()),
            "About".to_string(),
            "2".to_string(),
        )),
        ("2", "team") => Some(Page::from_record(
            Some("team".to_string()),
            "Team".to_string(),
            "3".to_string(),
        )),
        _ => None,
    }
}

/// Runs the walk against a store; counts the reads.
fn run(
    nodes: Vec<&str>,
    main: fn() -> Option<Page>,
    child: fn(&str, &str) -> Option<Page>,
) -> (Result<Option<Page>, String>, usize) {
    let nodes: Vec<String> = nodes.into_iter().map(|s| s.to_string()).collect();
    let (mut reader, mut action) = PageReader::start::<Page>(nodes);
    let mut reads = 0;
    loop {
        let answer = match action {
            PageReadAction::ReadWithoutParent => main(),
            PageReadAction::ReadByParent { code, parent } => child(&parent.value, &code),
            PageReadAction::Finish(r) => {
                return (r.map_err(|e| e.message()), reads);
            }
        };
        reads += 1;
        let (r, a) = reader.answer(answer);
        reader = r;
        action = a;
    }
}

#[test]
fn empty_path_reads_the_main_page() {
    let (r, reads) = run(vec![], store_main, store_child);
    let page = r.unwrap().unwrap();
    assert_eq!(page.id(), "1");
    assert_eq!(page.name(), "Main");
    assert_eq!(page.code(), None);
    assert_eq!(reads, 1);
}

#[test]
fn path_walks_the_children() {
    let (r, reads) = run(vec!["about", "team"], store_main, store_child);
    let page = r.unwrap().unwrap();
    assert_eq!(page.id(), "3");
    assert_eq!(page.code(), Some("team".to_string()));
    assert_eq!(reads, 3);
}

#[test]
fn unknown_code_gives_no_page() {
    let (r, reads) = run(vec!["about", "nobody", "team"], store_main, store_child);
    assert!(r.unwrap().is_none());
    assert_eq!(reads, 3);
}

fn no_main() -> Option<Page> {
    None
}

#[test]
fn missing_main_page_is_an_error() {
    let (r, _) = run(vec!["about"], no_main, store_child);
    match r {
        Err(m) => assert_eq!(m, "главная страница не найдена"),
        Ok(_) => panic!("expected the main-page error"),
    }
    let (r, _) = run(vec![], no_main, store_child);
    assert!(r.unwrap().is_none());
}

#[test]
fn first_request_is_the_main_page() {
    let (_reader, action) = PageReader::start::<Page>(vec!["x".to_string()]);
    assert!(matches!(action, PageReadAction::ReadWithoutParent));
}

#[test]
fn child_request_names_code_and_parent() {
    let (reader, _) = PageReader::start::<Page>(vec!["about".to_string()]);
    let (_reader, action) = reader.answer(store_main());
    match action {
        PageReadAction::ReadByParent { code, parent } => {
            assert_eq!(code, "about");
            assert_eq!(parent.value, "1");
        }
        _ => panic!("expected a child read"),
    }
}
