use jsonl_reader::error::AppError;
use jsonl_reader::manager::JsonlReaderManager;
use jsonl_reader::reader::JsonlReader;

fn scanned_store(lines: &[&str]) -> JsonlReader {
    let mut rd = JsonlReader::new(lines.iter().map(|s| s.to_string()).collect());
    rd.count_lines();
    rd
}

#[test]
fn queries_without_store_fail() {
    let mgr = JsonlReaderManager::new();
    assert_eq!(mgr.load_page(1, 10), Err(AppError::NoActiveStore));
    assert_eq!(mgr.search("x", 1, 10), Err(AppError::NoActiveStore));
    assert_eq!(mgr.total_lines(), Err(AppError::NoActiveStore));
}

#[test]
fn queries_reach_the_active_store() {
    let mut mgr = JsonlReaderManager::new();
    mgr.set_reader(scanned_store(&["{\"id\":0}", "{\"id\":1}"]));
    assert_eq!(mgr.total_lines(), Ok(2));
    let resp = mgr.load_page(1, 10).unwrap();
    assert_eq!(resp.total, 2);
    assert_eq!(resp.data.len(), 2);
    let found = mgr.search("id", 1, 10).unwrap();
    assert_eq!(found.total, 2);
}

#[test]
fn second_set_reader_replaces_the_first() {
    let mut mgr = JsonlReaderManager::new();
    mgr.set_reader(scanned_store(&["{\"from\":\"first\"}"]));
    assert_eq!(mgr.total_lines(), Ok(1));
    assert_eq!(mgr.search("first", 1, 10).unwrap().total, 1);

    mgr.set_reader(scanned_store(&[
        "{\"from\":\"second\"}",
        "{\"from\":\"second too\"}",
    ]));
    assert_eq!(mgr.total_lines(), Ok(2));
    assert_eq!(mgr.search("first", 1, 10).unwrap().total, 0);
    let resp = mgr.search("second", 1, 10).unwrap();
    assert_eq!(resp.total, 2);
    let page = mgr.load_page(1, 10).unwrap();
    assert_eq!(page.data[0].text, "{\"from\":\"second\"}");
}
