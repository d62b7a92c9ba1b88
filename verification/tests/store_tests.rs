use jsonl_reader::data::{PagedResponse, Record};
use jsonl_reader::error::AppError;
use jsonl_reader::reader::JsonlReader;

fn make_store(lines: &[&str]) -> JsonlReader {
    let mut rd = JsonlReader::new(lines.iter().map(|s| s.to_string()).collect());
    rd.count_lines();
    rd
}

fn texts(resp: &PagedResponse<Record>) -> Vec<String> {
    resp.data.iter().map(|r| r.text.clone()).collect()
}

#[test]
fn scan_counts_zero_lines() {
    let mut rd = JsonlReader::new(Vec::new());
    assert_eq!(rd.total_lines(), 0);
    assert_eq!(rd.count_lines(), 0);
    assert_eq!(rd.total_lines(), 0);
}

#[test]
fn scan_counts_each_line() {
    let mut rd = JsonlReader::new(vec!["{\"a\":1}".to_string()]);
    assert_eq!(rd.count_lines(), 1);
    assert_eq!(rd.total_lines(), 1);

    let rd4 = make_store(&["{\"id\":0}", "{\"id\":1}", "bad-json", "{\"id\":3}"]);
    assert_eq!(rd4.total_lines(), 4);
}

#[test]
fn page_before_scan_is_out_of_range() {
    let rd = JsonlReader::new(vec!["{\"a\":1}".to_string()]);
    assert_eq!(rd.load_page(1, 10), Err(AppError::PageOutOfRange));
}

#[test]
fn mixed_file_page_skips_malformed_lines() {
    let rd = make_store(&["{\"id\":0}", "{\"id\":1}", "bad-json", "{\"id\":3}"]);
    assert_eq!(rd.total_lines(), 4);
    let resp = rd.load_page(1, 10).unwrap();
    assert_eq!(resp.total, 4);
    assert_eq!(texts(&resp), vec!["{\"id\":0}", "{\"id\":1}", "{\"id\":3}"]);
}

#[test]
fn page_out_of_range_exactly_at_total() {
    let rd = make_store(&["{\"id\":0}", "{\"id\":1}", "bad-json", "{\"id\":3}"]);
    assert_eq!(rd.load_page(2, 4), Err(AppError::PageOutOfRange));
    assert_eq!(rd.load_page(5, 1), Err(AppError::PageOutOfRange));
    assert!(rd.load_page(4, 1).is_ok());
}

#[test]
fn empty_file_page_is_out_of_range() {
    let rd = make_store(&[]);
    assert_eq!(rd.load_page(1, 10), Err(AppError::PageOutOfRange));
}

#[test]
fn pages_concatenate_to_all_parseable_lines() {
    let lines = [
        "{\"id\":0}",
        "bad-json",
        "{\"id\":2}",
        "",
        "{\"id\":4}",
        "{\"id\":5}",
        "not json either",
        "{\"id\":7}",
    ];
    let rd = make_store(&lines);
    let total = rd.total_lines();
    let page_size = 3;
    let page_count = (total + page_size - 1) / page_size;
    let mut collected: Vec<String> = Vec::new();
    for page in 1..=page_count {
        let resp = rd.load_page(page, page_size).unwrap();
        assert_eq!(resp.total, total);
        collected.extend(texts(&resp));
    }
    assert_eq!(
        collected,
        vec!["{\"id\":0}", "{\"id\":2}", "{\"id\":4}", "{\"id\":5}", "{\"id\":7}"]
    );
}

#[test]
fn page_keeps_trimmed_text() {
    let rd = make_store(&["   {\"id\":0}  ", "\t{\"id\":1}"]);
    let resp = rd.load_page(1, 10).unwrap();
    assert_eq!(texts(&resp), vec!["{\"id\":0}", "{\"id\":1}"]);
}

#[test]
fn search_is_case_insensitive() {
    let rd = make_store(&["{\"name\":\"Alice\"}", "{\"name\":\"bob\"}"]);
    let resp = rd.search("alice", 1, 10).unwrap();
    assert_eq!(resp.total, 1);
    assert_eq!(texts(&resp), vec!["{\"name\":\"Alice\"}"]);

    let resp2 = rd.search("BOB", 1, 10).unwrap();
    assert_eq!(resp2.total, 1);
    assert_eq!(texts(&resp2), vec!["{\"name\":\"bob\"}"]);
}

#[test]
fn search_matches_inner_substring() {
    let rd = make_store(&["{\"name\":\"Alice\"}", "{\"name\":\"malicious\"}"]);
    let resp = rd.search("lic", 1, 10).unwrap();
    assert_eq!(resp.total, 2);
    assert_eq!(
        texts(&resp),
        vec!["{\"name\":\"Alice\"}", "{\"name\":\"malicious\"}"]
    );
}

#[test]
fn search_twice_returns_identical_pages() {
    let rd = make_store(&[
        "{\"name\":\"Alice\"}",
        "{\"id\":1}",
        "{\"name\":\"alice again\"}",
        "{\"name\":\"ALICE THE THIRD\"}",
    ]);
    let total = rd.total_lines();
    let first = rd.search("alice", 1, total).unwrap();
    let second = rd.search("alice", 1, total).unwrap();
    assert_eq!(first.total, second.total);
    assert_eq!(texts(&first), texts(&second));
    assert_eq!(
        texts(&first),
        vec![
            "{\"name\":\"Alice\"}",
            "{\"name\":\"alice again\"}",
            "{\"name\":\"ALICE THE THIRD\"}"
        ]
    );
}

#[test]
fn search_pages_slice_the_match_list() {
    let rd = make_store(&[
        "{\"tag\":\"m0\"}",
        "{\"other\":1}",
        "{\"tag\":\"m1\"}",
        "{\"tag\":\"m2\"}",
        "{\"other\":2}",
        "{\"tag\":\"m3\"}",
    ]);
    let p1 = rd.search("tag", 1, 2).unwrap();
    assert_eq!(p1.total, 4);
    assert_eq!(texts(&p1), vec!["{\"tag\":\"m0\"}", "{\"tag\":\"m1\"}"]);
    let p2 = rd.search("tag", 2, 2).unwrap();
    assert_eq!(p2.total, 4);
    assert_eq!(texts(&p2), vec!["{\"tag\":\"m2\"}", "{\"tag\":\"m3\"}"]);
    assert_eq!(rd.search("tag", 3, 2), Err(AppError::PageOutOfRange));
}

#[test]
fn empty_search_page_one_succeeds_higher_pages_fail() {
    let rd = make_store(&[]);
    let resp = rd.search("x", 1, 10).unwrap();
    assert_eq!(resp.total, 0);
    assert!(resp.data.is_empty());
    assert_eq!(rd.search("x", 2, 10), Err(AppError::PageOutOfRange));
}

#[test]
fn no_match_page_one_succeeds_higher_pages_fail() {
    let rd = make_store(&["{\"id\":0}", "{\"id\":1}"]);
    let resp = rd.search("absent", 1, 10).unwrap();
    assert_eq!(resp.total, 0);
    assert!(resp.data.is_empty());
    assert_eq!(rd.search("absent", 2, 10), Err(AppError::PageOutOfRange));
}

#[test]
fn search_propagates_unparseable_match() {
    let rd = make_store(&["{\"id\":0}", "hello world", "{\"msg\":\"hello\"}"]);
    let r = rd.search("hello", 1, 10);
    assert_eq!(r, Err(AppError::InvalidRecord("hello world".to_string())));
}

#[test]
fn search_skips_unparseable_line_outside_requested_page() {
    let rd = make_store(&["{\"msg\":\"hello\"}", "hello world"]);
    let resp = rd.search("hello", 1, 1).unwrap();
    assert_eq!(resp.total, 2);
    assert_eq!(texts(&resp), vec!["{\"msg\":\"hello\"}"]);
    assert_eq!(
        rd.search("hello", 2, 1),
        Err(AppError::InvalidRecord("hello world".to_string()))
    );
}

#[test]
fn search_works_before_scan() {
    let rd = JsonlReader::new(vec!["{\"msg\":\"hello\"}".to_string()]);
    let resp = rd.search("hello", 1, 10).unwrap();
    assert_eq!(resp.total, 1);
    assert_eq!(texts(&resp), vec!["{\"msg\":\"hello\"}"]);
}

#[test]
fn rescan_refreshes_the_count() {
    let mut rd = JsonlReader::new(vec!["{\"a\":1}".to_string(), "{\"b\":2}".to_string()]);
    assert_eq!(rd.count_lines(), 2);
    assert_eq!(rd.count_lines(), 2);
    assert_eq!(rd.total_lines(), 2);
}

#[test]
fn empty_keyword_matches_every_nonblank_line() {
    let rd = make_store(&["{\"id\":0}", "", "{\"id\":2}"]);
    let resp = rd.search("", 1, 10).unwrap();
    assert_eq!(resp.total, 2);
    assert_eq!(texts(&resp), vec!["{\"id\":0}", "{\"id\":2}"]);
}

#[test]
fn huge_page_numbers_are_out_of_range() {
    let rd = make_store(&["{\"id\":0}", "{\"id\":1}"]);
    assert_eq!(rd.load_page(usize::MAX, usize::MAX), Err(AppError::PageOutOfRange));
    assert_eq!(rd.search("id", usize::MAX, usize::MAX), Err(AppError::PageOutOfRange));
}

#[test]
fn error_descriptions() {
    assert_eq!(AppError::FileNotFound.describe(), "file not found");
    assert_eq!(AppError::PageOutOfRange.describe(), "page out of range");
    assert_eq!(AppError::NoActiveStore.describe(), "no file is open");
    assert_eq!(AppError::Io("boom".to_string()).describe(), "boom");
    assert_eq!(
        AppError::InvalidRecord("bad line".to_string()).describe(),
        "bad line"
    );
    assert_eq!(AppError::DebugError("dbg".to_string()).describe(), "dbg");
    assert_eq!(AppError::General("other".to_string()).describe(), "other");
}
