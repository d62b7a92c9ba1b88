//! The line store: one file's lines, its cached line count, and the paged
//! read and search queries against them.
//!
//! The surrounding program reads the file and hands its lines over; the
//! store owns every decision about what a query returns.

use crate::data::{texts_of, PagedResponse, Record};
use crate::error::{AppError, AppResult};
use crate::text::{
    contains_seq, contains_str, lower_of, lowercase_str, parses_as_json_object, parses_as_object,
    trim_of, trim_str,
};
use vstd::prelude::*;

verus! {

/// The views of a sequence of owned strings.
pub open spec fn views_of(ss: Seq<String>) -> Seq<Seq<char>> {
    ss.map_values(|s: String| s@)
}

/// Every line trimmed of surrounding whitespace.
pub open spec fn trimmed_lines(ls: Seq<Seq<char>>) -> Seq<Seq<char>> {
    ls.map_values(|l: Seq<char>| trim_of(l))
}

/// A trimmed line is kept by paging when it is non-blank and parses as a
/// record; blank and malformed lines are skipped, not reported.
pub open spec fn keeps_record(t: Seq<char>) -> bool {
    t.len() > 0 && parses_as_object(t)
}

/// Every record that paging can return from `ls`: the trimmed lines that
/// are non-blank and parse, in file order.
pub open spec fn kept_records(ls: Seq<Seq<char>>) -> Seq<Seq<char>> {
    trimmed_lines(ls).filter(|t: Seq<char>| keeps_record(t))
}

/// A trimmed line matches an already lower-cased keyword when it is
/// non-blank and its lower-cased text contains the keyword.
pub open spec fn matches_keyword(t: Seq<char>, keyword_lower: Seq<char>) -> bool {
    t.len() > 0 && contains_seq(lower_of(t), keyword_lower)
}

/// Every matching trimmed line of `ls`, in file order.
pub open spec fn matching_lines(ls: Seq<Seq<char>>, keyword_lower: Seq<char>) -> Seq<Seq<char>> {
    trimmed_lines(ls).filter(|t: Seq<char>| matches_keyword(t, keyword_lower))
}

/// The index of the first item addressed by a 1-indexed page.
pub open spec fn page_start(page: int, page_size: int) -> int {
    (page - 1) * page_size
}

/// The raw lines that a page addresses: at most `page_size` of them,
/// starting at the page's first index, empty when the page lies beyond
/// the file.
pub open spec fn page_window(ls: Seq<Seq<char>>, page: int, page_size: int) -> Seq<Seq<char>> {
    let start = page_start(page, page_size);
    let end = if start + page_size <= ls.len() {
        start + page_size
    } else {
        ls.len() as int
    };
    if 0 <= start < end {
        ls.subrange(start, end)
    } else {
        Seq::empty()
    }
}

/// What one page of a paged read holds.
pub open spec fn page_records(ls: Seq<Seq<char>>, page: int, page_size: int) -> Seq<Seq<char>> {
    kept_records(page_window(ls, page, page_size))
}

/// What `load_page` promises, over the store's lines and cached total.
pub open spec fn load_page_post(
    lines: Seq<Seq<char>>,
    total: int,
    page: int,
    page_size: int,
    r: AppResult<PagedResponse<Record>>,
) -> bool {
    if page_start(page, page_size) >= total {
        r == Err::<PagedResponse<Record>, AppError>(AppError::PageOutOfRange)
    } else {
        r matches Ok(resp) && resp.total == total && texts_of(resp.data@) == page_records(
            lines,
            page,
            page_size,
        )
    }
}

/// Whether a search page lies out of range. A search with no match at all
/// still answers page 1 with an empty page; only its higher pages are out
/// of range. With matches, a page is out of range exactly when it starts
/// at or past the match count.
pub open spec fn search_out_of_range(page: int, page_size: int, match_count: int) -> bool {
    if match_count == 0 {
        page > 1
    } else {
        page_start(page, page_size) >= match_count
    }
}

/// Parsing every selected line in order: `Ok` when all parse, otherwise
/// the first line that does not.
pub open spec fn parse_outcome(ts: Seq<Seq<char>>) -> Result<(), Seq<char>>
    decreases ts.len(),
{
    if ts.len() == 0 {
        Ok(())
    } else if !parses_as_object(ts[0]) {
        Err(ts[0])
    } else {
        parse_outcome(ts.drop_first())
    }
}

/// What `search` promises, over the store's lines.
pub open spec fn search_post(
    lines: Seq<Seq<char>>,
    keyword: Seq<char>,
    page: int,
    page_size: int,
    r: AppResult<PagedResponse<Record>>,
) -> bool {
    let ms = matching_lines(lines, lower_of(keyword));
    let start = page_start(page, page_size);
    let end = if start + page_size <= ms.len() {
        start + page_size
    } else {
        ms.len() as int
    };
    if search_out_of_range(page, page_size, ms.len() as int) {
        r == Err::<PagedResponse<Record>, AppError>(AppError::PageOutOfRange)
    } else {
        let slice = ms.subrange(start, end);
        match parse_outcome(slice) {
            Ok(u) => r matches Ok(resp) && resp.total == ms.len() && texts_of(resp.data@)
                == slice,
            Err(bad) => r matches Err(e) && e matches AppError::InvalidRecord(m) && m@ == bad,
        }
    }
}

/// Appending one line trims it onto the end.
proof fn lemma_trimmed_push(s: Seq<Seq<char>>, x: Seq<char>)
    ensures
        trimmed_lines(s.push(x)) == trimmed_lines(s).push(trim_of(x)),
{
    assert(trimmed_lines(s.push(x)) =~= trimmed_lines(s).push(trim_of(x)));
}

/// Filtering past one more item keeps it exactly when the predicate holds.
proof fn lemma_filter_push(s: Seq<Seq<char>>, x: Seq<char>, pred: spec_fn(Seq<char>) -> bool)
    ensures
        s.push(x).filter(pred) == if pred(x) {
            s.filter(pred).push(x)
        } else {
            s.filter(pred)
        },
{
    reveal(Seq::filter);
    assert(s.push(x).drop_last() =~= s);
    assert(s.push(x).last() == x);
}

/// Appending one line extends the kept records by its trimmed text when
/// that is kept, and not otherwise.
proof fn lemma_kept_records_push(s: Seq<Seq<char>>, x: Seq<char>)
    ensures
        kept_records(s.push(x)) == if keeps_record(trim_of(x)) {
            kept_records(s).push(trim_of(x))
        } else {
            kept_records(s)
        },
{
    lemma_trimmed_push(s, x);
    lemma_filter_push(trimmed_lines(s), trim_of(x), |t: Seq<char>| keeps_record(t));
}

/// Appending one line extends the matching lines by its trimmed text when
/// that matches, and not otherwise.
proof fn lemma_matching_push(s: Seq<Seq<char>>, x: Seq<char>, keyword_lower: Seq<char>)
    ensures
        matching_lines(s.push(x), keyword_lower) == if matches_keyword(trim_of(x), keyword_lower) {
            matching_lines(s, keyword_lower).push(trim_of(x))
        } else {
            matching_lines(s, keyword_lower)
        },
{
    lemma_trimmed_push(s, x);
    lemma_filter_push(
        trimmed_lines(s),
        trim_of(x),
        |t: Seq<char>| matches_keyword(t, keyword_lower),
    );
}

/// The kept records of two stretches of lines, read one after the other,
/// are the kept records of the first followed by those of the second.
proof fn lemma_kept_records_add(a: Seq<Seq<char>>, b: Seq<Seq<char>>)
    ensures
        kept_records(a + b) == kept_records(a) + kept_records(b),
{
    assert(trimmed_lines(a + b) =~= trimmed_lines(a) + trimmed_lines(b));
    Seq::<Seq<char>>::filter_distributes_over_add(
        trimmed_lines(a),
        trimmed_lines(b),
        |t: Seq<char>| keeps_record(t),
    );
}

/// The pages of a paged read, concatenated: what pages 1 through `k` hold
/// between them.
pub open spec fn pages_concat(lines: Seq<Seq<char>>, page_size: int, k: int) -> Seq<Seq<char>>
    decreases k,
{
    if k <= 0 {
        Seq::empty()
    } else {
        pages_concat(lines, page_size, k - 1) + page_records(lines, k, page_size)
    }
}

/// Pages 1 through `k` hold exactly the kept records of the first
/// `k * page_size` lines.
proof fn lemma_pages_concat_prefix(lines: Seq<Seq<char>>, page_size: int, k: int)
    requires
        page_size >= 1,
        k >= 0,
    ensures
        pages_concat(lines, page_size, k) == kept_records(
            lines.take(
                if k * page_size <= lines.len() {
                    k * page_size
                } else {
                    lines.len() as int
                },
            ),
        ),
    decreases k,
{
    if k == 0 {
        assert(lines.take(0) =~= Seq::<Seq<char>>::empty());
        assert(trimmed_lines(Seq::<Seq<char>>::empty()) =~= Seq::<Seq<char>>::empty());
        reveal(Seq::filter);
        assert(kept_records(Seq::<Seq<char>>::empty()) =~= Seq::<Seq<char>>::empty());
    } else {
        lemma_pages_concat_prefix(lines, page_size, k - 1);
        assert((k - 1) * page_size + page_size == k * page_size) by (nonlinear_arith);
        assert((k - 1) * page_size >= 0) by (nonlinear_arith)
            requires
                k >= 1,
                page_size >= 1,
        ;
        let a = if (k - 1) * page_size <= lines.len() {
            (k - 1) * page_size
        } else {
            lines.len() as int
        };
        let b = if k * page_size <= lines.len() {
            k * page_size
        } else {
            lines.len() as int
        };
        assert(lines.take(b) =~= lines.take(a) + page_window(lines, k, page_size));
        lemma_kept_records_add(lines.take(a), page_window(lines, k, page_size));
    }
}

/// Law: reading every page in order reconstructs every parseable record
/// of the file, in file order, exactly once. Here `k` is any page count
/// whose pages cover the whole file, such as the ceiling of
/// `total / page_size`.
pub proof fn lemma_pages_reconstruct(lines: Seq<Seq<char>>, page_size: int, k: int)
    requires
        page_size >= 1,
        k >= 0,
        k * page_size >= lines.len(),
    ensures
        pages_concat(lines, page_size, k) == kept_records(lines),
{
    lemma_pages_concat_prefix(lines, page_size, k);
    assert(lines.take(lines.len() as int) =~= lines);
}

/// The usual page count, the ceiling of `total / page_size`, covers the
/// whole file, so `lemma_pages_reconstruct` applies to it.
pub proof fn lemma_ceil_pages_cover(total: int, page_size: int)
    requires
        total >= 0,
        page_size >= 1,
    ensures
        ((total + page_size - 1) / page_size) * page_size >= total,
{
    let x = total + page_size - 1;
    vstd::arithmetic::div_mod::lemma_fundamental_div_mod(x, page_size);
    vstd::arithmetic::div_mod::lemma_mod_bound(x, page_size);
    let q = x / page_size;
    let r = x % page_size;
    assert(x == page_size * q + r);
    assert(q * page_size == page_size * q) by (nonlinear_arith);
}

/// Parsing a selection whose first `k` lines are known to parse comes out
/// the same as parsing the rest alone.
proof fn lemma_parse_outcome_skip(ts: Seq<Seq<char>>, k: int)
    requires
        0 <= k <= ts.len(),
        forall|i: int| 0 <= i < k ==> parses_as_object(#[trigger] ts[i]),
    ensures
        parse_outcome(ts) == parse_outcome(ts.skip(k)),
    decreases k,
{
    if k > 0 {
        assert(ts.drop_first().skip(k - 1) =~= ts.skip(k));
        assert(forall|i: int|
            0 <= i < k - 1 ==> parses_as_object(#[trigger] ts.drop_first()[i]));
        lemma_parse_outcome_skip(ts.drop_first(), k - 1);
        assert(ts.skip(0) =~= ts);
    } else {
        assert(ts.skip(0) =~= ts);
    }
}

/// A store: the lines of one open file and the line count its scan found.
pub struct JsonlReader {
    lines: Vec<String>,
    total_lines: usize,
}

impl JsonlReader {
    /// The file as a sequence of lines.
    pub closed spec fn lines_view(&self) -> Seq<Seq<char>> {
        views_of(self.lines@)
    }

    /// The cached line count, 0 until a scan has run.
    pub closed spec fn total(&self) -> int {
        self.total_lines as int
    }

    /// The cached count is either still unset or the scan's exact result.
    pub open spec fn wf(&self) -> bool {
        self.total() == 0 || self.total() == self.lines_view().len()
    }

    /// Whether a scan has established the line count.
    pub open spec fn scanned(&self) -> bool {
        self.total() == self.lines_view().len()
    }

    /// A store over the given lines. The line count starts at 0: pages are
    /// answered only after `count_lines` has run.
    pub fn new(lines: Vec<String>) -> (r: Self)
        ensures
            r.lines_view() == views_of(lines@),
            r.total() == 0,
            r.wf(),
    {
        JsonlReader { lines, total_lines: 0 }
    }

    /// Establish the line count: after this, the store reports exactly one
    /// line per line of the file.
    pub fn count_lines(&mut self) -> (n: usize)
        ensures
            final(self).lines_view() == old(self).lines_view(),
            n == old(self).lines_view().len(),
            final(self).total() == n,
            final(self).wf(),
            final(self).scanned(),
    {
        self.total_lines = self.lines.len();
        self.total_lines
    }

    /// The line count the last scan found, 0 if none has run.
    pub fn total_lines(&self) -> (n: usize)
        ensures
            n == self.total(),
    {
        self.total_lines
    }

    /// One page of the file's records: the page's raw lines, skipping
    /// blank lines and lines that do not parse. Fails with
    /// `PageOutOfRange` exactly when the page starts at or past the
    /// cached line count; the returned total is that count.
    pub fn load_page(&self, page: usize, page_size: usize) -> (r: AppResult<
        PagedResponse<Record>,
    >)
        requires
            self.wf(),
            page >= 1,
            page_size >= 1,
        ensures
            load_page_post(self.lines_view(), self.total(), page as int, page_size as int, r),
    {
        let start: usize = match (page - 1).checked_mul(page_size) {
            Some(s) => s,
            None => {
                return Err(AppError::PageOutOfRange);
            },
        };
        if start >= self.total_lines {
            return Err(AppError::PageOutOfRange);
        }
        let end: usize = if self.total_lines - start < page_size {
            self.total_lines
        } else {
            start + page_size
        };
        let ghost window = page_window(self.lines_view(), page as int, page_size as int);
        proof {
            assert(window =~= self.lines_view().subrange(start as int, end as int));
        }
        let mut data: Vec<Record> = Vec::new();
        let mut i: usize = start;
        while i < end
            invariant
                start <= i <= end,
                end <= self.lines@.len(),
                texts_of(data@) == kept_records(
                    self.lines_view().subrange(start as int, i as int),
                ),
            decreases end - i,
        {
            let ghost prefix = self.lines_view().subrange(start as int, i as int);
            let t = trim_str(self.lines[i].as_str());
            if !t.is_empty() {
                if parses_as_json_object(t) {
                    let ghost before = data@;
                    data.push(Record { text: t.to_owned() });
                    proof {
                        assert(texts_of(data@) =~= texts_of(before).push(trim_of(
                            self.lines_view()[i as int],
                        )));
                    }
                }
            }
            proof {
                assert(self.lines_view().subrange(start as int, i + 1) =~= prefix.push(
                    self.lines_view()[i as int],
                ));
                lemma_kept_records_push(prefix, self.lines_view()[i as int]);
            }
            i = i + 1;
        }
        Ok(PagedResponse { data, total: self.total_lines })
    }

    /// One page of the lines whose text contains `keyword`, matched
    /// case-insensitively against the trimmed raw line. The whole file is
    /// searched on every call; the returned total is the match count. A
    /// search without any match still answers page 1 with an empty page,
    /// while its higher pages fail with `PageOutOfRange`, as does any page
    /// starting at or past a nonzero match count — a deliberate asymmetry
    /// between the empty page 1 and everything else, kept for
    /// compatibility. A selected line that does not parse fails the call
    /// with `InvalidRecord`.
    #[verifier::loop_isolation(false)]
    pub fn search(&self, keyword: &str, page: usize, page_size: usize) -> (r: AppResult<
        PagedResponse<Record>,
    >)
        requires
            self.wf(),
            page >= 1,
            page_size >= 1,
        ensures
            search_post(self.lines_view(), keyword@, page as int, page_size as int, r),
    {
        let kl = lowercase_str(keyword);
        let mut matched: Vec<String> = Vec::new();
        let n = self.lines.len();
        let mut i: usize = 0;
        while i < n
            invariant
                i <= n,
                n == self.lines@.len(),
                kl@ == lower_of(keyword@),
                views_of(matched@) == matching_lines(self.lines_view().take(i as int), kl@),
            decreases n - i,
        {
            let ghost prefix = self.lines_view().take(i as int);
            let t = trim_str(self.lines[i].as_str());
            if !t.is_empty() {
                let lowered = lowercase_str(t);
                if contains_str(lowered.as_str(), kl.as_str()) {
                    let ghost before = matched@;
                    matched.push(t.to_owned());
                    proof {
                        assert(views_of(matched@) =~= views_of(before).push(trim_of(
                            self.lines_view()[i as int],
                        )));
                    }
                }
            }
            proof {
                assert(self.lines_view().take(i + 1) =~= prefix.push(self.lines_view()[i as int]));
                lemma_matching_push(prefix, self.lines_view()[i as int], kl@);
            }
            i = i + 1;
        }
        proof {
            assert(self.lines_view().take(n as int) =~= self.lines_view());
        }
        let ghost ms = matching_lines(self.lines_view(), lower_of(keyword@));
        let total_matches = matched.len();
        let start: usize;
        if total_matches == 0 {
            if page > 1 {
                return Err(AppError::PageOutOfRange);
            }
            start = 0;
        } else {
            match (page - 1).checked_mul(page_size) {
                Some(s) => {
                    if s >= total_matches {
                        return Err(AppError::PageOutOfRange);
                    }
                    start = s;
                },
                None => {
                    return Err(AppError::PageOutOfRange);
                },
            }
        }
        let end: usize = if total_matches - start < page_size {
            total_matches
        } else {
            start + page_size
        };
        let ghost slice = ms.subrange(start as int, end as int);
        proof {
            assert(ms.len() == matched@.len());
            assert(slice.len() == end - start);
        }
        let mut data: Vec<Record> = Vec::new();
        let mut j: usize = start;
        while j < end
            invariant
                start <= j <= end,
                end <= matched@.len(),
                views_of(matched@) == ms,
                ms.len() == matched@.len(),
                slice == ms.subrange(start as int, end as int),
                texts_of(data@) == ms.subrange(start as int, j as int),
                forall|q: int| start <= q < j ==> parses_as_object(#[trigger] ms[q]),
            decreases end - j,
        {
            let t = &matched[j];
            if !parses_as_json_object(t.as_str()) {
                proof {
                    assert forall|q: int| 0 <= q < j - start implies parses_as_object(
                        #[trigger] slice[q],
                    ) by {
                        assert(slice[q] == ms[start + q]);
                    }
                    lemma_parse_outcome_skip(slice, j - start);
                    assert(slice.skip(j - start)[0] == ms[j as int]);
                }
                return Err(AppError::InvalidRecord(t.clone()));
            }
            let ghost before = data@;
            data.push(Record { text: t.clone() });
            proof {
                assert(texts_of(data@) =~= texts_of(before).push(ms[j as int]));
                assert(ms.subrange(start as int, j + 1) =~= ms.subrange(
                    start as int,
                    j as int,
                ).push(ms[j as int]));
            }
            j = j + 1;
        }
        proof {
            assert forall|q: int| 0 <= q < end - start implies parses_as_object(
                #[trigger] slice[q],
            ) by {
                assert(slice[q] == ms[start + q]);
            }
            lemma_parse_outcome_skip(slice, end - start);
            assert(slice.skip(end - start) =~= Seq::<Seq<char>>::empty());
            assert(texts_of(data@) == slice);
        }
        Ok(PagedResponse { data, total: total_matches })
    }
}

/// Law: search is a pure function of the store's lines and its arguments.
/// Two searches over the same lines with the same keyword and page answer
/// with the same outcome, the same total and the same records in the same
/// order.
pub proof fn lemma_search_deterministic(
    lines: Seq<Seq<char>>,
    keyword: Seq<char>,
    page: int,
    page_size: int,
    r1: AppResult<PagedResponse<Record>>,
    r2: AppResult<PagedResponse<Record>>,
)
    requires
        search_post(lines, keyword, page, page_size, r1),
        search_post(lines, keyword, page, page_size, r2),
    ensures
        r1 is Ok <==> r2 is Ok,
        r1 matches Ok(a) ==> r2 matches Ok(b) && a.total == b.total && texts_of(a.data@)
            == texts_of(b.data@),
{
}

/// Law: search is case-insensitive in the keyword. Two keywords that fold
/// to the same lower-case text select the same lines, so searches with
/// them answer alike.
pub proof fn lemma_search_case_insensitive(
    lines: Seq<Seq<char>>,
    keyword1: Seq<char>,
    keyword2: Seq<char>,
    page: int,
    page_size: int,
    r1: AppResult<PagedResponse<Record>>,
    r2: AppResult<PagedResponse<Record>>,
)
    requires
        lower_of(keyword1) == lower_of(keyword2),
        search_post(lines, keyword1, page, page_size, r1),
        search_post(lines, keyword2, page, page_size, r2),
    ensures
        r1 is Ok <==> r2 is Ok,
        r1 matches Ok(a) ==> r2 matches Ok(b) && a.total == b.total && texts_of(a.data@)
            == texts_of(b.data@),
{
}

/// Law: search keeps file order and drops nothing. Page 1 with a page
/// size that covers every match answers with the whole match list: every
/// matching line, each exactly once, in file order.
pub proof fn lemma_search_full_page(
    lines: Seq<Seq<char>>,
    keyword: Seq<char>,
    page_size: int,
    r: AppResult<PagedResponse<Record>>,
)
    requires
        search_post(lines, keyword, 1, page_size, r),
        page_size >= matching_lines(lines, lower_of(keyword)).len(),
        page_size >= 1,
        r is Ok,
    ensures
        r matches Ok(resp) ==> resp.total == matching_lines(lines, lower_of(keyword)).len()
            && texts_of(resp.data@) == matching_lines(lines, lower_of(keyword)),
{
    let ms = matching_lines(lines, lower_of(keyword));
    assert(ms.subrange(0, ms.len() as int) =~= ms);
}

} // verus!
