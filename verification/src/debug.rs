//! Synthetic records for demos and tests, generated deterministically
//! from a row index, and a manager holding at most one generator.

use crate::data::PagedResponse;
use crate::error::{AppError, AppResult};
use crate::numfmt::{decimal_string, padded_decimal, spec_decimal, spec_zero_pad};
use vstd::prelude::*;
use vstd::string::StringExecFns;

verus! {

/// One synthetic record. Every field is a plain value computed from the
/// row index (and, for search results, the keyword).
#[derive(Debug, Clone, PartialEq, Eq)]
pub struct DebugRecord {
    /// The row index.
    pub id: usize,
    /// "user-" followed by the index.
    pub name: String,
    /// "user<index>@example.com".
    pub email: String,
    /// One of four states, cycling with the index.
    pub status: String,
    /// Ten times the index plus a small remainder.
    pub score: i64,
    /// The index modulo 100.
    pub visits: usize,
    /// Whether the index is even.
    pub is_admin: bool,
    /// Whether the index divides by three.
    pub is_verified: bool,
    /// A date between 2020 and 2022, cycling with the index.
    pub created_at: String,
    /// "city-" followed by the index modulo 10.
    pub city: String,
    /// The index modulo 100000, zero-padded to five digits.
    pub zip_code: String,
    /// Two labels cycling with the index.
    pub tags: Vec<String>,
}

/// The generated name of row `i`.
pub open spec fn base_name(i: nat) -> Seq<char> {
    "user-"@ + spec_decimal(i)
}

/// The generated mail address of row `i`.
pub open spec fn base_email(i: nat) -> Seq<char> {
    "user"@ + spec_decimal(i) + "@example.com"@
}

/// The generated status of row `i`.
pub open spec fn spec_status(i: nat) -> Seq<char> {
    if i % 4 == 0 {
        "active"@
    } else if i % 4 == 1 {
        "inactive"@
    } else if i % 4 == 2 {
        "banned"@
    } else {
        "pending"@
    }
}

/// The generated date of row `i`: year-month-day, two digits each for
/// month and day.
pub open spec fn base_created_at(i: nat) -> Seq<char> {
    spec_decimal((2020 + i % 3) as nat) + "-"@ + spec_zero_pad(spec_decimal((1 + i % 12) as nat), 2)
        + "-"@ + spec_zero_pad(spec_decimal((1 + i % 28) as nat), 2)
}

/// Row `i` with the given name, mail address and status, and every other
/// field at its generated value.
pub open spec fn is_debug_record_with(
    i: nat,
    name: Seq<char>,
    email: Seq<char>,
    status: Seq<char>,
    r: DebugRecord,
) -> bool {
    &&& r.id == i
    &&& r.name@ == name
    &&& r.email@ == email
    &&& r.status@ == status
    &&& r.score == i * 10 + i % 7
    &&& r.visits == i % 100
    &&& r.is_admin == (i % 2 == 0)
    &&& r.is_verified == (i % 3 == 0)
    &&& r.created_at@ == base_created_at(i)
    &&& r.city@ == "city-"@ + spec_decimal((i % 10) as nat)
    &&& r.zip_code@ == spec_zero_pad(spec_decimal((i % 100000) as nat), 5)
    &&& r.tags@.len() == 2
    &&& r.tags@[0]@ == "tag-"@ + spec_decimal((i % 5) as nat)
    &&& r.tags@[1]@ == "group-"@ + spec_decimal((i % 3) as nat)
}

/// Row `i` exactly as `generate_page` returns it.
pub open spec fn is_debug_record(i: nat, r: DebugRecord) -> bool {
    is_debug_record_with(i, base_name(i), base_email(i), spec_status(i), r)
}

/// Row `i` as a search result: one field, cycling with the index, has the
/// keyword and the index appended so that the result visibly matches.
pub open spec fn is_debug_search_record(i: nat, keyword: Seq<char>, r: DebugRecord) -> bool {
    if i % 3 == 0 {
        is_debug_record_with(
            i,
            base_name(i) + keyword + spec_decimal(i),
            base_email(i),
            spec_status(i),
            r,
        )
    } else if i % 3 == 1 {
        is_debug_record_with(
            i,
            base_name(i),
            base_email(i) + keyword + spec_decimal(i),
            spec_status(i),
            r,
        )
    } else {
        is_debug_record_with(
            i,
            base_name(i),
            base_email(i),
            spec_status(i) + keyword + spec_decimal(i),
            r,
        )
    }
}

/// What `generate_page` promises, over the generator's row count.
pub open spec fn generate_page_post(
    total_rows: int,
    page: int,
    page_size: int,
    r: AppResult<PagedResponse<DebugRecord>>,
) -> bool {
    let start = (page - 1) * page_size;
    let end = if start + page_size <= total_rows {
        start + page_size
    } else {
        total_rows
    };
    if page == 0 {
        r matches Err(e) && e matches AppError::General(m) && m@ == "page numbers start at 1"@
    } else if start >= total_rows {
        r == Err::<PagedResponse<DebugRecord>, AppError>(AppError::PageOutOfRange)
    } else {
        r matches Ok(resp) && resp.total == total_rows && resp.data@.len() == end - start
            && forall|j: int|
            0 <= j < end - start ==> is_debug_record((start + j) as nat, #[trigger] resp.data@[j])
    }
}

/// What the generator's `search` promises: it pretends that a fifth of
/// the rows match, whatever the keyword.
pub open spec fn debug_search_post(
    total_rows: int,
    keyword: Seq<char>,
    page: int,
    page_size: int,
    r: AppResult<PagedResponse<DebugRecord>>,
) -> bool {
    let matched_total = total_rows / 5;
    let start = (page - 1) * page_size;
    let end = if start + page_size <= matched_total {
        start + page_size
    } else {
        matched_total
    };
    if start >= matched_total {
        r == Err::<PagedResponse<DebugRecord>, AppError>(AppError::PageOutOfRange)
    } else {
        r matches Ok(resp) && resp.total == matched_total && resp.data@.len() == end - start
            && forall|j: int|
            0 <= j < end - start ==> is_debug_search_record(
                (start + j) as nat,
                keyword,
                #[trigger] resp.data@[j],
            )
    }
}

/// A deterministic generator of synthetic records.
#[derive(Debug, Clone, PartialEq, Eq)]
pub struct DebugDataGenerator {
    /// How many rows the synthetic data set pretends to have.
    pub total_rows: usize,
}

impl DebugDataGenerator {
    /// Every row's score fits in its field.
    pub open spec fn wf(&self) -> bool {
        self.total_rows * 10 + 6 <= i64::MAX
    }

    /// A generator of `total_rows` rows, 10000 when none is given.
    pub fn new(total_rows: Option<usize>) -> (r: Self)
        ensures
            r.total_rows == match total_rows {
                Some(n) => n as int,
                None => 10000,
            },
    {
        DebugDataGenerator {
            total_rows: match total_rows {
                Some(n) => n,
                None => 10000,
            },
        }
    }

    /// A label followed by the row index.
    pub fn random_string(prefix: &str, index: usize) -> (r: String)
        ensures
            r@ == prefix@ + spec_decimal(index as nat),
    {
        let mut s = String::from_str(prefix);
        s.append(decimal_string(index as u64).as_str());
        s
    }

    /// A flag derived from the row index: true on even rows.
    pub fn random_bool(index: usize) -> (r: bool)
        ensures
            r == (index % 2 == 0),
    {
        index % 2 == 0
    }

    /// A number derived from the row index: ten times the index plus a
    /// small remainder.
    pub fn random_number(index: usize) -> (r: i64)
        requires
            index * 10 + 6 <= i64::MAX,
        ensures
            r == index * 10 + index % 7,
    {
        (index as i64) * 10 + (index as i64) % 7
    }

    /// The full record of row `index`.
    fn generate_object(index: usize) -> (r: DebugRecord)
        requires
            index * 10 + 6 <= i64::MAX,
        ensures
            is_debug_record(index as nat, r),
    {
        let name = Self::random_string("user-", index);
        let mut email = Self::random_string("user", index);
        email.append("@example.com");
        proof {
            assert(email@ =~= base_email(index as nat));
        }
        let status = match index % 4 {
            0 => "active",
            1 => "inactive",
            2 => "banned",
            _ => "pending",
        };
        let mut created_at = decimal_string((2020 + index % 3) as u64);
        created_at.append("-");
        created_at.append(padded_decimal((1 + index % 12) as u64, 2).as_str());
        created_at.append("-");
        created_at.append(padded_decimal((1 + index % 28) as u64, 2).as_str());
        proof {
            assert(created_at@ =~= base_created_at(index as nat));
        }
        let mut tags: Vec<String> = Vec::new();
        tags.push(Self::random_string("tag-", index % 5));
        tags.push(Self::random_string("group-", index % 3));
        DebugRecord {
            id: index,
            name,
            email,
            status: status.to_owned(),
            score: Self::random_number(index),
            visits: index % 100,
            is_admin: Self::random_bool(index),
            is_verified: index % 3 == 0,
            created_at,
            city: Self::random_string("city-", index % 10),
            zip_code: padded_decimal((index % 100000) as u64, 5),
            tags,
        }
    }

    /// One page of synthetic rows. Page 0 is rejected outright; a page
    /// starting at or past the row count is out of range; the returned
    /// total is the row count.
    #[verifier::loop_isolation(false)]
    pub fn generate_page(&self, page: usize, page_size: usize) -> (r: AppResult<
        PagedResponse<DebugRecord>,
    >)
        requires
            self.wf(),
        ensures
            generate_page_post(self.total_rows as int, page as int, page_size as int, r),
    {
        if page == 0 {
            return Err(AppError::General("page numbers start at 1".to_owned()));
        }
        let start: usize = match (page - 1).checked_mul(page_size) {
            Some(s) => s,
            None => {
                return Err(AppError::PageOutOfRange);
            },
        };
        if start >= self.total_rows {
            return Err(AppError::PageOutOfRange);
        }
        let end: usize = if self.total_rows - start < page_size {
            self.total_rows
        } else {
            start + page_size
        };
        let mut data: Vec<DebugRecord> = Vec::new();
        let mut i: usize = start;
        while i < end
            invariant
                start <= i <= end,
                data@.len() == i - start,
                forall|j: int|
                    0 <= j < i - start ==> is_debug_record((start + j) as nat, #[trigger] data@[j]),
            decreases end - i,
        {
            data.push(Self::generate_object(i));
            i = i + 1;
        }
        Ok(PagedResponse { data, total: self.total_rows })
    }

    /// One page of pretend search results: a fifth of the rows count as
    /// matching, and each returned row has the keyword spliced into one
    /// field. A page starting at or past that match count is out of
    /// range, even page 1 when nothing matches.
    #[verifier::loop_isolation(false)]
    pub fn search(&self, keyword: &str, page: usize, page_size: usize) -> (r: AppResult<
        PagedResponse<DebugRecord>,
    >)
        requires
            self.wf(),
            page >= 1,
        ensures
            debug_search_post(
                self.total_rows as int,
                keyword@,
                page as int,
                page_size as int,
                r,
            ),
    {
        let matched_total = self.total_rows / 5;
        let start: usize = match (page - 1).checked_mul(page_size) {
            Some(s) => s,
            None => {
                return Err(AppError::PageOutOfRange);
            },
        };
        if start >= matched_total {
            return Err(AppError::PageOutOfRange);
        }
        let end: usize = if matched_total - start < page_size {
            matched_total
        } else {
            start + page_size
        };
        let mut data: Vec<DebugRecord> = Vec::new();
        let mut i: usize = start;
        while i < end
            invariant
                start <= i <= end,
                data@.len() == i - start,
                forall|j: int|
                    0 <= j < i - start ==> is_debug_search_record(
                        (start + j) as nat,
                        keyword@,
                        #[trigger] data@[j],
                    ),
            decreases end - i,
        {
            let mut obj = Self::generate_object(i);
            let index_suffix = decimal_string(i as u64);
            if i % 3 == 0 {
                obj.name.append(keyword);
                obj.name.append(index_suffix.as_str());
                proof {
                    assert(obj.name@ =~= base_name(i as nat) + keyword@ + spec_decimal(i as nat));
                }
            } else if i % 3 == 1 {
                obj.email.append(keyword);
                obj.email.append(index_suffix.as_str());
                proof {
                    assert(obj.email@ =~= base_email(i as nat) + keyword@ + spec_decimal(i as nat));
                }
            } else {
                obj.status.append(keyword);
                obj.status.append(index_suffix.as_str());
                proof {
                    assert(obj.status@ =~= spec_status(i as nat) + keyword@ + spec_decimal(
                        i as nat,
                    ));
                }
            }
            data.push(obj);
            i = i + 1;
        }
        Ok(PagedResponse { data, total: matched_total })
    }
}

/// Zero or one generator, owned exclusively by the manager.
pub struct DebugDataManager {
    generator: Option<DebugDataGenerator>,
}

impl DebugDataManager {
    /// The active generator, if one has been initialized.
    pub closed spec fn current(&self) -> Option<DebugDataGenerator> {
        self.generator
    }

    /// An active generator, if any, is well formed.
    pub open spec fn wf(&self) -> bool {
        self.current() matches Some(g) ==> g.wf()
    }

    /// A manager with no generator: every query fails until one is
    /// initialized.
    pub fn new() -> (r: Self)
        ensures
            r.current() is None,
            r.wf(),
    {
        DebugDataManager { generator: None }
    }

    /// Install a fresh generator of `total_rows` rows (10000 when none is
    /// given), replacing any previous one.
    pub fn init_debug_data(&mut self, total_rows: Option<usize>) -> (r: AppResult<()>)
        ensures
            r is Ok,
            final(self).current() matches Some(g) && g.total_rows == match total_rows {
                Some(n) => n as int,
                None => 10000,
            },
    {
        self.generator = Some(DebugDataGenerator::new(total_rows));
        Ok(())
    }

    /// Ask the generator for one page of rows; `DebugError` if none is
    /// initialized.
    pub fn load_debug_page(&self, page: usize, page_size: usize) -> (r: AppResult<
        PagedResponse<DebugRecord>,
    >)
        requires
            self.wf(),
        ensures
            match self.current() {
                Some(g) => generate_page_post(
                    g.total_rows as int,
                    page as int,
                    page_size as int,
                    r,
                ),
                None => r matches Err(e) && e matches AppError::DebugError(m) && m@
                    == "debug data not initialized"@,
            },
    {
        match &self.generator {
            Some(g) => g.generate_page(page, page_size),
            None => Err(AppError::DebugError("debug data not initialized".to_owned())),
        }
    }

    /// Ask the generator for one page of pretend matches; `DebugError` if
    /// none is initialized.
    pub fn search_debug(&self, keyword: &str, page: usize, page_size: usize) -> (r: AppResult<
        PagedResponse<DebugRecord>,
    >)
        requires
            self.wf(),
            page >= 1,
        ensures
            match self.current() {
                Some(g) => debug_search_post(
                    g.total_rows as int,
                    keyword@,
                    page as int,
                    page_size as int,
                    r,
                ),
                None => r matches Err(e) && e matches AppError::DebugError(m) && m@
                    == "debug data not initialized"@,
            },
    {
        match &self.generator {
            Some(g) => g.search(keyword, page, page_size),
            None => Err(AppError::DebugError("debug data not initialized".to_owned())),
        }
    }

    /// The generator's row count; `DebugError` if none is initialized.
    pub fn debug_total_rows(&self) -> (r: AppResult<usize>)
        ensures
            match self.current() {
                Some(g) => r matches Ok(n) && n == g.total_rows,
                None => r matches Err(e) && e matches AppError::DebugError(m) && m@
                    == "debug data not initialized"@,
            },
    {
        match &self.generator {
            Some(g) => Ok(g.total_rows),
            None => Err(AppError::DebugError("debug data not initialized".to_owned())),
        }
    }
}

} // verus!
