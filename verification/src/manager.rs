//! The manager: at most one active store, swapped wholesale and queried
//! through one place.
//!
//! Exclusive access is what serializes callers: every operation takes the
//! manager by reference, and a replacement takes it by exclusive
//! reference, so no query can observe a half-replaced store. The
//! surrounding program puts the manager behind whatever mutual-exclusion
//! guard its scheduler needs.

use crate::data::{PagedResponse, Record};
use crate::error::{AppError, AppResult};
use crate::reader::{load_page_post, search_post, JsonlReader};
use vstd::prelude::*;

verus! {

/// Zero or one active store, owned exclusively by the manager.
pub struct JsonlReaderManager {
    current_reader: Option<JsonlReader>,
}

impl JsonlReaderManager {
    /// The active store, if one has been set.
    pub closed spec fn current(&self) -> Option<JsonlReader> {
        self.current_reader
    }

    /// An active store, if any, is well formed.
    pub open spec fn wf(&self) -> bool {
        self.current() matches Some(rd) ==> rd.wf()
    }

    /// A manager with no active store: every query fails with
    /// `NoActiveStore` until one is set.
    pub fn new() -> (r: Self)
        ensures
            r.current() is None,
            r.wf(),
    {
        JsonlReaderManager { current_reader: None }
    }

    /// Replace the active store: the previous one, if any, is dropped,
    /// and every later query is answered from `reader` alone.
    pub fn set_reader(&mut self, reader: JsonlReader)
        requires
            reader.wf(),
        ensures
            final(self).current() == Some(reader),
            final(self).wf(),
    {
        self.current_reader = Some(reader);
    }

    /// Ask the active store for one page of records; `NoActiveStore` if
    /// none is set.
    pub fn load_page(&self, page: usize, page_size: usize) -> (r: AppResult<
        PagedResponse<Record>,
    >)
        requires
            self.wf(),
            page >= 1,
            page_size >= 1,
        ensures
            match self.current() {
                Some(rd) => load_page_post(
                    rd.lines_view(),
                    rd.total(),
                    page as int,
                    page_size as int,
                    r,
                ),
                None => r == Err::<PagedResponse<Record>, AppError>(AppError::NoActiveStore),
            },
    {
        match &self.current_reader {
            Some(rd) => rd.load_page(page, page_size),
            None => Err(AppError::NoActiveStore),
        }
    }

    /// Ask the active store for one page of matches; `NoActiveStore` if
    /// none is set.
    pub fn search(&self, keyword: &str, page: usize, page_size: usize) -> (r: AppResult<
        PagedResponse<Record>,
    >)
        requires
            self.wf(),
            page >= 1,
            page_size >= 1,
        ensures
            match self.current() {
                Some(rd) => search_post(
                    rd.lines_view(),
                    keyword@,
                    page as int,
                    page_size as int,
                    r,
                ),
                None => r == Err::<PagedResponse<Record>, AppError>(AppError::NoActiveStore),
            },
    {
        match &self.current_reader {
            Some(rd) => rd.search(keyword, page, page_size),
            None => Err(AppError::NoActiveStore),
        }
    }

    /// The active store's cached line count; `NoActiveStore` if none is
    /// set.
    pub fn total_lines(&self) -> (r: AppResult<usize>)
        ensures
            match self.current() {
                Some(rd) => r matches Ok(n) && n == rd.total(),
                None => r == Err::<usize, AppError>(AppError::NoActiveStore),
            },
    {
        match &self.current_reader {
            Some(rd) => Ok(rd.total_lines()),
            None => Err(AppError::NoActiveStore),
        }
    }
}

} // verus!
