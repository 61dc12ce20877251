//! The crawl over a category's archive: the listing of the archive itself
//! and then the listings of the twelve months of the current year.
//!
//! The crawl does not fetch. It says which page it needs next, takes the
//! body of that page, and keeps the files found so far; whoever runs it
//! fetches the pages in between.

use vstd::prelude::*;
use crate::data_type::{Month, StationDataType};
use crate::gather::{gather, lemma_gather_ok};
use crate::listing::{
    archive_file_of, archive_files, archive_files_in, archive_outcomes, archive_row_pattern,
    regex_captures, ListingError,
};
use crate::schema::{HistoricFileView, StationHistoricFile};
use crate::urls::{
    historical_listing_address, historical_listing_url, monthly_listing_address,
    monthly_listing_url,
};

verus! {

/// The number of pages of a crawl: the archive's listing and twelve months.
pub const CRAWL_PAGES: u32 = 13;

/// A crawl in progress.
#[derive(Debug, PartialEq, Eq)]
pub struct HistoricCrawl {
    /// The category whose files are looked for.
    pub data_type: StationDataType,
    /// How many pages have been read.
    pub step: u32,
    /// The files found on the pages read, in the order of the pages and of
    /// their rows.
    pub files: Vec<StationHistoricFile>,
}

/// The address of page `step` of a crawl: the archive's listing for 0, the
/// listing of month `step` for 1 to 12, and none beyond.
pub open spec fn page_address(data_type: StationDataType, step: int) -> Option<Seq<char>> {
    if step == 0 {
        Some(historical_listing_address(data_type))
    } else {
        match Month::at(step) {
            Some(month) => Some(monthly_listing_address(data_type, month)),
            None => None,
        }
    }
}

/// The files that page `step` of a crawl names, given what the search of
/// its body found. The files of a month's page carry the month's label as
/// their period.
pub open spec fn page_files(
    found: Option<Seq<Seq<Option<Seq<char>>>>>,
    data_type: StationDataType,
    step: int,
) -> Result<Seq<HistoricFileView>, ListingError> {
    archive_files(found, data_type, Month::at(step))
}

/// Every file that a month's listing yields carries the month's label as
/// its period, and the category that was asked for.
pub proof fn lemma_monthly_files_carry_label(
    found: Option<Seq<Seq<Option<Seq<char>>>>>,
    data_type: StationDataType,
    month: Month,
)
    ensures
        archive_files(found, data_type, Some(month)) matches Ok(files) ==> forall|i: int|
            0 <= i < files.len() ==> (#[trigger] files[i]).year == month.label()
                && files[i].data_type == data_type,
{
    if found is Some {
        let rows = found->0;
        let outcomes = archive_outcomes(rows, data_type, Some(month));
        lemma_gather_ok(outcomes);
        if gather(outcomes) is Ok {
            let files = gather(outcomes)->Ok_0;
            assert forall|i: int| 0 <= i < files.len() implies (#[trigger] files[i]).year
                == month.label() && files[i].data_type == data_type by {
                assert(outcomes[i] == archive_file_of(
                    rows[i],
                    data_type,
                    Some(month),
                    i as usize,
                ));
            }
        }
    }
}

impl HistoricCrawl {
    /// Whether all pages have been read.
    pub open spec fn finished(self) -> bool {
        self.step >= CRAWL_PAGES
    }

    /// A crawl that has read no page.
    pub fn new(data_type: StationDataType) -> (r: HistoricCrawl)
        ensures
            r.data_type == data_type,
            r.step == 0,
            r.files.deep_view() == Seq::<HistoricFileView>::empty(),
    {
        let files: Vec<StationHistoricFile> = Vec::new();
        proof {
            assert(files.deep_view() =~= Seq::<HistoricFileView>::empty());
        }
        HistoricCrawl { data_type, step: 0, files }
    }

    /// Whether all pages have been read.
    pub fn is_finished(&self) -> (r: bool)
        ensures
            r == self.finished(),
    {
        self.step >= CRAWL_PAGES
    }

    /// The address of the page that the crawl needs next; `None` when all
    /// pages have been read.
    pub fn next_url(&self) -> (r: Option<String>)
        ensures
            r.deep_view() == page_address(self.data_type, self.step as int),
            r is None <==> self.finished(),
    {
        if self.step == 0 {
            Some(historical_listing_url(self.data_type))
        } else {
            match Month::from_number(self.step) {
                Some(month) => Some(monthly_listing_url(self.data_type, month)),
                None => None,
            }
        }
    }

    /// The crawl after the body of the page it needed has been read: the
    /// files that the page names are added behind those found before. A page
    /// that cannot be read is an error. A crawl that has read all its pages
    /// stays as it is.
    pub fn accept(self, body: &str) -> (r: Result<HistoricCrawl, ListingError>)
        ensures
            self.finished() ==> (r matches Ok(next) && next.data_type == self.data_type
                && next.step == self.step && next.files.deep_view() == self.files.deep_view()),
            !self.finished() ==> (match page_files(
                regex_captures(archive_row_pattern(), body@),
                self.data_type,
                self.step as int,
            ) {
                Ok(found) => (r matches Ok(next) && next.data_type == self.data_type && next.step
                    == self.step + 1 && next.files.deep_view() == self.files.deep_view()
                    + found),
                Err(e) => r == Err::<HistoricCrawl, ListingError>(e),
            }),
    {
        if self.step >= CRAWL_PAGES {
            return Ok(self);
        }
        let label = Month::from_number(self.step);
        let mut found = match archive_files_in(body, self.data_type, label) {
            Ok(found) => found,
            Err(e) => {
                return Err(e);
            },
        };
        let ghost before = self.files.deep_view();
        let ghost added = found.deep_view();
        let mut files = self.files;
        files.append(&mut found);
        proof {
            assert(files.deep_view() =~= before + added);
        }
        Ok(HistoricCrawl { data_type: self.data_type, step: self.step + 1, files })
    }

    /// The files found on the pages read.
    pub fn into_files(self) -> (r: Vec<StationHistoricFile>)
        ensures
            r.deep_view() == self.files.deep_view(),
    {
        self.files
    }
}

} // verus!
