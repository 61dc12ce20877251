//! File discovery: which files a listing page or a station's history page
//! names.
//!
//! The pages are searched with the `regex` crate. What it finds is handed,
//! row by row, to the functions of this module, which make the descriptors.

use vstd::prelude::*;
use vstd::string::StringExecFns;
use crate::data_type::{Month, StationDataType};
use crate::gather::{gather, lemma_gather_error, lemma_gather_step, outcome_view};
use crate::lines::{is_space, space_char};
use crate::schema::{
    HistoricFileView, HistoryLinkView, RealtimeFileView, StationHistoricFile,
    StationHistorySTDMET, StationRealtimeFile,
};
use crate::text::{chars_of, string_of, to_upper, upper};
use crate::timestamp::{clock_format, datetime_of, read_clock, Timestamp};

verus! {

/// Why a page could not be read.
#[derive(Clone, Copy, Debug, PartialEq, Eq, Structural)]
pub enum ListingError {
    /// The pattern by which the page is searched was refused.
    Pattern,
    /// The file name of a row is too short to hold what is read from it.
    /// `row` counts the rows found from 0.
    Filename { row: usize },
    /// The time of last change of a row is no date and time.
    Timestamp { row: usize },
}

/// What the `regex` crate finds when a text is searched for a pattern: for
/// each match, from left to right and without overlap, the text of the whole
/// match and of each group of the pattern, `None` for a group that took no
/// part in the match. `None` where the crate refuses the pattern.
pub uninterp spec fn regex_captures(pattern: Seq<char>, text: Seq<char>) -> Option<
    Seq<Seq<Option<Seq<char>>>>,
>;

/// Compiles the pattern with `regex::Regex::new` and walks the text with
/// `Regex::captures_iter`, copying from each `Captures` the text of every
/// group. The contract names the outcome, which depends on the two texts
/// alone.
#[verifier::external_body]
pub(crate) fn find_captures(pattern: &str, text: &str) -> (r: Option<Vec<Vec<Option<String>>>>)
    ensures
        r.deep_view() == regex_captures(pattern@, text@),
{
    match regex::Regex::new(pattern) {
        Ok(re) => Some(
            re.captures_iter(text).map(
                |c| c.iter().map(|m| m.map(|m| m.as_str().to_string())).collect(),
            ).collect(),
        ),
        Err(_) => None,
    }
}

/// What a search of a text for a pattern finds: see [`regex_captures`].
/// A pattern that is refused is an error.
pub fn search(pattern: &str, text: &str) -> (r: Result<Vec<Vec<Option<String>>>, ListingError>)
    ensures
        match r {
            Ok(rows) => regex_captures(pattern@, text@) == Some(rows.deep_view()),
            Err(e) => e == ListingError::Pattern && regex_captures(pattern@, text@) is None,
        },
{
    match find_captures(pattern, text) {
        Some(rows) => Ok(rows),
        None => Err(ListingError::Pattern),
    }
}

/// The text of a group of a row: empty where the row has no such group or
/// the group took no part in the match.
pub open spec fn group(row: Seq<Option<Seq<char>>>, i: int) -> Seq<char> {
    if 0 <= i < row.len() {
        match row[i] {
            Some(text) => text,
            None => Seq::empty(),
        }
    } else {
        Seq::empty()
    }
}

/// The text of a group of a row: see [`group`].
pub fn group_of(row: &Vec<Option<String>>, i: usize) -> (r: String)
    ensures
        r@ == group(row.deep_view(), i as int),
{
    if i < row.len() {
        match &row[i] {
            Some(text) => text.clone(),
            None => String::new(),
        }
    } else {
        String::new()
    }
}

/// A text without the whitespace it starts with.
pub open spec fn trim_start(s: Seq<char>) -> Seq<char>
    decreases s.len(),
{
    if s.len() > 0 && is_space(s[0]) {
        trim_start(s.skip(1))
    } else {
        s
    }
}

/// A text without the whitespace it ends with.
pub open spec fn trim_end(s: Seq<char>) -> Seq<char>
    decreases s.len(),
{
    if s.len() > 0 && is_space(s.last()) {
        trim_end(s.drop_last())
    } else {
        s
    }
}

/// A text without the whitespace at its start and at its end.
pub open spec fn trimmed(s: Seq<char>) -> Seq<char> {
    trim_end(trim_start(s))
}

/// A text without the whitespace at its start and at its end.
pub fn trim(s: &str) -> (r: String)
    ensures
        r@ == trimmed(s@),
{
    let chars = chars_of(s);
    let mut start: usize = 0;
    proof {
        assert(chars@.skip(0) =~= chars@);
    }
    while start < chars.len() && space_char(chars[start])
        invariant
            start <= chars.len(),
            trim_start(chars@) == trim_start(chars@.skip(start as int)),
        decreases chars.len() - start,
    {
        proof {
            assert(chars@.skip(start as int).skip(1) =~= chars@.skip(start as int + 1));
        }
        start += 1;
    }
    let mut end: usize = chars.len();
    proof {
        assert(chars@.subrange(start as int, end as int) =~= chars@.skip(start as int));
    }
    while end > start && space_char(chars[end - 1])
        invariant
            start <= end <= chars.len(),
            trimmed(chars@) == trim_end(chars@.subrange(start as int, end as int)),
        decreases end - start,
    {
        proof {
            assert(chars@.subrange(start as int, end as int).drop_last() =~= chars@.subrange(
                start as int,
                end as int - 1,
            ));
        }
        end -= 1;
    }
    string_of(&chars, start, end)
}

/// The pattern of a row of a directory listing that shows a compressed
/// file. Its first group is the file's name.
pub open spec fn archive_row_pattern() -> Seq<char> {
    r###"<tr><td valign="top"><img src="/icons/compressed.gif" alt="\[   \]"></td><td><a href="(.{5,50})">(.{5,50})</a></td><td align="right">(.{5,50})</td><td align="right">(.{1,50})</td><td>(.{1,50})</td></tr>"###@
}

/// The pattern of a row of a directory listing that shows a text file. Its
/// first two groups are the file's name before and behind the first point,
/// its fourth the time of last change.
pub open spec fn realtime_row_pattern() -> Seq<char> {
    r###"<tr><td valign="top"><img src="/icons/text.gif" alt="\[TXT\]"></td><td><a href="(.{5,50})\.(.{2,50})">(.{5,50})</a></td><td align="right">(.{5,50})</td><td align="right">(.{1,50})</td><td>(.{1,50})</td></tr>"###@
}

/// The pattern of a link of a station's history page to a file of a
/// category's archive. Its groups are the file's name before and behind the
/// first point, and the link's text, which is the year.
pub open spec fn yearly_link_pattern(data_type: StationDataType) -> Seq<char> {
    r###"<a href="/download_data\.php\?filename=(.{5,25})\.(.{2,25})\&dir=data/historical/"###@
        + data_type.code() + r###"/">(.{1,6})</a>"###@
}

/// The pattern of a link of a station's history page to a file of a month
/// of the current year. Its groups are the file's name before and behind the
/// first point, the month's label, and the link's text.
pub open spec fn monthly_link_pattern(data_type: StationDataType) -> Seq<char> {
    r###"<a href="/download_data\.php\?filename=(.{5,25})\.(.{2,25})\&dir=data/"###@
        + data_type.code()
        + r###"/(Jan|Feb|Mar|Apr|May|Jun|Jul|Aug|Sep|Oct|Nov|Dec)/">(.{1,6})</a>"###@
}

/// The pattern of a link to a file of a category's archive, as a history
/// page writes it with the ampersand escaped. Its groups are the file's name
/// and the link's text, which is the year.
pub open spec fn escaped_link_pattern(data_type: StationDataType) -> Seq<char> {
    r###"<a href="/download_data\.php\?filename=(.{5,25})&amp;dir=data/historical/"###@
        + data_type.code() + r###"/">(.{1,6})</a>"###@
}

/// The pattern of a row that shows a compressed file: see
/// [`archive_row_pattern`].
pub fn archive_rows() -> (r: &'static str)
    ensures
        r@ == archive_row_pattern(),
{
    r###"<tr><td valign="top"><img src="/icons/compressed.gif" alt="\[   \]"></td><td><a href="(.{5,50})">(.{5,50})</a></td><td align="right">(.{5,50})</td><td align="right">(.{1,50})</td><td>(.{1,50})</td></tr>"###
}

/// The pattern of a row that shows a text file: see
/// [`realtime_row_pattern`].
pub fn realtime_rows() -> (r: &'static str)
    ensures
        r@ == realtime_row_pattern(),
{
    r###"<tr><td valign="top"><img src="/icons/text.gif" alt="\[TXT\]"></td><td><a href="(.{5,50})\.(.{2,50})">(.{5,50})</a></td><td align="right">(.{5,50})</td><td align="right">(.{1,50})</td><td>(.{1,50})</td></tr>"###
}

/// The pattern of a link to a file of a category's archive: see
/// [`yearly_link_pattern`].
pub fn yearly_links(data_type: StationDataType) -> (r: String)
    ensures
        r@ == yearly_link_pattern(data_type),
{
    let mut pattern = String::from_str(
        r###"<a href="/download_data\.php\?filename=(.{5,25})\.(.{2,25})\&dir=data/historical/"###,
    );
    pattern.append(data_type.as_str());
    pattern.append(r###"/">(.{1,6})</a>"###);
    pattern
}

/// The pattern of a link to a file of a month of the current year: see
/// [`monthly_link_pattern`].
pub fn monthly_links(data_type: StationDataType) -> (r: String)
    ensures
        r@ == monthly_link_pattern(data_type),
{
    let mut pattern = String::from_str(
        r###"<a href="/download_data\.php\?filename=(.{5,25})\.(.{2,25})\&dir=data/"###,
    );
    pattern.append(data_type.as_str());
    pattern.append(r###"/(Jan|Feb|Mar|Apr|May|Jun|Jul|Aug|Sep|Oct|Nov|Dec)/">(.{1,6})</a>"###);
    pattern
}

/// The pattern of a link with the ampersand escaped: see
/// [`escaped_link_pattern`].
pub fn escaped_links(data_type: StationDataType) -> (r: String)
    ensures
        r@ == escaped_link_pattern(data_type),
{
    let mut pattern = String::from_str(
        r###"<a href="/download_data\.php\?filename=(.{5,25})&amp;dir=data/historical/"###,
    );
    pattern.append(data_type.as_str());
    pattern.append(r###"/">(.{1,6})</a>"###);
    pattern
}

/// The descriptor that a row of a directory listing stands for. The station
/// is the first five characters of the file's name in capital letters. In
/// the archive's listing (`label` is `None`) the period is the year, which
/// is the seventh to tenth character of the name; in a month's listing it is
/// the month's label. A name too short for that is an error.
pub open spec fn archive_file_of(
    row: Seq<Option<Seq<char>>>,
    data_type: StationDataType,
    label: Option<Month>,
    at: usize,
) -> Result<HistoricFileView, ListingError> {
    let name = group(row, 1);
    match label {
        None => if name.len() < 10 {
            Err(ListingError::Filename { row: at })
        } else {
            Ok(
                HistoricFileView {
                    filename: name,
                    station: upper(name.subrange(0, 5)),
                    data_type,
                    year: name.subrange(6, 10),
                },
            )
        },
        Some(month) => if name.len() < 5 {
            Err(ListingError::Filename { row: at })
        } else {
            Ok(
                HistoricFileView {
                    filename: name,
                    station: upper(name.subrange(0, 5)),
                    data_type,
                    year: month.label(),
                },
            )
        },
    }
}

/// The outcome of each row of a directory listing, in order.
pub open spec fn archive_outcomes(
    rows: Seq<Seq<Option<Seq<char>>>>,
    data_type: StationDataType,
    label: Option<Month>,
) -> Seq<Result<HistoricFileView, ListingError>> {
    Seq::new(rows.len(), |i: int| archive_file_of(rows[i], data_type, label, i as usize))
}

/// The files that a directory listing names, given what the search found:
/// the descriptors of all rows, or the error of the first row that has one.
pub open spec fn archive_files(
    found: Option<Seq<Seq<Option<Seq<char>>>>>,
    data_type: StationDataType,
    label: Option<Month>,
) -> Result<Seq<HistoricFileView>, ListingError> {
    match found {
        None => Err(ListingError::Pattern),
        Some(rows) => gather(archive_outcomes(rows, data_type, label)),
    }
}

/// The descriptor that a row of a directory listing stands for: see
/// [`archive_file_of`].
pub fn archive_file(
    row: &Vec<Option<String>>,
    data_type: StationDataType,
    label: Option<Month>,
    at: usize,
) -> (r: Result<StationHistoricFile, ListingError>)
    ensures
        match r {
            Ok(file) => archive_file_of(row.deep_view(), data_type, label, at) == Ok::<
                HistoricFileView,
                ListingError,
            >(file@),
            Err(e) => archive_file_of(row.deep_view(), data_type, label, at) == Err::<
                HistoricFileView,
                ListingError,
            >(e),
        },
{
    let name = group_of(row, 1);
    let chars = chars_of(name.as_str());
    match label {
        None => {
            if chars.len() < 10 {
                return Err(ListingError::Filename { row: at });
            }
            let head = string_of(&chars, 0, 5);
            let year = string_of(&chars, 6, 10);
            Ok(
                StationHistoricFile {
                    filename: name,
                    station: to_upper(head.as_str()),
                    data_type,
                    year,
                },
            )
        },
        Some(month) => {
            if chars.len() < 5 {
                return Err(ListingError::Filename { row: at });
            }
            let head = string_of(&chars, 0, 5);
            Ok(
                StationHistoricFile {
                    filename: name,
                    station: to_upper(head.as_str()),
                    data_type,
                    year: month.abbrev().to_owned(),
                },
            )
        },
    }
}

/// The files that the rows of a directory listing name. Every descriptor of
/// a month's listing carries the month's label as its period.
pub fn archive_files_from(
    rows: &Vec<Vec<Option<String>>>,
    data_type: StationDataType,
    label: Option<Month>,
) -> (r: Result<Vec<StationHistoricFile>, ListingError>)
    ensures
        outcome_view(r) == gather(archive_outcomes(rows.deep_view(), data_type, label)),
        r matches Ok(files) ==> files.len() == rows.len() && forall|i: int|
            0 <= i < files.len() ==> (#[trigger] files[i])@.data_type == data_type && (
            label matches Some(month) ==> files[i]@.year == month.label()),
{
    let ghost outcomes = archive_outcomes(rows.deep_view(), data_type, label);
    let mut files: Vec<StationHistoricFile> = Vec::new();
    let mut i: usize = 0;
    proof {
        assert(outcomes.take(0) =~= Seq::<Result<HistoricFileView, ListingError>>::empty());
        assert(files.deep_view() =~= Seq::<HistoricFileView>::empty());
    }
    while i < rows.len()
        invariant
            i <= rows.len(),
            files.len() == i,
            outcomes == archive_outcomes(rows.deep_view(), data_type, label),
            gather(outcomes.take(i as int)) == Ok::<Seq<HistoricFileView>, ListingError>(
                files.deep_view(),
            ),
            forall|j: int|
                0 <= j < files.len() ==> (#[trigger] files[j])@.data_type == data_type && (
                label matches Some(month) ==> files[j]@.year == month.label()),
        decreases rows.len() - i,
    {
        proof {
            assert(rows.deep_view()[i as int] == rows[i as int].deep_view());
            lemma_gather_step(outcomes, i as int);
        }
        match archive_file(&rows[i], data_type, label, i) {
            Ok(file) => {
                let ghost before = files.deep_view();
                let ghost added = file@;
                files.push(file);
                proof {
                    assert(files.deep_view() =~= before.push(added));
                }
            },
            Err(e) => {
                proof {
                    lemma_gather_error(outcomes, i as int + 1, e);
                }
                return Err(e);
            },
        }
        i += 1;
    }
    proof {
        assert(outcomes.take(i as int) =~= outcomes);
    }
    Ok(files)
}

/// The files that a directory listing names: the archive's listing where
/// `label` is `None`, and else the listing of that month of the current
/// year, whose label every descriptor then carries as its period.
pub fn archive_files_in(body: &str, data_type: StationDataType, label: Option<Month>) -> (r:
    Result<Vec<StationHistoricFile>, ListingError>)
    ensures
        outcome_view(r) == archive_files(
            regex_captures(archive_row_pattern(), body@),
            data_type,
            label,
        ),
        r matches Ok(files) ==> forall|i: int|
            0 <= i < files.len() ==> (#[trigger] files[i])@.data_type == data_type && (
            label matches Some(month) ==> files[i]@.year == month.label()),
{
    match find_captures(archive_rows(), body) {
        Some(rows) => archive_files_from(&rows, data_type, label),
        None => Err(ListingError::Pattern),
    }
}

/// The descriptor that a row of the realtime listing stands for, given the
/// date and time read from the row's time of last change: the file's name is
/// the first two groups joined by a point, the station the first group in
/// capital letters, the category the one that the second group stands for.
pub open spec fn realtime_file_of(
    row: Seq<Option<Seq<char>>>,
    clock: Option<Timestamp>,
    at: usize,
) -> Result<RealtimeFileView, ListingError> {
    match clock {
        None => Err(ListingError::Timestamp { row: at }),
        Some(timestamp) => Ok(
            RealtimeFileView {
                filename: group(row, 1) + "."@ + group(row, 2),
                station: upper(group(row, 1)),
                data_type: StationDataType::of_extension(group(row, 2)),
                timestamp,
            },
        ),
    }
}

/// The outcome of each row of the realtime listing, in order.
pub open spec fn realtime_outcomes(rows: Seq<Seq<Option<Seq<char>>>>) -> Seq<
    Result<RealtimeFileView, ListingError>,
> {
    Seq::new(
        rows.len(),
        |i: int|
            realtime_file_of(
                rows[i],
                datetime_of(trimmed(group(rows[i], 4)), clock_format()),
                i as usize,
            ),
    )
}

/// The files of a list that are of a category, in the list's order.
pub open spec fn of_type(files: Seq<RealtimeFileView>, data_type: StationDataType) -> Seq<
    RealtimeFileView,
> {
    files.filter(|file: RealtimeFileView| file.data_type == data_type)
}

/// The files of a category that the realtime listing names, given what the
/// search found: every row is read, and the first whose time of last change
/// cannot be read is an error whatever its category.
pub open spec fn realtime_files(
    found: Option<Seq<Seq<Option<Seq<char>>>>>,
    data_type: StationDataType,
) -> Result<Seq<RealtimeFileView>, ListingError> {
    match found {
        None => Err(ListingError::Pattern),
        Some(rows) => match gather(realtime_outcomes(rows)) {
            Ok(files) => Ok(of_type(files, data_type)),
            Err(e) => Err(e),
        },
    }
}

/// The descriptor that a row of the realtime listing stands for: see
/// [`realtime_file_of`].
pub fn realtime_file(row: &Vec<Option<String>>, clock: Option<Timestamp>, at: usize) -> (r:
    Result<StationRealtimeFile, ListingError>)
    ensures
        match r {
            Ok(file) => realtime_file_of(row.deep_view(), clock, at) == Ok::<
                RealtimeFileView,
                ListingError,
            >(file@),
            Err(e) => realtime_file_of(row.deep_view(), clock, at) == Err::<
                RealtimeFileView,
                ListingError,
            >(e),
        },
{
    let timestamp = match clock {
        Some(t) => t,
        None => {
            return Err(ListingError::Timestamp { row: at });
        },
    };
    let stem = group_of(row, 1);
    let ending = group_of(row, 2);
    let mut filename = stem.clone();
    filename.append(".");
    filename.append(ending.as_str());
    Ok(
        StationRealtimeFile {
            filename,
            station: to_upper(stem.as_str()),
            data_type: StationDataType::from_extension(ending.as_str()),
            timestamp,
        },
    )
}

/// The files of a category that the rows of the realtime listing name.
pub fn realtime_files_from(rows: &Vec<Vec<Option<String>>>, data_type: StationDataType) -> (r:
    Result<Vec<StationRealtimeFile>, ListingError>)
    ensures
        outcome_view(r) == realtime_files(Some(rows.deep_view()), data_type),
        r matches Ok(files) ==> forall|i: int|
            0 <= i < files.len() ==> (#[trigger] files[i])@.data_type == data_type,
{
    let ghost outcomes = realtime_outcomes(rows.deep_view());
    let ghost mut all: Seq<RealtimeFileView> = Seq::empty();
    let mut files: Vec<StationRealtimeFile> = Vec::new();
    let mut i: usize = 0;
    proof {
        reveal_with_fuel(Seq::filter, 2);
        assert(outcomes.take(0) =~= Seq::<Result<RealtimeFileView, ListingError>>::empty());
        assert(files.deep_view() =~= Seq::<RealtimeFileView>::empty());
    }
    while i < rows.len()
        invariant
            i <= rows.len(),
            outcomes == realtime_outcomes(rows.deep_view()),
            gather(outcomes.take(i as int)) == Ok::<Seq<RealtimeFileView>, ListingError>(all),
            files.deep_view() == of_type(all, data_type),
            forall|j: int|
                0 <= j < files.len() ==> (#[trigger] files[j])@.data_type == data_type,
        decreases rows.len() - i,
    {
        let row = &rows[i];
        let changed = group_of(row, 4);
        let text = trim(changed.as_str());
        let clock = read_clock(text.as_str());
        proof {
            assert(rows.deep_view()[i as int] == row.deep_view());
            lemma_gather_step(outcomes, i as int);
        }
        match realtime_file(row, clock, i) {
            Ok(file) => {
                proof {
                    let next = all.push(file@);
                    reveal_with_fuel(Seq::filter, 2);
                    assert(next.drop_last() =~= all);
                    all = next;
                }
                if file.data_type == data_type {
                    let ghost before = files.deep_view();
                    let ghost added = file@;
                    files.push(file);
                    proof {
                        assert(files.deep_view() =~= before.push(added));
                    }
                }
            },
            Err(e) => {
                proof {
                    lemma_gather_error(outcomes, i as int + 1, e);
                }
                return Err(e);
            },
        }
        i += 1;
    }
    proof {
        assert(outcomes.take(i as int) =~= outcomes);
    }
    Ok(files)
}

/// The files of a category that the realtime listing names.
pub fn realtime_files_in(body: &str, data_type: StationDataType) -> (r: Result<
    Vec<StationRealtimeFile>,
    ListingError,
>)
    ensures
        outcome_view(r) == realtime_files(
            regex_captures(realtime_row_pattern(), body@),
            data_type,
        ),
        r matches Ok(files) ==> forall|i: int|
            0 <= i < files.len() ==> (#[trigger] files[i])@.data_type == data_type,
{
    match find_captures(realtime_rows(), body) {
        Some(rows) => realtime_files_from(&rows, data_type),
        None => Err(ListingError::Pattern),
    }
}

/// The descriptor that a link of a station's history page stands for: the
/// file's name is the first two groups joined by a point, the station the
/// first five characters of that name in capital letters, the period the
/// third group. A name too short for that is an error.
pub open spec fn link_file_of(
    row: Seq<Option<Seq<char>>>,
    data_type: StationDataType,
    at: usize,
) -> Result<HistoricFileView, ListingError> {
    let name = group(row, 1) + "."@ + group(row, 2);
    if name.len() < 5 {
        Err(ListingError::Filename { row: at })
    } else {
        Ok(
            HistoricFileView {
                filename: name,
                station: upper(name.subrange(0, 5)),
                data_type,
                year: group(row, 3),
            },
        )
    }
}

/// The outcome of each link found, in order.
pub open spec fn link_outcomes(rows: Seq<Seq<Option<Seq<char>>>>, data_type: StationDataType)
    -> Seq<Result<HistoricFileView, ListingError>> {
    Seq::new(rows.len(), |i: int| link_file_of(rows[i], data_type, i as usize))
}

/// The files that a station's history page links to, given what the two
/// searches found: those of the archive, and behind them those of the months
/// of the current year; or the error of the first link that has one.
pub open spec fn station_downloads(
    yearly: Option<Seq<Seq<Option<Seq<char>>>>>,
    monthly: Option<Seq<Seq<Option<Seq<char>>>>>,
    data_type: StationDataType,
) -> Result<Seq<HistoricFileView>, ListingError> {
    match (yearly, monthly) {
        (Some(y), Some(m)) => match gather(link_outcomes(y, data_type)) {
            Err(e) => Err(e),
            Ok(first) => match gather(link_outcomes(m, data_type)) {
                Err(e) => Err(e),
                Ok(second) => Ok(first + second),
            },
        },
        _ => Err(ListingError::Pattern),
    }
}

/// The descriptor that a link of a station's history page stands for: see
/// [`link_file_of`].
pub fn link_file(row: &Vec<Option<String>>, data_type: StationDataType, at: usize) -> (r: Result<
    StationHistoricFile,
    ListingError,
>)
    ensures
        match r {
            Ok(file) => link_file_of(row.deep_view(), data_type, at) == Ok::<
                HistoricFileView,
                ListingError,
            >(file@),
            Err(e) => link_file_of(row.deep_view(), data_type, at) == Err::<
                HistoricFileView,
                ListingError,
            >(e),
        },
{
    let mut filename = group_of(row, 1);
    let ending = group_of(row, 2);
    filename.append(".");
    filename.append(ending.as_str());
    let chars = chars_of(filename.as_str());
    if chars.len() < 5 {
        return Err(ListingError::Filename { row: at });
    }
    let head = string_of(&chars, 0, 5);
    Ok(
        StationHistoricFile {
            filename,
            station: to_upper(head.as_str()),
            data_type,
            year: group_of(row, 3),
        },
    )
}

/// The descriptors of the links found, or the error of the first link that
/// has one.
pub fn link_files_from(rows: &Vec<Vec<Option<String>>>, data_type: StationDataType) -> (r:
    Result<Vec<StationHistoricFile>, ListingError>)
    ensures
        outcome_view(r) == gather(link_outcomes(rows.deep_view(), data_type)),
{
    let ghost outcomes = link_outcomes(rows.deep_view(), data_type);
    let mut files: Vec<StationHistoricFile> = Vec::new();
    let mut i: usize = 0;
    proof {
        assert(outcomes.take(0) =~= Seq::<Result<HistoricFileView, ListingError>>::empty());
        assert(files.deep_view() =~= Seq::<HistoricFileView>::empty());
    }
    while i < rows.len()
        invariant
            i <= rows.len(),
            outcomes == link_outcomes(rows.deep_view(), data_type),
            gather(outcomes.take(i as int)) == Ok::<Seq<HistoricFileView>, ListingError>(
                files.deep_view(),
            ),
        decreases rows.len() - i,
    {
        proof {
            assert(rows.deep_view()[i as int] == rows[i as int].deep_view());
            lemma_gather_step(outcomes, i as int);
        }
        match link_file(&rows[i], data_type, i) {
            Ok(file) => {
                let ghost before = files.deep_view();
                let ghost added = file@;
                files.push(file);
                proof {
                    assert(files.deep_view() =~= before.push(added));
                }
            },
            Err(e) => {
                proof {
                    lemma_gather_error(outcomes, i as int + 1, e);
                }
                return Err(e);
            },
        }
        i += 1;
    }
    proof {
        assert(outcomes.take(i as int) =~= outcomes);
    }
    Ok(files)
}

/// The files that a station's history page links to, given the links to the
/// archive and the links to the months of the current year.
pub fn station_downloads_from(
    yearly: &Vec<Vec<Option<String>>>,
    monthly: &Vec<Vec<Option<String>>>,
    data_type: StationDataType,
) -> (r: Result<Vec<StationHistoricFile>, ListingError>)
    ensures
        outcome_view(r) == station_downloads(
            Some(yearly.deep_view()),
            Some(monthly.deep_view()),
            data_type,
        ),
{
    let mut files = match link_files_from(yearly, data_type) {
        Ok(files) => files,
        Err(e) => {
            return Err(e);
        },
    };
    let mut more = match link_files_from(monthly, data_type) {
        Ok(files) => files,
        Err(e) => {
            return Err(e);
        },
    };
    let ghost first = files.deep_view();
    let ghost second = more.deep_view();
    files.append(&mut more);
    proof {
        assert(files.deep_view() =~= first + second);
    }
    Ok(files)
}

/// The files of a category that a station's history page links to: those of
/// the archive, whose period is a year, and behind them those of the months
/// of the current year, whose period is the month's label. Each carries the
/// station's code, read from the file's name.
pub fn station_downloads_in(body: &str, data_type: StationDataType) -> (r: Result<
    Vec<StationHistoricFile>,
    ListingError,
>)
    ensures
        outcome_view(r) == station_downloads(
            regex_captures(yearly_link_pattern(data_type), body@),
            regex_captures(monthly_link_pattern(data_type), body@),
            data_type,
        ),
{
    let yearly_pattern = yearly_links(data_type);
    let monthly_pattern = monthly_links(data_type);
    let yearly = find_captures(yearly_pattern.as_str(), body);
    let monthly = find_captures(monthly_pattern.as_str(), body);
    match (yearly, monthly) {
        (Some(y), Some(m)) => station_downloads_from(&y, &m, data_type),
        _ => Err(ListingError::Pattern),
    }
}

/// The link that a match of [`escaped_link_pattern`] stands for.
pub open spec fn history_link_of(row: Seq<Option<Seq<char>>>) -> HistoryLinkView {
    HistoryLinkView { filename: group(row, 1), year: group(row, 2) }
}

/// The links found, in order.
pub open spec fn history_links(found: Option<Seq<Seq<Option<Seq<char>>>>>) -> Result<
    Seq<HistoryLinkView>,
    ListingError,
> {
    match found {
        Some(rows) => Ok(Seq::new(rows.len(), |i: int| history_link_of(rows[i]))),
        None => Err(ListingError::Pattern),
    }
}

/// The links to the archive, given what the search found.
pub fn history_links_from(rows: &Vec<Vec<Option<String>>>) -> (r: Vec<StationHistorySTDMET>)
    ensures
        Ok::<Seq<HistoryLinkView>, ListingError>(r.deep_view()) == history_links(
            Some(rows.deep_view()),
        ),
{
    let mut links: Vec<StationHistorySTDMET> = Vec::new();
    let mut i: usize = 0;
    while i < rows.len()
        invariant
            i <= rows.len(),
            links.len() == i,
            forall|j: int|
                0 <= j < i ==> (#[trigger] links[j])@ == history_link_of(rows[j].deep_view()),
        decreases rows.len() - i,
    {
        links.push(
            StationHistorySTDMET { filename: group_of(&rows[i], 1), year: group_of(&rows[i], 2) },
        );
        i += 1;
    }
    proof {
        let want = Seq::new(
            rows.deep_view().len(),
            |i: int| history_link_of(rows.deep_view()[i]),
        );
        assert forall|j: int| 0 <= j < want.len() implies links.deep_view()[j] == want[j] by {
            assert(links.deep_view()[j] == links[j]@);
            assert(rows.deep_view()[j] == rows[j].deep_view());
        }
        assert(links.deep_view() =~= want);
    }
    links
}

/// The links of a station's history page to the files of a category's
/// archive, where the page writes the ampersand of the address escaped.
pub fn history_links_in(body: &str, data_type: StationDataType) -> (r: Result<
    Vec<StationHistorySTDMET>,
    ListingError,
>)
    ensures
        outcome_view(r) == history_links(regex_captures(escaped_link_pattern(data_type), body@)),
{
    let pattern = escaped_links(data_type);
    match find_captures(pattern.as_str(), body) {
        Some(rows) => Ok(history_links_from(&rows)),
        None => Err(ListingError::Pattern),
    }
}

} // verus!
