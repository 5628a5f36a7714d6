//! Directory listings and searches: the options of a request, what goes into
//! the request, the entries of a reply, and what follows a page.

use vstd::prelude::*;
use vstd::string::*;
use crate::error::TransferError;
use crate::text::{push_decimal, same_text, spec_decimal, spec_holds_text};

verus! {

/// Number of entries asked for where the options name none.
pub const DEFAULT_PAGE_LIMIT: u32 = 100;

/// Width to which the name of a file is filled in a listing.
pub const NAME_COLUMN_WIDTH: usize = 40;

/// Width to which the size of a file is filled in a listing.
pub const SIZE_COLUMN_WIDTH: usize = 10;

/// How a directory listing is requested.
#[derive(Clone, Debug, PartialEq, Eq)]
pub struct ListOptions {
    pub limit: Option<u32>,
    pub marker: Option<String>,
    pub order_by: Option<String>,
    pub order_direction: Option<String>,
    pub fetch_all: bool,
}

impl Default for ListOptions {
    /// No limit, marker or order of its own, and one page only.
    fn default() -> (options: ListOptions)
        ensures
            options.limit is None,
            options.marker is None,
            options.order_by is None,
            options.order_direction is None,
            !options.fetch_all,
    {
        ListOptions {
            limit: None,
            marker: None,
            order_by: None,
            order_direction: None,
            fetch_all: false,
        }
    }
}

/// One entry of a listing or of a search result.
#[derive(Clone, Debug, PartialEq, Eq)]
pub struct FileItem {
    pub name: String,
    pub file_id: String,
    pub kind: String,
    pub size: Option<u64>,
    pub updated_at: Option<String>,
}

/// How a search is requested.
#[derive(Clone, Debug, PartialEq, Eq)]
pub struct SearchOptions {
    pub limit: Option<u32>,
    pub marker: Option<String>,
    pub order_by: Option<String>,
    pub order_direction: Option<String>,
    pub return_total_count: bool,
    pub fetch_all: bool,
}

impl Default for SearchOptions {
    /// No limit, marker or order of its own, no total count, one page only.
    fn default() -> (options: SearchOptions)
        ensures
            options.limit is None,
            options.marker is None,
            options.order_by is None,
            options.order_direction is None,
            !options.return_total_count,
            !options.fetch_all,
    {
        SearchOptions {
            limit: None,
            marker: None,
            order_by: None,
            order_direction: None,
            return_total_count: false,
            fetch_all: false,
        }
    }
}

/// What a request for one page of a listing carries.
#[derive(Clone, Debug, PartialEq, Eq)]
pub struct ListRequest {
    pub drive_id: String,
    pub parent_file_id: String,
    pub limit: u32,
    pub order_by: String,
    pub order_direction: String,
    pub marker: Option<String>,
}

/// What a request for one page of a search carries.
#[derive(Clone, Debug, PartialEq, Eq)]
pub struct SearchRequest {
    pub drive_id: String,
    pub query: String,
    pub limit: u32,
    pub marker: Option<String>,
    pub order_by: Option<String>,
    pub return_total_count: bool,
}

/// What follows a page.
#[derive(Clone, Debug, PartialEq, Eq)]
pub enum PageStep {
    /// Ask for the page that begins at the marker.
    Continue { marker: String },
    /// Stop; where a marker is given, tell the user that more can be had
    /// from there.
    Stop { next_marker: Option<String> },
}

/// A marker that is there and not empty.
pub open spec fn spec_marker(marker: Option<String>) -> Option<Seq<char>> {
    match marker {
        Some(m) => if m@.len() > 0 {
            Some(m@)
        } else {
            None
        },
        None => None,
    }
}

/// What a text that may be absent holds, `fallback` where it is absent.
pub open spec fn spec_text_or(text: Option<String>, fallback: Seq<char>) -> Seq<char> {
    match text {
        Some(t) => t@,
        None => fallback,
    }
}

/// The order of a search: the field, and behind a blank the direction where
/// one is given. No order where no field is given.
pub open spec fn spec_order_clause(order_by: Option<String>, direction: Option<String>) -> Option<
    Seq<char>,
> {
    match order_by {
        Some(field) => match direction {
            Some(d) => Some(field@ + " "@ + d@),
            None => Some(field@),
        },
        None => None,
    }
}

/// A copy of a text.
fn copy_of(text: &str) -> (copy: String)
    ensures
        copy@ == text@,
{
    text.to_owned()
}

/// The marker, where it is there and not empty.
pub fn usable_marker(marker: Option<String>) -> (r: Option<String>)
    ensures
        spec_holds_text(r, spec_marker(marker)),
        r matches Some(m) ==> marker == Some(m),
{
    match marker {
        Some(m) => if m.as_str().is_empty() {
            None
        } else {
            Some(m)
        },
        None => None,
    }
}

/// A copy of `text`, or of `fallback` where `text` is absent.
fn text_or(text: &Option<String>, fallback: &str) -> (r: String)
    ensures
        r@ == spec_text_or(*text, fallback@),
{
    match text {
        Some(t) => t.clone(),
        None => copy_of(fallback),
    }
}

/// The request for the page of the listing of `parent_file_id` that begins at
/// `marker`. Where the options name no limit, 100 entries are asked for;
/// where they name no order, the order is by `name_enhanced`, ascending. An
/// empty marker is no marker.
pub fn list_request(
    drive_id: &str,
    parent_file_id: &str,
    options: &ListOptions,
    marker: Option<String>,
) -> (request: ListRequest)
    ensures
        request.drive_id@ == drive_id@,
        request.parent_file_id@ == parent_file_id@,
        request.limit == match options.limit {
            Some(n) => n,
            None => DEFAULT_PAGE_LIMIT,
        },
        request.order_by@ == spec_text_or(options.order_by, "name_enhanced"@),
        request.order_direction@ == spec_text_or(options.order_direction, "ASC"@),
        spec_holds_text(request.marker, spec_marker(marker)),
{
    ListRequest {
        drive_id: copy_of(drive_id),
        parent_file_id: copy_of(parent_file_id),
        limit: match options.limit {
            Some(n) => n,
            None => DEFAULT_PAGE_LIMIT,
        },
        order_by: text_or(&options.order_by, "name_enhanced"),
        order_direction: text_or(&options.order_direction, "ASC"),
        marker: usable_marker(marker),
    }
}

/// The order of a search, as the request carries it.
pub fn order_clause(order_by: &Option<String>, direction: &Option<String>) -> (clause: Option<
    String,
>)
    ensures
        spec_holds_text(clause, spec_order_clause(*order_by, *direction)),
{
    match order_by {
        None => None,
        Some(field) => {
            let mut clause = field.clone();
            match direction {
                Some(d) => {
                    clause.append(" ");
                    clause.append(d.as_str());
                },
                None => {},
            }
            Some(clause)
        },
    }
}

/// The request for the page of the search for `query` that begins at
/// `marker`. Where the options name no limit, 100 entries are asked for. An
/// empty marker is no marker.
pub fn search_request(
    drive_id: &str,
    query: &str,
    options: &SearchOptions,
    marker: Option<String>,
) -> (request: SearchRequest)
    ensures
        request.drive_id@ == drive_id@,
        request.query@ == query@,
        request.limit == match options.limit {
            Some(n) => n,
            None => DEFAULT_PAGE_LIMIT,
        },
        spec_holds_text(request.marker, spec_marker(marker)),
        spec_holds_text(
            request.order_by,
            spec_order_clause(options.order_by, options.order_direction),
        ),
        request.return_total_count == options.return_total_count,
{
    SearchRequest {
        drive_id: copy_of(drive_id),
        query: copy_of(query),
        limit: match options.limit {
            Some(n) => n,
            None => DEFAULT_PAGE_LIMIT,
        },
        marker: usable_marker(marker),
        order_by: order_clause(&options.order_by, &options.order_direction),
        return_total_count: options.return_total_count,
    }
}

/// What follows a page whose reply names `next_marker`: where all pages are
/// wanted and the marker is usable, the next page; else the end, with the
/// marker to tell the user of where only one page was wanted.
pub fn after_page(fetch_all: bool, next_marker: Option<String>) -> (step: PageStep)
    ensures
        match spec_marker(next_marker) {
            Some(m) => if fetch_all {
                step matches PageStep::Continue { marker } && marker@ == m
            } else {
                step matches PageStep::Stop { next_marker: Some(shown) } && shown@ == m
            },
            None => step == (PageStep::Stop { next_marker: None }),
        },
{
    match usable_marker(next_marker) {
        Some(marker) => if fetch_all {
            PageStep::Continue { marker }
        } else {
            PageStep::Stop { next_marker: Some(marker) }
        },
        None => PageStep::Stop { next_marker: None },
    }
}

/// Whether the total count that a search reply names is shown: on the first
/// page, where the request asked for it.
pub fn shown_total_count(first_page: bool, options: &SearchOptions, total_count: Option<u64>) -> (r:
    Option<u64>)
    ensures
        r == if first_page && options.return_total_count {
            total_count
        } else {
            None
        },
{
    if first_page && options.return_total_count {
        total_count
    } else {
        None
    }
}

impl FileItem {
    /// Whether the entry is a folder.
    pub open spec fn spec_is_folder(&self) -> bool {
        self.kind@ == "folder"@
    }

    /// Whether the entry is a folder.
    pub fn is_folder(&self) -> (b: bool)
        ensures
            b == self.spec_is_folder(),
    {
        same_text(self.kind.as_str(), "folder")
    }
}

/// Where the first entry named `name` stands, folders only where
/// `folders_only` is set; the number of entries where there is none.
pub open spec fn spec_first_named(items: Seq<FileItem>, name: Seq<char>, folders_only: bool) -> int
    decreases items.len(),
{
    if items.len() == 0 {
        0
    } else if items[0].name@ == name && (!folders_only || items[0].spec_is_folder()) {
        0
    } else {
        1 + spec_first_named(items.drop_first(), name, folders_only)
    }
}

/// The first entry named `name` stands where no earlier entry matches, and
/// there is none where the position is the number of entries.
pub proof fn lemma_first_named(items: Seq<FileItem>, name: Seq<char>, folders_only: bool)
    ensures
        0 <= spec_first_named(items, name, folders_only) <= items.len(),
        forall|i: int|
            0 <= i < spec_first_named(items, name, folders_only) ==> !((#[trigger] items[i]).name@
                == name && (!folders_only || items[i].spec_is_folder())),
        spec_first_named(items, name, folders_only) < items.len() ==> {
            let found = items[spec_first_named(items, name, folders_only)];
            found.name@ == name && (!folders_only || found.spec_is_folder())
        },
    decreases items.len(),
{
    if items.len() > 0 && !(items[0].name@ == name && (!folders_only
        || items[0].spec_is_folder())) {
        let rest = items.drop_first();
        lemma_first_named(rest, name, folders_only);
        assert forall|i: int| 0 <= i < spec_first_named(items, name, folders_only) implies !((
        #[trigger] items[i]).name@ == name && (!folders_only || items[i].spec_is_folder())) by {
            if i > 0 {
                assert(items[i] == rest[i - 1]);
            }
        }
    }
}

/// Looks for the first entry named `name`, among the folders only where
/// `folders_only` is set.
fn first_named(items: &Vec<FileItem>, name: &str, folders_only: bool) -> (at: usize)
    ensures
        at == spec_first_named(items@, name@, folders_only),
        at <= items@.len(),
{
    let mut i: usize = 0;
    proof {
        lemma_first_named(items@, name@, folders_only);
        assert(items@.skip(0) =~= items@);
    }
    while i < items.len()
        invariant
            i <= items@.len(),
            spec_first_named(items@, name@, folders_only) == i + spec_first_named(
                items@.skip(i as int),
                name@,
                folders_only,
            ),
        decreases items@.len() - i,
    {
        let item = &items[i];
        proof {
            assert(items@.skip(i as int)[0] == items@[i as int]);
            assert(items@.skip(i as int).drop_first() =~= items@.skip(i + 1));
        }
        if same_text(item.name.as_str(), name) && (!folders_only || item.is_folder()) {
            return i;
        }
        i = i + 1;
    }
    proof {
        assert(items@.skip(i as int).len() == 0);
    }
    i
}

/// The identifier of the file that a name stands for in a directory: that of
/// the first entry of the listing with that name, whatever its kind. A name
/// that no entry has is an error.
pub fn find_file_id_by_name(items: &Vec<FileItem>, filename: &str) -> (r: Result<
    String,
    TransferError,
>)
    ensures
        spec_first_named(items@, filename@, false) < items@.len() ==> (r matches Ok(id) && id
            == items@[spec_first_named(items@, filename@, false)].file_id),
        spec_first_named(items@, filename@, false) >= items@.len() ==> (r matches Err(
            TransferError::NotFound { name },
        ) && name@ == filename@),
{
    let at = first_named(items, filename, false);
    if at < items.len() {
        Ok(items[at].file_id.clone())
    } else {
        Err(TransferError::NotFound { name: copy_of(filename) })
    }
}

/// The identifier of the folder that a name stands for in a directory: that
/// of the first entry of the listing that is a folder with that name.
pub fn get_subfolder_id(items: &Vec<FileItem>, folder_name: &str) -> (r: Option<String>)
    ensures
        spec_first_named(items@, folder_name@, true) < items@.len() ==> r == Some(
            items@[spec_first_named(items@, folder_name@, true)].file_id,
        ),
        spec_first_named(items@, folder_name@, true) >= items@.len() ==> r is None,
{
    let at = first_named(items, folder_name, true);
    if at < items.len() {
        Some(items[at].file_id.clone())
    } else {
        None
    }
}

/// `count` blanks.
pub open spec fn spec_blanks(count: int) -> Seq<char> {
    Seq::new(
        if count > 0 {
            count as nat
        } else {
            0
        },
        |i: int| ' ',
    )
}

/// The line that shows an entry. A folder is shown by its name and a slash. A
/// file is shown by its name, filled with blanks on the right to 40
/// characters, a blank, its size in bytes, filled with blanks on the left to
/// 10 characters, and the word `bytes`; a size that is not known counts as 0.
pub open spec fn spec_entry_line(item: FileItem) -> Seq<char> {
    if item.spec_is_folder() {
        item.name@ + "/"@
    } else {
        let size = spec_decimal(
            match item.size {
                Some(n) => n as nat,
                None => 0,
            },
        );
        item.name@ + spec_blanks(NAME_COLUMN_WIDTH - item.name@.len()) + " "@ + spec_blanks(
            SIZE_COLUMN_WIDTH - size.len(),
        ) + size + " bytes"@
    }
}

/// Appends `count` blanks to `text`.
fn push_blanks(text: &mut String, count: usize)
    ensures
        final(text)@ == old(text)@ + spec_blanks(count as int),
{
    let mut i: usize = 0;
    proof {
        reveal_strlit(" ");
        assert(text@ =~= old(text)@ + spec_blanks(0));
    }
    while i < count
        invariant
            i <= count,
            text@ == old(text)@ + spec_blanks(i as int),
        decreases count - i,
    {
        text.append(" ");
        proof {
            reveal_strlit(" ");
            assert(text@ =~= old(text)@ + spec_blanks(i + 1));
        }
        i = i + 1;
    }
}

/// The line that shows an entry of a listing or of a search result.
pub fn entry_line(item: &FileItem) -> (line: String)
    ensures
        line@ == spec_entry_line(*item),
{
    let mut line = item.name.clone();
    if item.is_folder() {
        line.append("/");
        line
    } else {
        let name_len = item.name.as_str().unicode_len();
        let mut size = String::new();
        push_decimal(
            &mut size,
            match item.size {
                Some(n) => n,
                None => 0,
            },
        );
        let size_len = size.as_str().unicode_len();
        push_blanks(
            &mut line,
            if name_len < NAME_COLUMN_WIDTH {
                NAME_COLUMN_WIDTH - name_len
            } else {
                0
            },
        );
        line.append(" ");
        push_blanks(
            &mut line,
            if size_len < SIZE_COLUMN_WIDTH {
                SIZE_COLUMN_WIDTH - size_len
            } else {
                0
            },
        );
        line.append(size.as_str());
        line.append(" bytes");
        proof {
            assert(size@ =~= spec_decimal(
                match item.size {
                    Some(n) => n as nat,
                    None => 0,
                },
            ));
            assert(line@ =~= spec_entry_line(*item));
        }
        line
    }
}

/// How a line of a listing is shown.
#[derive(Clone, Copy, Debug, PartialEq, Eq, Structural)]
pub enum LineStyle {
    /// As it is: a file.
    Plain,
    /// Set off as a folder.
    Folder,
    /// Set back: a note.
    Note,
}

/// A line of a listing.
#[derive(Clone, Debug, PartialEq, Eq)]
pub struct ListingLine {
    pub text: String,
    pub style: LineStyle,
}

/// Whether `lines` show the page `items`: one line for each entry, in
/// order, a folder set off as such. An empty page shows the note
/// `empty_note` where it is the first page, and nothing where it is a later
/// one.
pub open spec fn spec_is_page(
    items: Seq<FileItem>,
    first_page: bool,
    empty_note: Seq<char>,
    lines: Seq<ListingLine>,
) -> bool {
    if items.len() == 0 {
        if first_page {
            lines.len() == 1 && lines[0].text@ == empty_note && lines[0].style == LineStyle::Note
        } else {
            lines.len() == 0
        }
    } else {
        &&& lines.len() == items.len()
        &&& forall|k: int|
            0 <= k < items.len() ==> (#[trigger] lines[k]).text@ == spec_entry_line(items[k])
                && lines[k].style == if items[k].spec_is_folder() {
                LineStyle::Folder
            } else {
                LineStyle::Plain
            }
    }
}

/// The lines that show a page of a listing or of a search result.
pub fn page_lines(items: &Vec<FileItem>, first_page: bool, empty_note: &str) -> (lines: Vec<
    ListingLine,
>)
    ensures
        spec_is_page(items@, first_page, empty_note@, lines@),
{
    let mut lines: Vec<ListingLine> = Vec::new();
    if items.len() == 0 {
        if first_page {
            lines.push(ListingLine { text: copy_of(empty_note), style: LineStyle::Note });
        }
        return lines;
    }
    let mut k: usize = 0;
    while k < items.len()
        invariant
            k <= items@.len(),
            lines@.len() == k,
            forall|j: int|
                0 <= j < k ==> (#[trigger] lines@[j]).text@ == spec_entry_line(items@[j])
                    && lines@[j].style == if items@[j].spec_is_folder() {
                    LineStyle::Folder
                } else {
                    LineStyle::Plain
                },
        decreases items@.len() - k,
    {
        let item = &items[k];
        let style = if item.is_folder() {
            LineStyle::Folder
        } else {
            LineStyle::Plain
        };
        lines.push(ListingLine { text: entry_line(item), style });
        k = k + 1;
    }
    lines
}

} // verus!
