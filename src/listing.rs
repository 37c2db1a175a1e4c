use vstd::prelude::*;
use vstd::string::*;
use crate::model::RemoteItem;

verus! {

/// The identifier of the store's root folder.
pub const ROOT_FOLDER: &'static str = "root";

/// The largest page the store is asked for.
pub const PAGE_SIZE: i32 = 1000;

/// The fields every listing request selects: identifier, name, size,
/// permission identifiers and the continuation cursor.
pub const LIST_FIELDS: &'static str = "files(id,name,size,permissionIds),nextPageToken";

/// The predicate that keeps folders only.
pub const FOLDERS_ONLY: &'static str = "mimeType contains \"application/vnd.google-apps.folder\"";

/// The predicate that keeps everything but folders.
pub const FILES_ONLY: &'static str = "not mimeType contains \"application/vnd.google-apps.folder\"";

/// The query for the items directly under `parent`, restricted by `extra`,
/// and not in the trash: three predicates joined by `and`.
pub open spec fn query_spec(parent: Seq<char>, extra: Seq<char>) -> Seq<char> {
    "\""@ + parent + "\" in parents"@ + " and "@ + extra + " and "@ + "trashed = false"@
}

/// An absent filter reads as the empty predicate.
pub open spec fn filter_view(extra: Option<&str>) -> Seq<char> {
    match extra {
        Some(e) => e@,
        None => Seq::empty(),
    }
}

/// Builds the listing query for the children of `parent_id`.
pub fn list_query(parent_id: &str, extra: Option<&str>) -> (r: String)
    ensures
        r@ == query_spec(parent_id@, filter_view(extra)),
{
    let mut q = String::from_str("\"");
    q.append(parent_id);
    q.append("\" in parents");
    q.append(" and ");
    match extra {
        Some(e) => q.append(e),
        None => {},
    }
    q.append(" and ");
    q.append("trashed = false");
    q
}

/// The query for the folders directly under `parent_id`.
pub fn folders_query(parent_id: &str) -> (r: String)
    ensures
        r@ == query_spec(parent_id@, FOLDERS_ONLY@),
{
    list_query(parent_id, Some(FOLDERS_ONLY))
}

/// The query for the files directly under `parent_id`.
pub fn files_query(parent_id: &str) -> (r: String)
    ensures
        r@ == query_spec(parent_id@, FILES_ONLY@),
{
    list_query(parent_id, Some(FILES_ONLY))
}

/// The query for the folders directly under the root.
pub fn root_folders_query() -> (r: String)
    ensures
        r@ == query_spec(ROOT_FOLDER@, FOLDERS_ONLY@),
{
    folders_query(ROOT_FOLDER)
}

/// The query for the files directly under the root.
pub fn root_files_query() -> (r: String)
    ensures
        r@ == query_spec(ROOT_FOLDER@, FILES_ONLY@),
{
    files_query(ROOT_FOLDER)
}

/// Accumulates the pages of one listing. The first request carries no
/// cursor; each later one carries the cursor of the page before; the listing
/// is complete once a page comes without a cursor.
pub struct PageCollector {
    items: Vec<RemoteItem>,
    cursor: Option<String>,
    finished: bool,
}

/// What a `PageCollector` holds.
pub struct PageCollectorView {
    pub items: Seq<RemoteItem>,
    pub cursor: Option<Seq<char>>,
    pub finished: bool,
}

impl View for PageCollector {
    type V = PageCollectorView;

    closed spec fn view(&self) -> PageCollectorView {
        PageCollectorView {
            items: self.items@,
            cursor: match self.cursor {
                Some(c) => Some(c@),
                None => None,
            },
            finished: self.finished,
        }
    }
}

impl PageCollector {
    /// A listing with no page received yet.
    pub fn new() -> (r: PageCollector)
        ensures
            r@.items.len() == 0,
            r@.cursor is None,
            !r@.finished,
    {
        PageCollector { items: Vec::new(), cursor: None, finished: false }
    }

    /// Whether the last page has been received.
    pub fn is_finished(&self) -> (r: bool)
        ensures
            r == self@.finished,
    {
        self.finished
    }

    /// The cursor to send with the next page request: none for the first.
    pub fn next_cursor(&self) -> (r: Option<String>)
        ensures
            match r {
                Some(c) => self@.cursor == Some(c@),
                None => self@.cursor is None,
            },
    {
        match &self.cursor {
            Some(c) => Some(c.clone()),
            None => None,
        }
    }

    /// Takes in one page: its items are appended in order, and its cursor,
    /// if any, is kept for the next request.
    pub fn accept_page(&mut self, page: Vec<RemoteItem>, next: Option<String>)
        requires
            !old(self)@.finished,
        ensures
            final(self)@.items == old(self)@.items + page@,
            final(self)@.cursor == (match next {
                Some(c) => Some(c@),
                None => None,
            }),
            final(self)@.finished == next is None,
    {
        let mut page = page;
        self.items.append(&mut page);
        self.finished = next.is_none();
        self.cursor = next;
    }

    /// All items received, in the order of their pages.
    pub fn into_items(self) -> (r: Vec<RemoteItem>)
        ensures
            r@ == self@.items,
    {
        self.items
    }
}

} // verus!
