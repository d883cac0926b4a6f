//! The storage side: the records it hands to the domain, and the decisions
//! and query texts of its lookups.

use vstd::prelude::*;
use crate::DataError as DataErrorTrait;
use crate::RecordId as RecordIdTrait;
use crate::pages::{PageCreateTrait, PageId, PageTrait};
use crate::sites::SiteReadOption;
use crate::users::User;
use crate::users::user_id::UserId;

verus! {

/// The identifier of a stored record.
pub struct RecordId {
    value: String,
}

impl RecordId {
    pub fn new(value: String) -> (r: RecordId)
        ensures
            r.value_view() == value@,
    {
        RecordId { value }
    }
}

impl RecordIdTrait for RecordId {
    closed spec fn value_view(&self) -> Seq<char> {
        self.value@
    }

    fn value(&self) -> (r: String) {
        self.value.clone()
    }
}

/// An error of the storage layer.
#[derive(Debug)]
pub struct DataError {
    message: String,
}

impl DataError {
    pub fn new(message: String) -> (r: DataError)
        ensures
            r.message_view() == message@,
    {
        DataError { message }
    }
}

impl DataErrorTrait for DataError {
    closed spec fn message_view(&self) -> Seq<char> {
        self.message@
    }

    fn message(&self) -> (r: String) {
        self.message.clone()
    }
}

/// A stored page, as storage hands it out.
pub struct Page {
    code: Option<String>,
    name: String,
    id: String,
}

impl Page {
    /// The page stored under `id` (the record's key as text).
    pub fn from_record(code: Option<String>, name: String, id: String) -> (r: Page)
        ensures
            r.code_view() == code.deep_view(),
            r.name_view() == name@,
            r.id_view() == id@,
    {
        Page { code, name, id }
    }
}

impl PageTrait for Page {
    closed spec fn name_view(&self) -> Seq<char> {
        self.name@
    }

    closed spec fn code_view(&self) -> Option<Seq<char>> {
        self.code.deep_view()
    }

    closed spec fn id_view(&self) -> Seq<char> {
        self.id@
    }

    fn name(&self) -> (r: String) {
        self.name.clone()
    }

    fn code(&self) -> (r: Option<String>) {
        match &self.code {
            Some(c) => Some(c.clone()),
            None => None,
        }
    }

    fn id(&self) -> (r: String) {
        self.id.clone()
    }
}

/// The content of a page to create.
pub struct CreatePageQuery {
    pub code: Option<String>,
    pub name: String,
}

impl CreatePageQuery {
    /// The content that creates `page`: its code and its name.
    pub fn new<P: PageCreateTrait>(page: &P) -> (r: CreatePageQuery)
        ensures
            r.code.deep_view() == page.code_view(),
            r.name@ == page.name_view(),
    {
        CreatePageQuery { code: page.code(), name: page.name() }
    }
}

/// The query that reads the child of `parent` whose code is `code`.
pub open spec fn read_by_parent_text(code: Seq<char>, parent: Seq<char>) -> Seq<char> {
    "SELECT * FROM pages WHERE code = \""@ + code + "\" AND parent = \"pages:"@ + parent
        + "\""@
}

/// The query that reads the child of `parent` whose code is `code`; the
/// parent is named by its record key in the `pages` table.
pub fn read_by_parent_query(code: &str, parent: &PageId) -> (q: String)
    ensures
        q@ == read_by_parent_text(code@, parent.value@),
{
    let mut q = String::from_str("SELECT * FROM pages WHERE code = \"");
    q.append(code);
    q.append("\" AND parent = \"pages:");
    q.append(parent.value.as_str());
    q.append("\"");
    q
}

/// The child query holds the page code verbatim and in full: the opening
/// text, then the whole code, then the text that names the parent's table,
/// then the whole parent key, then the closing quote.
pub proof fn lemma_read_by_parent_holds_code(code: Seq<char>, parent: Seq<char>)
    ensures
        ({
            let q = read_by_parent_text(code, parent);
            let head = "SELECT * FROM pages WHERE code = \""@;
            let mid = "\" AND parent = \"pages:"@;
            let a: int = head.len() as int;
            let b: int = a + code.len();
            let c: int = b + mid.len();
            let d: int = c + parent.len();
            &&& q.len() == d + 1
            &&& q.subrange(0, a) == head
            &&& q.subrange(a, b) == code
            &&& q.subrange(b, c) == mid
            &&& q.subrange(c, d) == parent
            &&& q.subrange(d, d + 1) == "\""@
        }),
{
    reveal_strlit("\"");
    let q = read_by_parent_text(code, parent);
    let head = "SELECT * FROM pages WHERE code = \""@;
    let mid = "\" AND parent = \"pages:"@;
    let a: int = head.len() as int;
    let b: int = a + code.len();
    let c: int = b + mid.len();
    let d: int = c + parent.len();
    assert(q == head + code + mid + parent + "\""@);
    assert(q.subrange(0, a) =~= head);
    assert(q.subrange(a, b) =~= code);
    assert(q.subrange(b, c) =~= mid);
    assert(q.subrange(c, d) =~= parent);
    assert(q.subrange(d, d + 1) =~= "\""@);
}

/// Two children of one parent are queried alike only when their codes are
/// the same: the query keeps the whole code.
pub proof fn lemma_read_by_parent_injective(code1: Seq<char>, code2: Seq<char>, parent: Seq<char>)
    requires
        read_by_parent_text(code1, parent) == read_by_parent_text(code2, parent),
    ensures
        code1 == code2,
{
    lemma_read_by_parent_holds_code(code1, parent);
    lemma_read_by_parent_holds_code(code2, parent);
}

/// The domain that a site lookup queries storage for: none when the site is
/// asked for by identifier (storage answers that no site is found), the
/// domain when it is asked for by domain.
pub fn site_read_plan(read_by: SiteReadOption) -> (r: Option<String>)
    ensures
        read_by is SiteId ==> r is None,
        read_by matches SiteReadOption::Domain(d) ==> (r matches Some(q) && q@ == d@),
{
    match read_by {
        SiteReadOption::SiteId(_) => None,
        SiteReadOption::Domain(domain) => Some(domain),
    }
}

/// The identifier of the user found by name, if one was found.
pub fn user_id_of(found: Option<User>) -> (r: Option<UserId>)
    ensures
        found is None ==> r is None,
        found matches Some(u) ==> (r matches Some(id) && id.value@ == u.id@),
{
    match found {
        None => None,
        Some(user) => Some(UserId { value: user.id }),
    }
}

/// The number of users, from the rows of the counting query: the first row.
pub fn first_count(rows: &Vec<u32>) -> (r: u32)
    requires
        rows@.len() > 0,
    ensures
        r == rows@[0],
{
    rows[0]
}

} // verus!
