//! Pages and the resolution of a request path to a page.
//!
//! A path is a list of page codes. The empty path names the main page (the
//! page with no code and no parent); a non-empty path is walked from the main
//! page, each code naming a child of the page reached so far. Reading pages
//! is the storage layer's work, so the walk is a state machine: each step
//! says which page to read next, and is fed the page that storage gave back.

use vstd::prelude::*;
use crate::DomainError;
use crate::sites::SiteIdImpl;

verus! {

/// What a client hands in to create a page.
pub trait PageCreateTrait {
    spec fn name_view(&self) -> Seq<char>;

    spec fn code_view(&self) -> Option<Seq<char>>;

    fn name(&self) -> (r: String)
        ensures
            r@ == self.name_view(),
    ;

    fn code(&self) -> (r: Option<String>)
        ensures
            r.deep_view() == self.code_view(),
    ;
}

/// A stored page.
pub trait PageTrait {
    spec fn name_view(&self) -> Seq<char>;

    spec fn code_view(&self) -> Option<Seq<char>>;

    spec fn id_view(&self) -> Seq<char>;

    fn name(&self) -> (r: String)
        ensures
            r@ == self.name_view(),
    ;

    fn code(&self) -> (r: Option<String>)
        ensures
            r.deep_view() == self.code_view(),
    ;

    fn id(&self) -> (r: String)
        ensures
            r@ == self.id_view(),
    ;
}

/// A page as the domain describes it.
pub struct Page {
    pub code: String,
    pub name: String,
}

/// The identifier of a page.
pub struct PageId {
    pub value: String,
}

/// A page placed on a site.
pub struct PageSite {
    pub page: PageId,
    pub site: SiteIdImpl,
}

/// An error raised while reading pages.
#[derive(Clone, Debug)]
pub struct PageError {
    message: String,
}

impl PageError {
    pub fn new(message: String) -> (r: PageError)
        ensures
            r.message_view() == message@,
    {
        PageError { message }
    }
}

impl DomainError for PageError {
    closed spec fn message_view(&self) -> Seq<char> {
        self.message@
    }

    fn message(&self) -> (r: String) {
        self.message.clone()
    }
}

/// The message of the error raised when a non-empty path is read and there
/// is no main page ("main page not found").
pub open spec fn main_page_missing() -> Seq<char> {
    "главная страница не найдена"@
}

/// What a step of the walk asks for, or its outcome.
pub enum ReadStep<P> {
    /// Read the main page.
    Main,
    /// Read the child of page `parent` whose code is `code`.
    Child { code: Seq<char>, parent: Seq<char> },
    /// The walk is over: the page found (or none), or an error's message.
    Done(Result<Option<P>, Seq<char>>),
}

/// What the walk asks the storage layer to do next, or its outcome.
pub enum PageReadAction<P> {
    /// Read the main page: the one with no code and no parent.
    ReadWithoutParent,
    /// Read the child of `parent` whose code is `code`.
    ReadByParent { code: String, parent: PageId },
    /// The walk is over.
    Finish(Result<Option<P>, PageError>),
}

impl<P> View for PageReadAction<P> {
    type V = ReadStep<P>;

    open spec fn view(&self) -> ReadStep<P> {
        match self {
            PageReadAction::ReadWithoutParent => ReadStep::Main,
            PageReadAction::ReadByParent { code, parent } => ReadStep::Child {
                code: code@,
                parent: parent.value@,
            },
            PageReadAction::Finish(Ok(p)) => ReadStep::Done(Ok(*p)),
            PageReadAction::Finish(Err(e)) => ReadStep::Done(Err(e.message_view())),
        }
    }
}

/// The state of a walk: the path, and which page was last asked for
/// (`None`: the main page; `Some(k)`: the page named by the `k`-th code).
pub struct PageReader {
    nodes: Vec<String>,
    asked: Option<usize>,
}

/// The codes of a path, as text.
pub open spec fn path_view(nodes: Seq<String>) -> Seq<Seq<char>> {
    nodes.map_values(|s: String| s@)
}

/// One step of the walk over `nodes`, after asking for the page described by
/// `asked`, when storage answered `answer`: what is asked next (and the new
/// value of `asked`), or the outcome.
pub open spec fn read_step<P: PageTrait>(
    nodes: Seq<Seq<char>>,
    asked: Option<nat>,
    answer: Option<P>,
) -> (Option<nat>, ReadStep<P>) {
    match asked {
        None => if nodes.len() == 0 {
            (asked, ReadStep::Done(Ok(answer)))
        } else {
            match answer {
                None => (asked, ReadStep::Done(Err(main_page_missing()))),
                Some(main) => (
                    Some(0nat),
                    ReadStep::Child { code: nodes[0], parent: main.id_view() },
                ),
            }
        },
        Some(k) => match answer {
            None => (asked, ReadStep::Done(Ok(None))),
            Some(page) => if k + 1 >= nodes.len() {
                (asked, ReadStep::Done(Ok(Some(page))))
            } else {
                (Some((k + 1) as nat), ReadStep::Child { code: nodes[k + 1 as int], parent: page.id_view() })
            },
        },
    }
}

impl PageReader {
    /// The path being walked.
    pub closed spec fn nodes_view(&self) -> Seq<Seq<char>> {
        path_view(self.nodes@)
    }

    /// The page last asked for.
    pub closed spec fn asked_view(&self) -> Option<nat> {
        match self.asked {
            None => None,
            Some(k) => Some(k as nat),
        }
    }

    /// The walk's invariant: a code that was asked for is one of the path's.
    #[verifier::type_invariant]
    closed spec fn wf(&self) -> bool {
        self.asked matches Some(k) ==> k < self.nodes@.len()
    }

    /// Starts the walk over `nodes`: the main page is read first.
    pub fn start<P>(nodes: Vec<String>) -> (r: (PageReader, PageReadAction<P>))
        ensures
            r.0.nodes_view() == path_view(nodes@),
            r.0.asked_view() is None,
            r.1@ == ReadStep::<P>::Main,
    {
        (PageReader { nodes, asked: None }, PageReadAction::ReadWithoutParent)
    }

    /// Feeds the page that storage gave back for the last request.
    pub fn answer<P: PageTrait>(self, page: Option<P>) -> (r: (PageReader, PageReadAction<P>))
        ensures
            r.0.nodes_view() == self.nodes_view(),
            (r.0.asked_view(), r.1@) == read_step(self.nodes_view(), self.asked_view(), page),
    {
        proof {
            use_type_invariant(&self);
        }
        match self.asked {
            None => {
                if self.nodes.len() == 0 {
                    (self, PageReadAction::Finish(Ok(page)))
                } else {
                    match page {
                        None => (
                            self,
                            PageReadAction::Finish(
                                Err(PageError::new(String::from_str("главная страница не найдена"))),
                            ),
                        ),
                        Some(main) => {
                            let code = self.nodes[0].clone();
                            let parent = PageId { value: main.id() };
                            (
                                PageReader { nodes: self.nodes, asked: Some(0) },
                                PageReadAction::ReadByParent { code, parent },
                            )
                        },
                    }
                }
            },
            Some(k) => {
                let n: usize = self.nodes.len();
                match page {
                    None => (self, PageReadAction::Finish(Ok(None))),
                    Some(p) => {
                        if k + 1 >= n {
                            (self, PageReadAction::Finish(Ok(Some(p))))
                        } else {
                            let code = self.nodes[k + 1].clone();
                            let parent = PageId { value: p.id() };
                            (
                                PageReader { nodes: self.nodes, asked: Some(k + 1) },
                                PageReadAction::ReadByParent { code, parent },
                            )
                        }
                    },
                }
            },
        }
    }
}

/// The page reached from `cur` by following the codes `nodes[k..]`, each
/// naming a child (by the lookup `child(parent id, code)`); `None` as soon as
/// a code names no child.
pub open spec fn walk_from<P: PageTrait>(
    child: spec_fn(Seq<char>, Seq<char>) -> Option<P>,
    cur: P,
    nodes: Seq<Seq<char>>,
    k: nat,
) -> Option<P>
    decreases nodes.len() - k,
{
    if k >= nodes.len() {
        Some(cur)
    } else {
        match child(cur.id_view(), nodes[k as int]) {
            None => None,
            Some(next) => walk_from(child, next, nodes, k + 1),
        }
    }
}

/// The page a path names in a store whose main page is `main` and whose
/// children are found by `child`: the main page for the empty path, an error
/// when a non-empty path is read without a main page, and otherwise the page
/// reached by walking the codes from the main page.
pub open spec fn resolve_path<P: PageTrait>(
    main: Option<P>,
    child: spec_fn(Seq<char>, Seq<char>) -> Option<P>,
    nodes: Seq<Seq<char>>,
) -> Result<Option<P>, Seq<char>> {
    if nodes.len() == 0 {
        Ok(main)
    } else {
        match main {
            None => Err(main_page_missing()),
            Some(m) => Ok(walk_from(child, m, nodes, 0)),
        }
    }
}

/// What a store answers to a step's request.
pub open spec fn store_answer<P>(
    main: Option<P>,
    child: spec_fn(Seq<char>, Seq<char>) -> Option<P>,
    step: ReadStep<P>,
) -> Option<P> {
    match step {
        ReadStep::Main => main,
        ReadStep::Child { code, parent } => child(parent, code),
        ReadStep::Done(_) => None,
    }
}

/// Runs the walk against a store for at most `fuel` answers; `None` if it is
/// not over by then.
pub open spec fn drive<P: PageTrait>(
    nodes: Seq<Seq<char>>,
    asked: Option<nat>,
    step: ReadStep<P>,
    main: Option<P>,
    child: spec_fn(Seq<char>, Seq<char>) -> Option<P>,
    fuel: nat,
) -> Option<Result<Option<P>, Seq<char>>>
    decreases fuel,
{
    match step {
        ReadStep::Done(r) => Some(r),
        _ => if fuel == 0 {
            None
        } else {
            let next = read_step(nodes, asked, store_answer(main, child, step));
            drive(nodes, next.0, next.1, main, child, (fuel - 1) as nat)
        },
    }
}

proof fn lemma_drive_child<P: PageTrait>(
    nodes: Seq<Seq<char>>,
    k: nat,
    cur: P,
    main: Option<P>,
    child: spec_fn(Seq<char>, Seq<char>) -> Option<P>,
)
    requires
        k < nodes.len(),
    ensures
        drive(
            nodes,
            Some(k),
            ReadStep::Child { code: nodes[k as int], parent: cur.id_view() },
            main,
            child,
            (nodes.len() - k) as nat,
        ) == Some(Ok::<Option<P>, Seq<char>>(walk_from(child, cur, nodes, k))),
    decreases nodes.len() - k,
{
    let step = ReadStep::<P>::Child { code: nodes[k as int], parent: cur.id_view() };
    let fuel: nat = (nodes.len() - k) as nat;
    let ans = child(cur.id_view(), nodes[k as int]);
    assert(store_answer(main, child, step) == ans);
    let next = read_step(nodes, Some(k), ans);
    assert(drive(nodes, Some(k), step, main, child, fuel) == drive(
        nodes,
        next.0,
        next.1,
        main,
        child,
        (fuel - 1) as nat,
    ));
    match ans {
        None => {
            assert(next.1 == ReadStep::<P>::Done(Ok(None)));
        },
        Some(p) => {
            if k + 1 >= nodes.len() {
                assert(walk_from(child, p, nodes, k + 1) == Some(p));
                assert(next.1 == ReadStep::<P>::Done(Ok(Some(p))));
            } else {
                lemma_drive_child(nodes, k + 1, p, main, child);
            }
        },
    }
}

/// Reading a path answers as the store says: whatever pages a store holds,
/// the walk started on `nodes` and fed, at each step, the store's answer to
/// that step's request, is over after at most one read per code plus one, and
/// ends with the page that the path names in the store (or the error raised
/// when there is no main page).
pub proof fn lemma_read_resolves_path<P: PageTrait>(
    nodes: Seq<Seq<char>>,
    main: Option<P>,
    child: spec_fn(Seq<char>, Seq<char>) -> Option<P>,
)
    ensures
        drive(nodes, None, ReadStep::Main, main, child, nodes.len() + 1) == Some(
            resolve_path(main, child, nodes),
        ),
{
    let fuel: nat = nodes.len() + 1;
    let next = read_step(nodes, None, main);
    assert(store_answer(main, child, ReadStep::<P>::Main) == main);
    assert(drive(nodes, None, ReadStep::Main, main, child, fuel) == drive(
        nodes,
        next.0,
        next.1,
        main,
        child,
        (fuel - 1) as nat,
    ));
    if nodes.len() > 0 {
        match main {
            None => {},
            Some(m) => {
                lemma_drive_child(nodes, 0, m, main, child);
            },
        }
    }
}

} // verus!
