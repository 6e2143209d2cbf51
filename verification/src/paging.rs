//! Paging through a stored list: how rows fall into pages, and the page
//! viewer that the navigation buttons drive.

use vstd::prelude::*;
use crate::text::{decimal, format_i64, format_u64, parse_usize, parsed_usize, same_text, signed_decimal};

verus! {

/// How many pages `rows.chunks(size)` makes of `n` rows.
pub open spec fn pages_of(n: nat, size: nat) -> nat {
    if size == 0 {
        0
    } else {
        ((n + size - 1) / size as int) as nat
    }
}

/// Index of the first row on page `page` (pages count from 1).
pub open spec fn page_start(size: nat, page: nat) -> int {
    (page - 1) * size
}

/// One past the index of the last row on page `page`.
pub open spec fn page_end(n: nat, size: nat, page: nat) -> int {
    if page * size < n {
        (page * size) as int
    } else {
        n as int
    }
}

/// The number of pages that `n` rows make, `size` rows to a page.
pub fn page_count(n: usize, size: usize) -> (res: usize)
    requires
        size > 0,
    ensures
        res == pages_of(n as nat, size as nat),
{
    let q = n / size;
    let r = n % size;
    proof {
        assert(n == q * size + r) by (nonlinear_arith)
            requires
                q == n / size,
                r == n % size,
                size > 0,
        ;
        if r == 0 {
            assert((n + size - 1) / size as int == q) by (nonlinear_arith)
                requires
                    n == q * size,
                    size > 0,
            ;
        } else {
            assert(q < n) by (nonlinear_arith)
                requires
                    n == q * size + r,
                    r > 0,
                    size > 0,
                    q >= 0,
            ;
            assert((n + size - 1) / size as int == q + 1) by (nonlinear_arith)
                requires
                    n == q * size + r,
                    0 < r < size,
            ;
        }
    }
    if r == 0 {
        q
    } else {
        q + 1
    }
}

/// Pages cut `n` rows into consecutive runs: the first starts at row 0, the
/// last ends at row `n`, each page ends where the next one starts, no page is
/// empty, and every page but the last holds exactly `size` rows.
pub proof fn law_pages_partition(n: nat, size: nat, page: nat)
    requires
        size > 0,
        1 <= page <= pages_of(n, size),
    ensures
        page == 1 ==> page_start(size, page) == 0,
        page == pages_of(n, size) ==> page_end(n, size, page) == n,
        page < pages_of(n, size) ==> page_end(n, size, page) == page_start(size, page + 1),
        0 <= page_start(size, page) < page_end(n, size, page) <= n,
        page_end(n, size, page) - page_start(size, page) <= size,
        page < pages_of(n, size) ==> page_end(n, size, page) - page_start(size, page) == size,
{
    let c = pages_of(n, size);
    assert((c - 1) * size < n && n <= c * size) by (nonlinear_arith)
        requires
            c == (n + size - 1) / size as int,
            size > 0,
    ;
    assert((page - 1) * size <= (c - 1) * size) by (nonlinear_arith)
        requires
            page <= c,
            size > 0,
    ;
    assert(page * size == (page - 1) * size + size) by (nonlinear_arith);
    assert(0 <= (page - 1) * size) by (nonlinear_arith)
        requires
            page >= 1,
    ;
    if page < c {
        assert(page * size <= (c - 1) * size) by (nonlinear_arith)
            requires
                page <= c - 1,
                size > 0,
        ;
    }
    if page == c {
        assert(page * size >= n);
    }
}

/// Every row is on exactly the page its index says: row `i` is on page
/// `i / size + 1`, which is one of the pages.
pub proof fn law_row_on_its_page(n: nat, size: nat, i: nat)
    requires
        size > 0,
        i < n,
    ensures
        1 <= i / size + 1 <= pages_of(n, size),
        page_start(size, i / size + 1) <= i < page_end(n, size, i / size + 1),
{
    let p = i / size + 1;
    let c = pages_of(n, size);
    assert(p <= c) by (nonlinear_arith)
        requires
            p == i / size + 1,
            c == (n + size - 1) / size as int,
            i < n,
            size > 0,
    ;
    assert((p - 1) * size <= i < p * size) by (nonlinear_arith)
        requires
            p == i / size + 1,
            size > 0,
    ;
}

/// The first and one-past-last row indices of page `page`.
pub fn page_bounds(n: usize, size: usize, page: usize) -> (res: (usize, usize))
    requires
        size > 0,
        1 <= page <= pages_of(n as nat, size as nat),
    ensures
        res.0 == page_start(size as nat, page as nat),
        res.1 == page_end(n as nat, size as nat, page as nat),
{
    proof {
        law_pages_partition(n as nat, size as nat, page as nat);
        assert((page - 1) * size + size == page * size) by (nonlinear_arith);
    }
    let start = (page - 1) * size;
    let end = if n - start > size {
        start + size
    } else {
        n
    };
    (start, end)
}

/// Which end of the list a shown page is at: the first page, the last page,
/// or in between. The buttons that would leave the list are disabled.
#[derive(PartialEq, Eq, Debug, Clone, Copy)]
pub enum Terminal {
    First,
    Mid,
    Last,
}

/// The name the components are built from: `"first"`, `"mid"` or `"last"`.
pub fn terminal_name(t: Terminal) -> (res: &'static str)
    ensures
        t == Terminal::First ==> res@ == "first"@,
        t == Terminal::Mid ==> res@ == "mid"@,
        t == Terminal::Last ==> res@ == "last"@,
{
    match t {
        Terminal::First => "first",
        Terminal::Mid => "mid",
        Terminal::Last => "last",
    }
}

/// A terminal marker tells the truth about the page it is shown with.
pub open spec fn truthful(t: Terminal, cur: nat, pages: nat) -> bool {
    match t {
        Terminal::First => cur == 1,
        Terminal::Last => cur == pages,
        Terminal::Mid => 1 < cur < pages,
    }
}

/// A press on the list message's components.
#[derive(PartialEq, Eq, Debug, Clone, Copy)]
pub enum PageEvent {
    Next,
    Prev,
    First,
    Last,
    Delete,
    /// A page picked in the select menu.
    Range(usize),
    /// Any other component id: ignored.
    Other,
}

/// What to do after a press.
#[derive(PartialEq, Eq, Debug, Clone, Copy)]
pub enum PageAction {
    /// Update the message to show page `page`, with the components built for `terminal`.
    Show { page: usize, terminal: Terminal },
    /// Delete the list message and the command message.
    DeleteMessages,
    /// Leave the message as it is.
    Nothing,
}

/// Reads a component press: its custom id, and the values picked in a select menu.
/// `None` for a `"range"` press whose first value is missing or not a number,
/// where the interaction cannot be read.
pub fn page_event(custom_id: &str, values: &Vec<String>) -> (res: Option<PageEvent>)
    ensures
        custom_id@ == "next"@ ==> res == Some(PageEvent::Next),
        custom_id@ == "prev"@ ==> res == Some(PageEvent::Prev),
        custom_id@ == "first"@ ==> res == Some(PageEvent::First),
        custom_id@ == "last"@ ==> res == Some(PageEvent::Last),
        custom_id@ == "delete"@ ==> res == Some(PageEvent::Delete),
        custom_id@ == "range"@ ==> res == (if values@.len() > 0 && parsed_usize(values@[0]@) is Some {
            Some(PageEvent::Range(parsed_usize(values@[0]@)->0))
        } else {
            None
        }),
        custom_id@ != "next"@ && custom_id@ != "prev"@ && custom_id@ != "first"@
            && custom_id@ != "last"@ && custom_id@ != "delete"@ && custom_id@ != "range"@
            ==> res == Some(PageEvent::Other),
{
    proof {
        reveal_strlit("next");
        reveal_strlit("prev");
        reveal_strlit("first");
        reveal_strlit("last");
        reveal_strlit("delete");
        reveal_strlit("range");
        assert("next"@[0] == 'n' && "prev"@[0] == 'p' && "first"@[0] == 'f');
        assert("last"@[0] == 'l' && "delete"@[0] == 'd' && "range"@[0] == 'r');
    }
    if same_text(custom_id, "next") {
        Some(PageEvent::Next)
    } else if same_text(custom_id, "prev") {
        Some(PageEvent::Prev)
    } else if same_text(custom_id, "first") {
        Some(PageEvent::First)
    } else if same_text(custom_id, "last") {
        Some(PageEvent::Last)
    } else if same_text(custom_id, "delete") {
        Some(PageEvent::Delete)
    } else if same_text(custom_id, "range") {
        if values.len() == 0 {
            return None;
        }
        match parse_usize(values[0].as_str()) {
            Some(v) => Some(PageEvent::Range(v)),
            None => None,
        }
    } else {
        Some(PageEvent::Other)
    }
}

/// The page viewer of a list message: the page shown and how many there are.
#[derive(PartialEq, Eq, Debug, Clone, Copy)]
pub struct Pager {
    pub cur: usize,
    pub pages: usize,
}

/// What one press does to the viewer: the next viewer, and the action.
/// `next`/`prev` move one page unless already at that end; `first`/`last`
/// jump to an end; a pick jumps to the picked page; `delete` removes the
/// messages; anything else is ignored.
pub open spec fn pager_step(p: Pager, event: PageEvent) -> (Pager, PageAction) {
    match event {
        PageEvent::Next => if p.cur != p.pages {
            let cur = (p.cur + 1) as usize;
            (
                Pager { cur, pages: p.pages },
                PageAction::Show {
                    page: cur,
                    terminal: if cur == p.pages { Terminal::Last } else { Terminal::Mid },
                },
            )
        } else {
            (p, PageAction::Nothing)
        },
        PageEvent::Prev => if p.cur != 1 {
            let cur = (p.cur - 1) as usize;
            (
                Pager { cur, pages: p.pages },
                PageAction::Show {
                    page: cur,
                    terminal: if cur == 1 { Terminal::First } else { Terminal::Mid },
                },
            )
        } else {
            (p, PageAction::Nothing)
        },
        PageEvent::First => (
            Pager { cur: 1, pages: p.pages },
            PageAction::Show { page: 1, terminal: Terminal::First },
        ),
        PageEvent::Last => (
            Pager { cur: p.pages, pages: p.pages },
            PageAction::Show { page: p.pages, terminal: Terminal::Last },
        ),
        PageEvent::Delete => (p, PageAction::DeleteMessages),
        PageEvent::Range(v) => (
            Pager { cur: v, pages: p.pages },
            PageAction::Show {
                page: v,
                terminal: if v == 1 {
                    Terminal::First
                } else if v == p.pages {
                    Terminal::Last
                } else {
                    Terminal::Mid
                },
            },
        ),
        PageEvent::Other => (p, PageAction::Nothing),
    }
}

impl Pager {
    /// The shown page is one of the pages.
    pub open spec fn wf(self) -> bool {
        1 <= self.cur <= self.pages
    }

    /// A viewer on the first of `pages` pages; the list message starts there,
    /// with the components built for `"first"`.
    pub fn new(pages: usize) -> (res: (Pager, PageAction))
        requires
            pages >= 1,
        ensures
            res.0.wf(),
            res.0 == (Pager { cur: 1, pages }),
            res.1 == (PageAction::Show { page: 1, terminal: Terminal::First }),
    {
        (Pager { cur: 1, pages }, PageAction::Show { page: 1, terminal: Terminal::First })
    }

    /// Handles one press. A select-menu pick must name one of the pages.
    pub fn step(&mut self, event: PageEvent) -> (action: PageAction)
        requires
            old(self).wf(),
            event matches PageEvent::Range(v) ==> 1 <= v <= old(self).pages,
        ensures
            (*final(self), action) == pager_step(*old(self), event),
    {
        match event {
            PageEvent::Next => {
                if self.cur != self.pages {
                    self.cur = self.cur + 1;
                    let t = if self.cur == self.pages {
                        Terminal::Last
                    } else {
                        Terminal::Mid
                    };
                    PageAction::Show { page: self.cur, terminal: t }
                } else {
                    PageAction::Nothing
                }
            },
            PageEvent::Prev => {
                if self.cur != 1 {
                    self.cur = self.cur - 1;
                    let t = if self.cur == 1 {
                        Terminal::First
                    } else {
                        Terminal::Mid
                    };
                    PageAction::Show { page: self.cur, terminal: t }
                } else {
                    PageAction::Nothing
                }
            },
            PageEvent::First => {
                self.cur = 1;
                PageAction::Show { page: 1, terminal: Terminal::First }
            },
            PageEvent::Last => {
                self.cur = self.pages;
                PageAction::Show { page: self.pages, terminal: Terminal::Last }
            },
            PageEvent::Delete => PageAction::DeleteMessages,
            PageEvent::Range(v) => {
                self.cur = v;
                let t = if v == 1 {
                    Terminal::First
                } else if v == self.pages {
                    Terminal::Last
                } else {
                    Terminal::Mid
                };
                PageAction::Show { page: v, terminal: t }
            },
            PageEvent::Other => PageAction::Nothing,
        }
    }
}

/// Every press keeps the shown page among the pages, and every page the
/// viewer shows comes with a truthful terminal: buttons are disabled only at
/// a real end of the list.
/// Each button moves the viewer as it says: Next and Prev move exactly one
/// page (and do nothing at the end they point to), First and Last go to the
/// first and last page, a pick goes to the picked page, and Delete and
/// unknown presses leave the page where it is.
pub proof fn law_buttons_move_as_named(p: Pager, v: usize)
    requires
        p.wf(),
        1 <= v <= p.pages,
    ensures
        p.cur != p.pages ==> (pager_step(p, PageEvent::Next).0.cur == p.cur + 1
            && (pager_step(p, PageEvent::Next).1 matches PageAction::Show { page, .. } && page == p.cur + 1)),
        p.cur == p.pages ==> pager_step(p, PageEvent::Next).0 == p
            && pager_step(p, PageEvent::Next).1 == PageAction::Nothing,
        p.cur != 1 ==> (pager_step(p, PageEvent::Prev).0.cur == p.cur - 1
            && (pager_step(p, PageEvent::Prev).1 matches PageAction::Show { page, .. } && page == p.cur - 1)),
        p.cur == 1 ==> pager_step(p, PageEvent::Prev).0 == p
            && pager_step(p, PageEvent::Prev).1 == PageAction::Nothing,
        pager_step(p, PageEvent::First).0.cur == 1,
        pager_step(p, PageEvent::First).1 matches PageAction::Show { page, .. } && page == 1,
        pager_step(p, PageEvent::Last).0.cur == p.pages,
        pager_step(p, PageEvent::Last).1 matches PageAction::Show { page, .. } && page == p.pages,
        pager_step(p, PageEvent::Range(v)).0.cur == v,
        pager_step(p, PageEvent::Range(v)).1 matches PageAction::Show { page, .. } && page == v,
        pager_step(p, PageEvent::Delete).0 == p,
        pager_step(p, PageEvent::Delete).1 == PageAction::DeleteMessages,
        pager_step(p, PageEvent::Other).0 == p,
        pager_step(p, PageEvent::Other).1 == PageAction::Nothing,
        forall|e: PageEvent| #[trigger] pager_step(p, e).0.pages == p.pages,
{
}

pub proof fn law_pager_shows_truthful_pages(before: Pager, event: PageEvent)
    requires
        before.wf(),
        event matches PageEvent::Range(v) ==> 1 <= v <= before.pages,
    ensures
        pager_step(before, event).0.wf(),
        pager_step(before, event).0.pages == before.pages,
        pager_step(before, event).1 matches PageAction::Show { page, terminal } ==> {
            &&& page == pager_step(before, event).0.cur
            &&& truthful(terminal, page as nat, before.pages as nat)
        },
{
}

/// One stored row as a list shows it: its number in the list, its name, and
/// the id of the user who added it.
#[derive(PartialEq, Eq, Debug)]
pub struct ListRow {
    pub idx: i64,
    pub name: String,
    pub owner: String,
}

/// One field of an embed.
#[derive(PartialEq, Eq, Debug)]
pub struct EmbedField {
    pub name: String,
    pub value: String,
    pub inline: bool,
}

/// The embed showing one page of a list.
#[derive(PartialEq, Eq, Debug)]
pub struct ListEmbed {
    pub title: String,
    pub colour: u32,
    pub fields: Vec<EmbedField>,
}

/// The field showing `row`: `"<idx>. <name>"` over `" by <@owner>"`, not inline.
pub open spec fn field_is(f: EmbedField, row: ListRow) -> bool {
    &&& f.name@ == signed_decimal(row.idx as int) + ". "@ + row.name@
    &&& f.value@ == " by <@"@ + row.owner@ + ">"@
    &&& !f.inline
}

/// The embed for page `cur` of a list: the title prefix followed by the page
/// number, the colour, and one field per row of the page, in order.
pub fn list_embed(title_prefix: &str, colour: u32, cur: usize, group: &[ListRow]) -> (res: ListEmbed)
    ensures
        res.title@ == title_prefix@ + decimal(cur as nat),
        res.colour == colour,
        res.fields@.len() == group@.len(),
        forall|i: int| 0 <= i < group@.len() ==> field_is(#[trigger] res.fields@[i], group@[i]),
{
    let mut title = String::from_str(title_prefix);
    let page = format_u64(cur as u64);
    title.append(page.as_str());
    let mut fields: Vec<EmbedField> = Vec::new();
    let n = group.len();
    let mut i: usize = 0;
    while i < n
        invariant
            n == group@.len(),
            0 <= i <= n,
            fields@.len() == i,
            forall|j: int| 0 <= j < i ==> field_is(#[trigger] fields@[j], group@[j]),
        decreases n - i,
    {
        let row = &group[i];
        let mut name = format_i64(row.idx);
        name.append(". ");
        name.append(row.name.as_str());
        let mut value = String::from_str(" by <@");
        value.append(row.owner.as_str());
        value.append(">");
        fields.push(EmbedField { name, value, inline: false });
        i = i + 1;
    }
    ListEmbed { title, colour, fields }
}

/// How a list command starts: it fails (the page size is not a number), or
/// it fetches the rows, having first warned about a page size over 15 when
/// there is one.
#[derive(PartialEq, Eq, Debug)]
pub enum ListStart {
    Fail,
    Fetch { size: usize, warning: Option<String> },
}

/// The page size a list command asks for: its first argument, or 5 without one.
pub open spec fn requested_size(args: Seq<Seq<char>>) -> Option<usize> {
    if args.len() > 0 {
        parsed_usize(args[0])
    } else {
        Some(5)
    }
}

/// Without arguments a list has pages of 5 rows; with arguments the page
/// size is the first argument read as a number, and any later ones are ignored.
pub proof fn law_requested_size(args: Seq<Seq<char>>)
    ensures
        args.len() == 0 ==> requested_size(args) == Some(5usize),
        args.len() > 0 ==> requested_size(args) == parsed_usize(args[0]),
{
}

/// Reads the page size of a list command from its arguments.
pub fn list_start(args: &Vec<String>) -> (res: ListStart)
    ensures
        requested_size(crate::text::views(args@)) is None ==> res == ListStart::Fail,
        requested_size(crate::text::views(args@)) matches Some(size) ==> (res matches ListStart::Fetch { size: s, warning } && s == size && (warning is Some <==> size > 15) && (warning matches Some(w) ==> w@ == "Please input a number less than 15"@)),
{
    let size = if args.len() > 0 {
        match parse_usize(args[0].as_str()) {
            Some(s) => s,
            None => {
                return ListStart::Fail;
            },
        }
    } else {
        5
    };
    let warning = if size > 15 {
        Some(String::from_str("Please input a number less than 15"))
    } else {
        None
    };
    ListStart::Fetch { size, warning }
}

/// How a list command goes on once it has the rows: a reply when there are
/// none, else a viewer over the pages and the first page to show.
#[derive(PartialEq, Eq, Debug)]
pub enum ListOpen {
    Reply(String),
    Show { pager: Pager, action: PageAction },
}

/// Opens the viewer over `n_rows` rows, `size` to a page. With rows, the
/// page size must be positive (a zero size cannot cut rows into pages).
pub fn open_list(n_rows: usize, size: usize, empty_reply: &str) -> (res: ListOpen)
    requires
        n_rows > 0 ==> size > 0,
    ensures
        n_rows == 0 ==> (res matches ListOpen::Reply(t) && t@ == empty_reply@),
        n_rows > 0 ==> res == (ListOpen::Show {
            pager: Pager { cur: 1, pages: pages_of(n_rows as nat, size as nat) as usize },
            action: PageAction::Show { page: 1, terminal: Terminal::First },
        }),
        res matches ListOpen::Show { pager, .. } ==> pager.wf(),
{
    if n_rows == 0 {
        return ListOpen::Reply(String::from_str(empty_reply));
    }
    let pages = page_count(n_rows, size);
    proof {
        assert(pages >= 1) by (nonlinear_arith)
            requires
                pages == (n_rows + size - 1) / size as int,
                n_rows > 0,
                size > 0,
        ;
    }
    let (pager, action) = Pager::new(pages);
    ListOpen::Show { pager, action }
}

} // verus!
