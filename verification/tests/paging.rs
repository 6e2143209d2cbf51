use tagbot::components::{make_range_select_menu, make_terminal_components, ButtonStyle};
use tagbot::paging::{
    list_embed, list_start, open_list, page_bounds, page_count, page_event, terminal_name,
    ListOpen, ListRow, ListStart, PageAction, PageEvent, Pager, Terminal,
};

fn strings(v: &[&str]) -> Vec<String> {
    v.iter().map(|s| s.to_string()).collect()
}

#[test]
fn page_count_rounds_up() {
    assert_eq!(page_count(11, 5), 3);
    assert_eq!(page_count(10, 5), 2);
    assert_eq!(page_count(1, 5), 1);
    assert_eq!(page_count(0, 5), 0);
    assert_eq!(page_count(7, 1), 7);
}

#[test]
fn page_bounds_match_chunks() {
    for n in 0..30usize {
        for size in 1..8usize {
            let rows: Vec<usize> = (0..n).collect();
            let chunks: Vec<&[usize]> = rows.chunks(size).collect();
            assert_eq!(page_count(n, size), chunks.len());
            for (k, chunk) in chunks.iter().enumerate() {
                let (start, end) = page_bounds(n, size, k + 1);
                assert_eq!(&rows[start..end], *chunk);
            }
        }
    }
}

#[test]
fn pages_partition_rows() {
    let (s1, e1) = page_bounds(11, 5, 1);
    let (s2, e2) = page_bounds(11, 5, 2);
    let (s3, e3) = page_bounds(11, 5, 3);
    assert_eq!((s1, e1, s2, e2, s3, e3), (0, 5, 5, 10, 10, 11));
}

#[test]
fn row_is_on_its_page() {
    let (n, size) = (23usize, 4usize);
    for i in 0..n {
        let (start, end) = page_bounds(n, size, i / size + 1);
        assert!(start <= i && i < end);
    }
}

#[test]
fn pager_moves_through_pages() {
    let (mut p, first) = Pager::new(3);
    assert_eq!(first, PageAction::Show { page: 1, terminal: Terminal::First });
    assert_eq!(p.step(PageEvent::Prev), PageAction::Nothing);
    assert_eq!(p.step(PageEvent::Next), PageAction::Show { page: 2, terminal: Terminal::Mid });
    assert_eq!(p.step(PageEvent::Next), PageAction::Show { page: 3, terminal: Terminal::Last });
    assert_eq!(p.step(PageEvent::Next), PageAction::Nothing);
    assert_eq!(p.cur, 3);
    assert_eq!(p.step(PageEvent::Prev), PageAction::Show { page: 2, terminal: Terminal::Mid });
    assert_eq!(p.step(PageEvent::Prev), PageAction::Show { page: 1, terminal: Terminal::First });
    assert_eq!(p.step(PageEvent::Last), PageAction::Show { page: 3, terminal: Terminal::Last });
    assert_eq!(p.step(PageEvent::First), PageAction::Show { page: 1, terminal: Terminal::First });
    assert_eq!(p.step(PageEvent::Range(2)), PageAction::Show { page: 2, terminal: Terminal::Mid });
    assert_eq!(p.step(PageEvent::Range(3)), PageAction::Show { page: 3, terminal: Terminal::Last });
    assert_eq!(p.step(PageEvent::Range(1)), PageAction::Show { page: 1, terminal: Terminal::First });
    assert_eq!(p.step(PageEvent::Delete), PageAction::DeleteMessages);
    assert_eq!(p.step(PageEvent::Other), PageAction::Nothing);
    assert_eq!(p, Pager { cur: 1, pages: 3 });
}

#[test]
fn pager_single_page_ends() {
    let (mut p, _) = Pager::new(1);
    assert_eq!(p.step(PageEvent::Next), PageAction::Nothing);
    assert_eq!(p.step(PageEvent::Last), PageAction::Show { page: 1, terminal: Terminal::Last });
    assert_eq!(p.step(PageEvent::Range(1)), PageAction::Show { page: 1, terminal: Terminal::First });
}

#[test]
fn pager_terminals_are_truthful() {
    let events = [PageEvent::Next, PageEvent::Next, PageEvent::Prev, PageEvent::Last,
        PageEvent::Range(2), PageEvent::First, PageEvent::Next, PageEvent::Next, PageEvent::Next];
    let (mut p, _) = Pager::new(4);
    for e in events {
        if let PageAction::Show { page, terminal } = p.step(e) {
            assert!(page >= 1 && page <= 4);
            match terminal {
                Terminal::First => assert_eq!(page, 1),
                Terminal::Last => assert_eq!(page, 4),
                Terminal::Mid => assert!(page > 1 && page < 4),
            }
        }
    }
}

#[test]
fn page_event_reads_component_ids() {
    let none: Vec<String> = vec![];
    assert_eq!(page_event("next", &none), Some(PageEvent::Next));
    assert_eq!(page_event("prev", &none), Some(PageEvent::Prev));
    assert_eq!(page_event("first", &none), Some(PageEvent::First));
    assert_eq!(page_event("last", &none), Some(PageEvent::Last));
    assert_eq!(page_event("delete", &none), Some(PageEvent::Delete));
    assert_eq!(page_event("range", &strings(&["4"])), Some(PageEvent::Range(4)));
    assert_eq!(page_event("range", &none), None);
    assert_eq!(page_event("range", &strings(&["four"])), None);
    assert_eq!(page_event("other", &none), Some(PageEvent::Other));
}

#[test]
fn terminal_names() {
    assert_eq!(terminal_name(Terminal::First), "first");
    assert_eq!(terminal_name(Terminal::Mid), "mid");
    assert_eq!(terminal_name(Terminal::Last), "last");
}

#[test]
fn list_start_reads_page_size() {
    assert_eq!(list_start(&strings(&[])), ListStart::Fetch { size: 5, warning: None });
    assert_eq!(list_start(&strings(&["10"])), ListStart::Fetch { size: 10, warning: None });
    assert_eq!(list_start(&strings(&["15"])), ListStart::Fetch { size: 15, warning: None });
    assert_eq!(
        list_start(&strings(&["16"])),
        ListStart::Fetch { size: 16, warning: Some("Please input a number less than 15".to_string()) }
    );
    assert_eq!(list_start(&strings(&["ten"])), ListStart::Fail);
}

#[test]
fn open_list_with_and_without_rows() {
    assert_eq!(open_list(0, 5, "nothing"), ListOpen::Reply("nothing".to_string()));
    assert_eq!(open_list(0, 0, "nothing"), ListOpen::Reply("nothing".to_string()));
    assert_eq!(
        open_list(11, 5, "nothing"),
        ListOpen::Show {
            pager: Pager { cur: 1, pages: 3 },
            action: PageAction::Show { page: 1, terminal: Terminal::First },
        }
    );
}

#[test]
fn list_embed_shows_rows() {
    let rows = vec![
        ListRow { idx: 1, name: "hi".to_string(), owner: "42".to_string() },
        ListRow { idx: 2, name: "bye".to_string(), owner: "7".to_string() },
    ];
    let e = list_embed("List of words: Page ", 0x1ABC9C, 2, &rows);
    assert_eq!(e.title, "List of words: Page 2");
    assert_eq!(e.colour, 0x1ABC9C);
    assert_eq!(e.fields.len(), 2);
    assert_eq!(e.fields[0].name, "1. hi");
    assert_eq!(e.fields[0].value, " by <@42>");
    assert!(!e.fields[0].inline);
    assert_eq!(e.fields[1].name, "2. bye");
    assert_eq!(e.fields[1].value, " by <@7>");
}

#[test]
fn range_menu_lists_pages() {
    let m = make_range_select_menu(1, 3);
    assert_eq!(m.custom_id, "range");
    assert_eq!(m.placeholder, "Page No");
    let labels: Vec<&str> = m.options.iter().map(|o| o.label.as_str()).collect();
    let values: Vec<&str> = m.options.iter().map(|o| o.value.as_str()).collect();
    assert_eq!(labels, vec!["1", "2", "3"]);
    assert_eq!(values, vec!["1", "2", "3"]);
    assert!(make_range_select_menu(3, 2).options.is_empty());
    assert_eq!(make_range_select_menu(9, 10).options[1].label, "10");
}

#[test]
fn terminal_components_disable_towards_the_end() {
    let first = make_terminal_components("first", 4);
    let disabled: Vec<Option<bool>> = first.buttons.iter().map(|b| b.disabled).collect();
    assert_eq!(disabled, vec![Some(true), Some(true), Some(false), Some(false), None]);
    let last = make_terminal_components("last", 4);
    let disabled: Vec<Option<bool>> = last.buttons.iter().map(|b| b.disabled).collect();
    assert_eq!(disabled, vec![Some(false), Some(false), Some(true), Some(true), None]);
    let mid = make_terminal_components("mid", 4);
    assert!(mid.buttons.iter().all(|b| b.disabled != Some(true)));
    let ids: Vec<&str> = mid.buttons.iter().map(|b| b.custom_id.as_str()).collect();
    assert_eq!(ids, vec!["first", "prev", "next", "last", "delete"]);
    let labels: Vec<&str> = mid.buttons.iter().map(|b| b.label.as_str()).collect();
    assert_eq!(labels, vec!["First", "Prev", "Next", "Last", "Delete"]);
    assert_eq!(mid.buttons[0].emoji, "\u{23EA}");
    assert_eq!(mid.buttons[4].emoji, "\u{1F5D1}");
    assert_eq!(mid.buttons[4].style, ButtonStyle::Danger);
    assert_eq!(mid.buttons[2].style, ButtonStyle::Primary);
    assert_eq!(mid.menu.options.len(), 4);
}
