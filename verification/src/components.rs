//! The message components of a paged list: the navigation buttons and the
//! page picker.

use vstd::prelude::*;
use crate::text::{decimal, format_u64, same_text};

verus! {

/// One entry of a select menu: the text shown and the value sent back.
#[derive(PartialEq, Eq, Debug)]
pub struct SelectOption {
    pub label: String,
    pub value: String,
}

/// A select menu.
#[derive(PartialEq, Eq, Debug)]
pub struct SelectMenu {
    pub custom_id: String,
    pub placeholder: String,
    pub options: Vec<SelectOption>,
}

/// How a button is drawn.
#[derive(PartialEq, Eq, Debug, Clone, Copy)]
pub enum ButtonStyle {
    Primary,
    Danger,
}

/// A button: its look, the id its presses carry, and its disabled flag
/// (`None` when the flag is not set at all).
#[derive(PartialEq, Eq, Debug)]
pub struct Button {
    pub style: ButtonStyle,
    pub label: String,
    pub emoji: String,
    pub custom_id: String,
    pub disabled: Option<bool>,
}

/// The components of a list message: a row of buttons and a row holding the page picker.
#[derive(PartialEq, Eq, Debug)]
pub struct Components {
    pub buttons: Vec<Button>,
    pub menu: SelectMenu,
}

/// The menu option for page `x`: labelled and valued with its number.
pub open spec fn option_is(o: SelectOption, x: nat) -> bool {
    o.label@ == decimal(x) && o.value@ == decimal(x)
}

fn page_option(x: usize) -> (res: SelectOption)
    ensures
        option_is(res, x as nat),
{
    SelectOption { label: format_u64(x as u64), value: format_u64(x as u64) }
}

/// The page picker for pages `first` to `last`: id `"range"`, placeholder
/// `"Page No"`, one option per page in order.
pub open spec fn is_page_menu(m: SelectMenu, first: nat, last: nat) -> bool {
    &&& m.custom_id@ == "range"@
    &&& m.placeholder@ == "Page No"@
    &&& first <= last ==> m.options@.len() == last - first + 1
    &&& first > last ==> m.options@.len() == 0
    &&& forall|i: int| 0 <= i < m.options@.len() ==> option_is(#[trigger] m.options@[i], (first + i) as nat)
}

/// The page picker: id `"range"`, placeholder `"Page No"`, and one option
/// for each number from `first` to `last`, in order.
pub fn make_range_select_menu(first: usize, last: usize) -> (res: SelectMenu)
    ensures
        is_page_menu(res, first as nat, last as nat),
{
    let mut options: Vec<SelectOption> = Vec::new();
    if first <= last {
        let mut x = first;
        loop
            invariant_except_break
                first <= x <= last,
                options@.len() == x - first,
                forall|i: int| 0 <= i < options@.len() ==> option_is(#[trigger] options@[i], (first + i) as nat),
            ensures
                options@.len() == last - first + 1,
                forall|i: int| 0 <= i < options@.len() ==> option_is(#[trigger] options@[i], (first + i) as nat),
            decreases last - x,
        {
            options.push(page_option(x));
            if x == last {
                break;
            }
            x = x + 1;
        }
    }
    SelectMenu {
        custom_id: String::from_str("range"),
        placeholder: String::from_str("Page No"),
        options,
    }
}

/// Whether `b` is the button with these looks, id and state.
pub open spec fn button_is(
    b: Button,
    style: ButtonStyle,
    label: Seq<char>,
    emoji: Seq<char>,
    custom_id: Seq<char>,
    disabled: Option<bool>,
) -> bool {
    &&& b.style == style
    &&& b.label@ == label
    &&& b.emoji@ == emoji
    &&& b.custom_id@ == custom_id
    &&& b.disabled == disabled
}

fn button(style: ButtonStyle, label: &str, emoji: &str, custom_id: &str, disabled: Option<bool>) -> (res: Button)
    ensures
        button_is(res, style, label@, emoji@, custom_id@, disabled),
{
    Button {
        style,
        label: String::from_str(label),
        emoji: String::from_str(emoji),
        custom_id: String::from_str(custom_id),
        disabled,
    }
}

/// The navigation buttons First, Prev, Next, Last (disabled towards the end
/// named by `terminal`, `"first"` or `"last"`, enabled otherwise) and Delete
/// (with no disabled flag), then the picker
/// for pages 1 to `pages`.
pub fn make_terminal_components(terminal: &str, pages: usize) -> (res: Components)
    ensures
        res.buttons@.len() == 5,
        button_is(res.buttons@[0], ButtonStyle::Primary, "First"@, "\u{23EA}"@, "first"@, Some(terminal@ == "first"@)),
        button_is(res.buttons@[1], ButtonStyle::Primary, "Prev"@, "\u{25C0}"@, "prev"@, Some(terminal@ == "first"@)),
        button_is(res.buttons@[2], ButtonStyle::Primary, "Next"@, "\u{25B6}"@, "next"@, Some(terminal@ == "last"@)),
        button_is(res.buttons@[3], ButtonStyle::Primary, "Last"@, "\u{23E9}"@, "last"@, Some(terminal@ == "last"@)),
        button_is(res.buttons@[4], ButtonStyle::Danger, "Delete"@, "\u{1F5D1}"@, "delete"@, None),
        is_page_menu(res.menu, 1, pages as nat),
{
    let at_first = same_text(terminal, "first");
    let at_last = same_text(terminal, "last");
    let mut buttons: Vec<Button> = Vec::new();
    buttons.push(button(ButtonStyle::Primary, "First", "\u{23EA}", "first", Some(at_first)));
    buttons.push(button(ButtonStyle::Primary, "Prev", "\u{25C0}", "prev", Some(at_first)));
    buttons.push(button(ButtonStyle::Primary, "Next", "\u{25B6}", "next", Some(at_last)));
    buttons.push(button(ButtonStyle::Primary, "Last", "\u{23E9}", "last", Some(at_last)));
    buttons.push(button(ButtonStyle::Danger, "Delete", "\u{1F5D1}", "delete", None));
    Components { buttons, menu: make_range_select_menu(1, pages) }
}

} // verus!
