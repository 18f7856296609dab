//! The tray: its table of links, its menu, what a click on a menu item asks
//! for, and how the main window and the toggle item's label go together.

use vstd::prelude::*;
use crate::text::{same_text, starts_with};

verus! {

/// A web page that the tray menu offers.
#[derive(Clone, Copy, Debug)]
pub struct Link {
    /// The id of its menu item.
    pub id: &'static str,
    /// The title of its menu item.
    pub label: &'static str,
    /// The address that the item opens.
    pub url: &'static str,
}

/// A link as plain texts.
pub struct LinkView {
    pub id: Seq<char>,
    pub label: Seq<char>,
    pub url: Seq<char>,
}

impl View for Link {
    type V = LinkView;

    open spec fn view(&self) -> LinkView {
        LinkView { id: self.id@, label: self.label@, url: self.url@ }
    }
}

impl DeepView for Link {
    type V = LinkView;

    open spec fn deep_view(&self) -> LinkView {
        self@
    }
}

/// An entry of the tray menu.
#[derive(Debug)]
pub enum MenuEntry {
    /// An item that can be clicked.
    Item { id: &'static str, title: &'static str },
    /// A submenu whose items each open a link.
    Submenu { title: &'static str, links: Vec<Link> },
    /// A separator line.
    Separator,
}

/// A menu entry as plain texts.
pub enum MenuEntryView {
    Item { id: Seq<char>, title: Seq<char> },
    Submenu { title: Seq<char>, links: Seq<LinkView> },
    Separator,
}

impl View for MenuEntry {
    type V = MenuEntryView;

    open spec fn view(&self) -> MenuEntryView {
        match *self {
            MenuEntry::Item { id, title } => MenuEntryView::Item { id: id@, title: title@ },
            MenuEntry::Submenu { title, links } => MenuEntryView::Submenu {
                title: title@,
                links: links.deep_view(),
            },
            MenuEntry::Separator => MenuEntryView::Separator,
        }
    }
}

impl DeepView for MenuEntry {
    type V = MenuEntryView;

    open spec fn deep_view(&self) -> MenuEntryView {
        self@
    }
}

/// What a click on a menu item asks for.
#[derive(Debug)]
pub enum MenuCommand {
    /// Show the main window if it is hidden, hide it if it is shown.
    ToggleVisibility,
    /// End the program.
    Quit,
    /// Open this address in the browser.
    Open(&'static str),
    /// Nothing.
    Ignore,
}

/// A menu command as plain texts.
pub enum MenuCommandView {
    ToggleVisibility,
    Quit,
    Open(Seq<char>),
    Ignore,
}

impl View for MenuCommand {
    type V = MenuCommandView;

    open spec fn view(&self) -> MenuCommandView {
        match *self {
            MenuCommand::ToggleVisibility => MenuCommandView::ToggleVisibility,
            MenuCommand::Quit => MenuCommandView::Quit,
            MenuCommand::Open(url) => MenuCommandView::Open(url@),
            MenuCommand::Ignore => MenuCommandView::Ignore,
        }
    }
}

/// The title of the menu item that shows and hides the main window.
#[derive(Clone, Copy, PartialEq, Eq, Structural, Debug)]
pub enum ToggleLabel {
    Show,
    Hide,
}

/// The main window and the toggle item's label after an event.
#[derive(Clone, Copy, PartialEq, Eq, Structural, Debug)]
pub struct TrayState {
    /// Whether the main window is shown.
    pub window_visible: bool,
    /// The title of the toggle item.
    pub toggle_label: ToggleLabel,
}

/// The links of the tray menu, in menu order.
pub open spec fn link_table() -> Seq<LinkView> {
    seq![
        LinkView {
            id: "open-github-infinitel8p"@,
            label: "InfiniteL8p"@,
            url: "https://github.com/infinitel8p"@,
        },
        LinkView {
            id: "open-github-zaplink"@,
            label: "ZapLink"@,
            url: "https://github.com/infinitel8p/zaplink"@,
        },
    ]
}

/// The first link of `table` with the given id.
pub open spec fn first_with_id(table: Seq<LinkView>, id: Seq<char>) -> Option<LinkView>
    decreases table.len(),
{
    if table.len() == 0 {
        None
    } else if table[0].id == id {
        Some(table[0])
    } else {
        first_with_id(table.drop_first(), id)
    }
}

/// Whether a link belongs in the GitHub submenu.
pub open spec fn is_github_link(link: LinkView) -> bool {
    "open-github"@.is_prefix_of(link.id)
}

/// The links of the GitHub submenu, in menu order.
pub open spec fn github_table() -> Seq<LinkView> {
    link_table().filter(|link: LinkView| is_github_link(link))
}

/// The tray menu: the toggle item, the GitHub submenu, a separator and the
/// quit item.
pub open spec fn tray_layout() -> Seq<MenuEntryView> {
    seq![
        MenuEntryView::Item { id: "visibility-toggle"@, title: "Show"@ },
        MenuEntryView::Submenu { title: "GitHub"@, links: github_table() },
        MenuEntryView::Separator,
        MenuEntryView::Item { id: "quit"@, title: "Quit"@ },
    ]
}

/// What a click on the item with the given id asks for. An id that begins
/// with `open-` opens the link of that id, if there is one.
pub open spec fn command_for(id: Seq<char>) -> MenuCommandView {
    if id == "visibility-toggle"@ {
        MenuCommandView::ToggleVisibility
    } else if id == "quit"@ {
        MenuCommandView::Quit
    } else if "open-"@.is_prefix_of(id) {
        match first_with_id(link_table(), id) {
            Some(link) => MenuCommandView::Open(link.url),
            None => MenuCommandView::Ignore,
        }
    } else {
        MenuCommandView::Ignore
    }
}

/// Every link of the table is a GitHub page, so the submenu holds them all.
pub proof fn lemma_github_table_is_whole()
    ensures
        github_table() == link_table(),
{
    reveal_strlit("open-github-infinitel8p");
    reveal_strlit("open-github-zaplink");
    reveal_strlit("open-github");
    let table = link_table();
    let keep = |link: LinkView| is_github_link(link);
    assert("open-github"@ =~= table[0].id.subrange(0, 11));
    assert("open-github"@ =~= table[1].id.subrange(0, 11));
    assert(keep(table[0]) && keep(table[1]));
    reveal_with_fuel(Seq::filter, 3);
    assert(table.drop_last() =~= seq![table[0]]);
    assert(table.drop_last().drop_last() =~= Seq::<LinkView>::empty());
    assert(table.filter(keep) =~= table);
}

/// A click on the menu item of a link opens that link's address: the ids of
/// the table differ from each other and from the ids of the other items, and
/// each begins with `open-`.
pub proof fn lemma_every_link_opens(i: int)
    requires
        0 <= i < link_table().len(),
    ensures
        command_for(link_table()[i].id) == MenuCommandView::Open(link_table()[i].url),
{
    reveal_strlit("open-github-infinitel8p");
    reveal_strlit("open-github-zaplink");
    reveal_strlit("open-");
    reveal_strlit("quit");
    reveal_strlit("visibility-toggle");
    let table = link_table();
    let id = table[i].id;
    assert(id[0] == 'o');
    assert("quit"@[0] == 'q');
    assert("visibility-toggle"@[0] == 'v');
    assert("open-"@ =~= id.subrange(0, 5));
    assert(table[0].id.len() != table[1].id.len());
    assert(table.drop_first()[0] == table[1]);
    reveal_with_fuel(first_with_id, 3);
}

/// The state after the main window was asked to close: the window is
/// hidden, not closed, and the toggle item offers to show it.
pub open spec fn closed() -> TrayState {
    TrayState { window_visible: false, toggle_label: ToggleLabel::Show }
}

/// The state after a click on the toggle item: a window that was shown is
/// hidden and the item offers to show it; a window that was hidden is shown
/// and the item offers to hide it.
pub open spec fn toggled(was_visible: bool) -> TrayState {
    if was_visible {
        TrayState { window_visible: false, toggle_label: ToggleLabel::Show }
    } else {
        TrayState { window_visible: true, toggle_label: ToggleLabel::Hide }
    }
}

/// Closing the main window and then clicking the toggle item leaves the
/// window shown and the item titled `Hide`, whatever was the case before.
pub proof fn lemma_close_then_toggle()
    ensures
        closed() == (TrayState { window_visible: false, toggle_label: ToggleLabel::Show }),
        toggled(closed().window_visible) == (TrayState {
            window_visible: true,
            toggle_label: ToggleLabel::Hide,
        }),
{
}

/// A click on the toggle item always changes whether the window is shown,
/// and the title then names the opposite of what is the case.
pub proof fn lemma_toggle_flips(was_visible: bool)
    ensures
        toggled(was_visible).window_visible == !was_visible,
        toggled(was_visible).toggle_label.title() == if was_visible {
            "Show"@
        } else {
            "Hide"@
        },
        toggled(toggled(was_visible).window_visible).window_visible == was_visible,
{
}

impl ToggleLabel {
    /// The title as text.
    pub open spec fn title(&self) -> Seq<char> {
        match *self {
            ToggleLabel::Show => "Show"@,
            ToggleLabel::Hide => "Hide"@,
        }
    }

    /// The title to set on the toggle item.
    pub fn text(&self) -> (r: &'static str)
        ensures
            r@ == self.title(),
    {
        match *self {
            ToggleLabel::Show => "Show",
            ToggleLabel::Hide => "Hide",
        }
    }
}

impl TrayState {
    /// The state to bring about when the main window is asked to close.
    pub fn after_close() -> (r: TrayState)
        ensures
            r == closed(),
    {
        TrayState { window_visible: false, toggle_label: ToggleLabel::Show }
    }

    /// The state to bring about when the toggle item is clicked, given
    /// whether the main window is shown at that moment.
    pub fn after_toggle(was_visible: bool) -> (r: TrayState)
        ensures
            r == toggled(was_visible),
    {
        if was_visible {
            TrayState { window_visible: false, toggle_label: ToggleLabel::Show }
        } else {
            TrayState { window_visible: true, toggle_label: ToggleLabel::Hide }
        }
    }
}

/// The links of the tray menu, in menu order.
pub fn links() -> (r: Vec<Link>)
    ensures
        r.deep_view() == link_table(),
{
    let mut table: Vec<Link> = Vec::new();
    table.push(
        Link {
            id: "open-github-infinitel8p",
            label: "InfiniteL8p",
            url: "https://github.com/infinitel8p",
        },
    );
    table.push(
        Link {
            id: "open-github-zaplink",
            label: "ZapLink",
            url: "https://github.com/infinitel8p/zaplink",
        },
    );
    assert(table.deep_view() =~= link_table());
    table
}

/// The link with the given id, if the table has one.
pub fn find_link(id: &str) -> (r: Option<Link>)
    ensures
        r matches Some(link) ==> first_with_id(link_table(), id@) == Some(link@),
        r is None ==> first_with_id(link_table(), id@) is None,
{
    let table = links();
    let mut i: usize = 0;
    assert(link_table().skip(0) =~= link_table());
    while i < table.len()
        invariant
            i <= table.len(),
            table.deep_view() == link_table(),
            first_with_id(link_table(), id@) == first_with_id(link_table().skip(i as int), id@),
        decreases table.len() - i,
    {
        let link = table[i];
        proof {
            let rest = link_table().skip(i as int);
            assert(rest[0] == table.deep_view()[i as int]);
            assert(rest.drop_first() =~= link_table().skip(i + 1));
        }
        if same_text(link.id, id) {
            return Some(link);
        }
        i += 1;
    }
    None
}

/// The links of the GitHub submenu, in menu order.
pub fn github_links() -> (r: Vec<Link>)
    ensures
        r.deep_view() == github_table(),
{
    let table = links();
    let ghost keep = |link: LinkView| is_github_link(link);
    let mut chosen: Vec<Link> = Vec::new();
    let mut i: usize = 0;
    while i < table.len()
        invariant
            i <= table.len(),
            table.deep_view() == link_table(),
            keep == |link: LinkView| is_github_link(link),
            chosen.deep_view() == link_table().take(i as int).filter(keep),
        decreases table.len() - i,
    {
        let link = table[i];
        proof {
            reveal(Seq::filter);
            let upto = link_table().take(i + 1);
            assert(upto.drop_last() =~= link_table().take(i as int));
            assert(upto.last() == table.deep_view()[i as int]);
        }
        let ghost before = chosen.deep_view();
        if starts_with(link.id, "open-github") {
            chosen.push(link);
            assert(chosen.deep_view() =~= before.push(link@));
        }
        i += 1;
    }
    assert(link_table().take(table.len() as int) =~= link_table());
    chosen
}

/// The tray menu, entry by entry.
pub fn tray_menu() -> (r: Vec<MenuEntry>)
    ensures
        r.deep_view() == tray_layout(),
{
    let mut menu: Vec<MenuEntry> = Vec::new();
    menu.push(MenuEntry::Item { id: "visibility-toggle", title: "Show" });
    menu.push(MenuEntry::Submenu { title: "GitHub", links: github_links() });
    menu.push(MenuEntry::Separator);
    menu.push(MenuEntry::Item { id: "quit", title: "Quit" });
    assert(menu.deep_view() =~= tray_layout());
    menu
}

/// What a click on the menu item with the given id asks for.
pub fn menu_command(id: &str) -> (r: MenuCommand)
    ensures
        r@ == command_for(id@),
{
    if same_text(id, "visibility-toggle") {
        MenuCommand::ToggleVisibility
    } else if same_text(id, "quit") {
        MenuCommand::Quit
    } else if starts_with(id, "open-") {
        match find_link(id) {
            Some(link) => MenuCommand::Open(link.url),
            None => MenuCommand::Ignore,
        }
    } else {
        MenuCommand::Ignore
    }
}

} // verus!
