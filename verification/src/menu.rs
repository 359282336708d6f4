//! The context menu: its items, in the order in which they are added to the
//! menu and its submenus.
use vstd::prelude::*;

use crate::command::{
    command_of, language_menu_id, language_number, state_commanded, Command, Model,
    IDM_ALWAYS_ON_TOP, IDM_EXIT, IDM_FREQ_15MIN, IDM_FREQ_1HOUR, IDM_FREQ_1MIN, IDM_FREQ_5MIN,
    IDM_LANG_SYSTEM, IDM_LAYOUT_HORIZONTAL, IDM_LAYOUT_VERTICAL, IDM_MODEL_CLAUDE_CODE,
    IDM_MODEL_CODEX, IDM_REFRESH, IDM_RESET_POSITION, IDM_START_WITH_WINDOWS, IDM_VERSION_ACTION,
};
use crate::locale::{Catalog, LanguageId, Strings};
use crate::settings::{POLL_15_MIN, POLL_1_HOUR, POLL_1_MIN, POLL_5_MIN};
use crate::state::{App, AppState, AppStateView, AppView, UpdateStatus, UpdateStatusView};
use crate::update::{busy, is_busy, version_action_label, version_label};

verus! {

/// The menu and its submenus.
#[derive(Clone, Copy, PartialEq, Eq, Structural, Debug)]
pub enum MenuId {
    Root,
    Frequency,
    Models,
    Layout,
    Settings,
    Language,
}

/// How an item is marked.
#[derive(Clone, Copy, PartialEq, Eq, Structural, Debug)]
pub enum Mark {
    Plain,
    Checked,
    /// It cannot be chosen.
    Grayed,
}

/// What is added to a menu.
#[derive(Clone, Copy, PartialEq, Eq, Structural, Debug)]
pub enum MenuItem {
    /// An item with the number of its command.
    Item { id: u16, mark: Mark },
    /// A submenu, to which everything has been added before.
    Submenu(MenuId),
    /// A line. It has no label.
    Separator,
}

/// One addition to a menu.
#[derive(Debug)]
pub struct MenuEntry {
    pub menu: MenuId,
    pub item: MenuItem,
    pub label: String,
}

/// What a [`MenuEntry`] says.
pub struct MenuEntryView {
    pub menu: MenuId,
    pub item: MenuItem,
    pub label: Seq<char>,
}

impl View for MenuEntry {
    type V = MenuEntryView;

    open spec fn view(&self) -> MenuEntryView {
        MenuEntryView { menu: self.menu, item: self.item, label: self.label@ }
    }
}

/// The views of entries.
pub open spec fn entry_views(entries: Seq<MenuEntry>) -> Seq<MenuEntryView> {
    entries.map_values(|e: MenuEntry| e@)
}

/// What the menu shows of the state.
pub struct MenuFacts {
    pub poll_interval_ms: u32,
    pub language: LanguageId,
    pub language_override: Option<LanguageId>,
    pub widget_visible: bool,
    pub show_claude_code: bool,
    pub show_codex: bool,
    pub layout_horizontal: bool,
    pub always_on_top: bool,
    pub startup_enabled: bool,
}

/// What the menu shows of the state; before there is one, what a first run
/// starts with.
pub open spec fn menu_facts(a: AppView, startup_enabled: bool) -> MenuFacts {
    match a.state {
        Some(s) => MenuFacts {
            poll_interval_ms: s.poll_interval_ms,
            language: s.language,
            language_override: s.language_override,
            widget_visible: s.widget_visible,
            show_claude_code: s.show_claude_code,
            show_codex: s.show_codex,
            layout_horizontal: s.layout_horizontal,
            always_on_top: s.always_on_top,
            startup_enabled,
        },
        None => MenuFacts {
            poll_interval_ms: POLL_15_MIN,
            language: LanguageId::English,
            language_override: None,
            widget_visible: true,
            show_claude_code: true,
            show_codex: false,
            layout_horizontal: true,
            always_on_top: false,
            startup_enabled,
        },
    }
}

/// The update status that the menu shows.
pub open spec fn menu_status(a: AppView) -> UpdateStatusView {
    match a.state {
        Some(s) => s.update_status,
        None => UpdateStatusView::Idle,
    }
}

/// Checked where something holds.
pub open spec fn checked_if(holds: bool) -> Mark {
    if holds {
        Mark::Checked
    } else {
        Mark::Plain
    }
}

/// An item of a menu.
pub open spec fn item(menu: MenuId, id: u16, mark: Mark, label: Seq<char>) -> MenuEntryView {
    MenuEntryView { menu, item: MenuItem::Item { id, mark }, label }
}

/// A submenu in a menu.
pub open spec fn submenu(menu: MenuId, sub: MenuId, label: Seq<char>) -> MenuEntryView {
    MenuEntryView { menu, item: MenuItem::Submenu(sub), label }
}

/// A line in a menu.
pub open spec fn line(menu: MenuId) -> MenuEntryView {
    MenuEntryView { menu, item: MenuItem::Separator, label: seq![] }
}

/// The poll intervals.
pub open spec fn frequency_entries(f: MenuFacts, strings: Strings) -> Seq<MenuEntryView> {
    let m = MenuId::Frequency;
    let now = f.poll_interval_ms;
    seq![
        item(m, IDM_FREQ_1MIN, checked_if(now == POLL_1_MIN), strings.one_minute@),
        item(m, IDM_FREQ_5MIN, checked_if(now == POLL_5_MIN), strings.five_minutes@),
        item(m, IDM_FREQ_15MIN, checked_if(now == POLL_15_MIN), strings.fifteen_minutes@),
        item(m, IDM_FREQ_1HOUR, checked_if(now == POLL_1_HOUR), strings.one_hour@),
        submenu(MenuId::Root, m, strings.update_frequency@),
    ]
}

/// The models.
pub open spec fn model_entries(f: MenuFacts, strings: Strings) -> Seq<MenuEntryView> {
    let m = MenuId::Models;
    seq![
        item(
            m,
            IDM_MODEL_CLAUDE_CODE,
            checked_if(f.show_claude_code),
            strings.claude_code_model@,
        ),
        item(m, IDM_MODEL_CODEX, checked_if(f.show_codex), strings.codex_model@),
        submenu(MenuId::Root, m, strings.models@),
    ]
}

/// The layouts.
pub open spec fn layout_entries(f: MenuFacts, strings: Strings) -> Seq<MenuEntryView> {
    let m = MenuId::Layout;
    seq![
        item(
            m,
            IDM_LAYOUT_HORIZONTAL,
            checked_if(f.layout_horizontal),
            strings.layout_side_by_side@,
        ),
        item(m, IDM_LAYOUT_VERTICAL, checked_if(!f.layout_horizontal), strings.layout_stacked@),
        submenu(MenuId::Root, m, strings.layout@),
    ]
}

/// The settings before the languages.
pub open spec fn settings_entries(f: MenuFacts, strings: Strings) -> Seq<MenuEntryView> {
    let m = MenuId::Settings;
    seq![
        item(
            m,
            IDM_START_WITH_WINDOWS,
            checked_if(f.startup_enabled),
            strings.start_with_windows@,
        ),
        item(m, IDM_RESET_POSITION, Mark::Plain, strings.reset_position@),
        item(m, IDM_ALWAYS_ON_TOP, checked_if(f.always_on_top), strings.always_on_top@),
        item(
            MenuId::Language,
            IDM_LANG_SYSTEM,
            checked_if(f.language_override is None),
            strings.system_default@,
        ),
    ]
}

/// The item of a language.
pub open spec fn language_entry(
    f: MenuFacts,
    catalog: Catalog,
    language: LanguageId,
) -> MenuEntryView {
    item(
        MenuId::Language,
        language_number(language),
        checked_if(f.language_override == Some(language)),
        catalog.entry(language).native_name@,
    )
}

/// The languages.
pub open spec fn language_entries(
    f: MenuFacts,
    catalog: Catalog,
    languages: Seq<LanguageId>,
) -> Seq<MenuEntryView> {
    languages.map_values(|language: LanguageId| language_entry(f, catalog, language))
}

/// What comes behind the languages.
pub open spec fn closing_entries(
    f: MenuFacts,
    strings: Strings,
    status: UpdateStatusView,
    version: Seq<char>,
    toggle_widget: u16,
) -> Seq<MenuEntryView> {
    let m = MenuId::Settings;
    seq![
        submenu(m, MenuId::Language, strings.language@),
        line(m),
        item(
            m,
            IDM_VERSION_ACTION,
            if is_busy(status) {
                Mark::Grayed
            } else {
                Mark::Plain
            },
            version_label(strings, status, version),
        ),
        submenu(MenuId::Root, m, strings.settings@),
        item(MenuId::Root, toggle_widget, checked_if(f.widget_visible), strings.show_widget@),
        line(MenuId::Root),
        item(MenuId::Root, IDM_EXIT, Mark::Plain, strings.exit@),
    ]
}

/// The whole menu.
pub open spec fn menu_entries(
    f: MenuFacts,
    status: UpdateStatusView,
    catalog: Catalog,
    version: Seq<char>,
    toggle_widget: u16,
) -> Seq<MenuEntryView> {
    let strings = catalog.entry(f.language).strings;
    seq![item(MenuId::Root, IDM_REFRESH, Mark::Plain, strings.refresh@)] + frequency_entries(
        f,
        strings,
    ) + model_entries(f, strings) + layout_entries(f, strings) + settings_entries(f, strings)
        + language_entries(f, catalog, catalog.all@) + closing_entries(
        f,
        strings,
        status,
        version,
        toggle_widget,
    )
}

fn mark_if(holds: bool) -> (mark: Mark)
    ensures
        mark == checked_if(holds),
{
    if holds {
        Mark::Checked
    } else {
        Mark::Plain
    }
}

fn new_item(menu: MenuId, id: u16, mark: Mark, label: &str) -> (entry: MenuEntry)
    ensures
        entry@ == item(menu, id, mark, label@),
{
    MenuEntry { menu, item: MenuItem::Item { id, mark }, label: label.to_string() }
}

fn new_submenu(menu: MenuId, sub: MenuId, label: &str) -> (entry: MenuEntry)
    ensures
        entry@ == submenu(menu, sub, label@),
{
    MenuEntry { menu, item: MenuItem::Submenu(sub), label: label.to_string() }
}

fn new_line(menu: MenuId) -> (entry: MenuEntry)
    ensures
        entry@ == line(menu),
{
    MenuEntry { menu, item: MenuItem::Separator, label: String::new() }
}

fn frequencies(f: &MenuFacts, strings: &Strings) -> (entries: Vec<MenuEntry>)
    ensures
        entry_views(entries@) == frequency_entries(*f, *strings),
{
    let m: MenuId = MenuId::Frequency;
    let now: u32 = f.poll_interval_ms;
    vec![
        new_item(m, IDM_FREQ_1MIN, mark_if(now == POLL_1_MIN), strings.one_minute),
        new_item(m, IDM_FREQ_5MIN, mark_if(now == POLL_5_MIN), strings.five_minutes),
        new_item(m, IDM_FREQ_15MIN, mark_if(now == POLL_15_MIN), strings.fifteen_minutes),
        new_item(m, IDM_FREQ_1HOUR, mark_if(now == POLL_1_HOUR), strings.one_hour),
        new_submenu(MenuId::Root, m, strings.update_frequency),
    ]
}

fn models(f: &MenuFacts, strings: &Strings) -> (entries: Vec<MenuEntry>)
    ensures
        entry_views(entries@) == model_entries(*f, *strings),
{
    let m: MenuId = MenuId::Models;
    vec![
        new_item(
            m,
            IDM_MODEL_CLAUDE_CODE,
            mark_if(f.show_claude_code),
            strings.claude_code_model,
        ),
        new_item(m, IDM_MODEL_CODEX, mark_if(f.show_codex), strings.codex_model),
        new_submenu(MenuId::Root, m, strings.models),
    ]
}

fn layouts(f: &MenuFacts, strings: &Strings) -> (entries: Vec<MenuEntry>)
    ensures
        entry_views(entries@) == layout_entries(*f, *strings),
{
    let m: MenuId = MenuId::Layout;
    vec![
        new_item(
            m,
            IDM_LAYOUT_HORIZONTAL,
            mark_if(f.layout_horizontal),
            strings.layout_side_by_side,
        ),
        new_item(m, IDM_LAYOUT_VERTICAL, mark_if(!f.layout_horizontal), strings.layout_stacked),
        new_submenu(MenuId::Root, m, strings.layout),
    ]
}

fn settings(f: &MenuFacts, strings: &Strings) -> (entries: Vec<MenuEntry>)
    ensures
        entry_views(entries@) == settings_entries(*f, *strings),
{
    let m: MenuId = MenuId::Settings;
    vec![
        new_item(
            m,
            IDM_START_WITH_WINDOWS,
            mark_if(f.startup_enabled),
            strings.start_with_windows,
        ),
        new_item(m, IDM_RESET_POSITION, Mark::Plain, strings.reset_position),
        new_item(m, IDM_ALWAYS_ON_TOP, mark_if(f.always_on_top), strings.always_on_top),
        new_item(
            MenuId::Language,
            IDM_LANG_SYSTEM,
            mark_if(f.language_override.is_none()),
            strings.system_default,
        ),
    ]
}

fn languages(f: &MenuFacts, catalog: &Catalog) -> (entries: Vec<MenuEntry>)
    ensures
        entry_views(entries@) == language_entries(*f, *catalog, catalog.all@),
{
    let mut entries: Vec<MenuEntry> = Vec::new();
    let mut i: usize = 0;
    while i < catalog.all.len()
        invariant
            i <= catalog.all.len(),
            entry_views(entries@) == language_entries(*f, *catalog, catalog.all@.take(i as int)),
        decreases catalog.all.len() - i,
    {
        let language: LanguageId = catalog.all[i];
        let chosen: bool = match f.language_override {
            Some(l) => l == language,
            None => false,
        };
        let ghost before = entries@;
        let entry: MenuEntry = new_item(
            MenuId::Language,
            language_menu_id(language),
            mark_if(chosen),
            catalog.language(language).native_name,
        );
        entries.push(entry);
        assert(entry_views(entries@) == entry_views(before).push(entry@));
        assert(catalog.all@.take(i + 1) == catalog.all@.take(i as int).push(language));
        i += 1;
    }
    assert(catalog.all@.take(i as int) == catalog.all@);
    entries
}

fn closing(
    f: &MenuFacts,
    strings: &Strings,
    status: &UpdateStatus,
    version: &str,
    toggle_widget: u16,
) -> (entries: Vec<MenuEntry>)
    ensures
        entry_views(entries@) == closing_entries(*f, *strings, status@, version@, toggle_widget),
{
    let m: MenuId = MenuId::Settings;
    let label: String = version_action_label(strings, status, version);
    let mark: Mark = if busy(status) {
        Mark::Grayed
    } else {
        Mark::Plain
    };
    vec![
        new_submenu(m, MenuId::Language, strings.language),
        new_line(m),
        new_item(m, IDM_VERSION_ACTION, mark, label.as_str()),
        new_submenu(MenuId::Root, m, strings.settings),
        new_item(MenuId::Root, toggle_widget, mark_if(f.widget_visible), strings.show_widget),
        new_line(MenuId::Root),
        new_item(MenuId::Root, IDM_EXIT, Mark::Plain, strings.exit),
    ]
}

proof fn lemma_views_of_joined(a: Seq<MenuEntry>, b: Seq<MenuEntry>)
    ensures
        entry_views(a + b) == entry_views(a) + entry_views(b),
{
}

/// Adds entries behind others.
fn join(entries: &mut Vec<MenuEntry>, mut more: Vec<MenuEntry>)
    ensures
        entry_views(final(entries)@) == entry_views(old(entries)@) + entry_views(more@),
{
    proof {
        lemma_views_of_joined(entries@, more@);
    }
    entries.append(&mut more);
}

/// The whole menu.
fn menu_of(
    f: &MenuFacts,
    status: &UpdateStatus,
    catalog: &Catalog,
    version: &str,
    toggle_widget: u16,
) -> (entries: Vec<MenuEntry>)
    ensures
        entry_views(entries@) == menu_entries(*f, status@, *catalog, version@, toggle_widget),
{
    let strings: Strings = catalog.strings(f.language);
    let mut entries: Vec<MenuEntry> = vec![
        new_item(MenuId::Root, IDM_REFRESH, Mark::Plain, strings.refresh),
    ];
    assert(entry_views(entries@) == seq![
        item(MenuId::Root, IDM_REFRESH, Mark::Plain, strings.refresh@),
    ]);
    join(&mut entries, frequencies(f, &strings));
    join(&mut entries, models(f, &strings));
    join(&mut entries, layouts(f, &strings));
    join(&mut entries, settings(f, &strings));
    join(&mut entries, languages(f, catalog));
    join(&mut entries, closing(f, &strings, status, version, toggle_widget));
    entries
}

impl AppState {
    fn menu_facts(&self, startup_enabled: bool) -> (facts: MenuFacts)
        ensures
            facts == menu_facts((AppView { dpi: 96, state: Some(self@) }), startup_enabled),
    {
        MenuFacts {
            poll_interval_ms: self.poll_interval_ms,
            language: self.language,
            language_override: self.language_override,
            widget_visible: self.widget_visible,
            show_claude_code: self.show_claude_code,
            show_codex: self.show_codex,
            layout_horizontal: self.layout_horizontal,
            always_on_top: self.always_on_top,
            startup_enabled,
        }
    }
}

impl App {
    /// The context menu. The item that shows the widget and puts it away has
    /// the number `toggle_widget`.
    pub fn context_menu(
        &self,
        startup_enabled: bool,
        catalog: &Catalog,
        version: &str,
        toggle_widget: u16,
    ) -> (entries: Vec<MenuEntry>)
        ensures
            entry_views(entries@) == menu_entries(
                menu_facts(self@, startup_enabled),
                menu_status(self@),
                *catalog,
                version@,
                toggle_widget,
            ),
    {
        match &self.state {
            Some(s) => {
                let facts: MenuFacts = s.menu_facts(startup_enabled);
                menu_of(&facts, &s.update_status, catalog, version, toggle_widget)
            },
            None => {
                let facts: MenuFacts = MenuFacts {
                    poll_interval_ms: POLL_15_MIN,
                    language: LanguageId::English,
                    language_override: None,
                    widget_visible: true,
                    show_claude_code: true,
                    show_codex: false,
                    layout_horizontal: true,
                    always_on_top: false,
                    startup_enabled,
                };
                menu_of(&facts, &UpdateStatus::Idle, catalog, version, toggle_widget)
            },
        }
    }
}

/// How the item of a command is marked: checked where what it stands for holds
/// now, grayed where it cannot be chosen.
pub open spec fn mark_for(f: MenuFacts, status: UpdateStatusView, command: Command) -> Mark {
    match command {
        Command::Frequency { ms } => checked_if(f.poll_interval_ms == ms),
        Command::ShowModel(Model::ClaudeCode) => checked_if(f.show_claude_code),
        Command::ShowModel(Model::Codex) => checked_if(f.show_codex),
        Command::Layout { horizontal } => checked_if(f.layout_horizontal == horizontal),
        Command::StartWithWindows => checked_if(f.startup_enabled),
        Command::AlwaysOnTop => checked_if(f.always_on_top),
        Command::SetLanguage(language) => checked_if(f.language_override == language),
        Command::ToggleWidget => checked_if(f.widget_visible),
        Command::VersionAction => if is_busy(status) {
            Mark::Grayed
        } else {
            Mark::Plain
        },
        _ => Mark::Plain,
    }
}

/// If the entry is an item, it has the number of a command and is marked as the
/// command's item should be.
pub open spec fn tells_the_state(
    e: MenuEntryView,
    f: MenuFacts,
    status: UpdateStatusView,
    toggle_widget: u16,
) -> bool {
    match e.item {
        MenuItem::Item { id, mark } => {
            &&& command_of(id, toggle_widget) != Command::Unknown
            &&& mark == mark_for(f, status, command_of(id, toggle_widget))
        },
        _ => true,
    }
}

/// Every item of the menu is that of a command, checked exactly where what it
/// stands for holds, and grayed exactly where it is about updates and work on
/// them is going on.
pub proof fn marks_tell_the_state(
    f: MenuFacts,
    status: UpdateStatusView,
    catalog: Catalog,
    version: Seq<char>,
    toggle_widget: u16,
)
    requires
        command_of(toggle_widget, toggle_widget) == Command::ToggleWidget,
    ensures
        forall|i: int|
            0 <= i < menu_entries(f, status, catalog, version, toggle_widget).len()
                ==> tells_the_state(
                #[trigger] menu_entries(f, status, catalog, version, toggle_widget)[i],
                f,
                status,
                toggle_widget,
            ),
{
    let strings = catalog.entry(f.language).strings;
    let entries = menu_entries(f, status, catalog, version, toggle_widget);
    let n = catalog.all@.len();
    assert forall|i: int| 0 <= i < entries.len() implies tells_the_state(
        #[trigger] entries[i],
        f,
        status,
        toggle_widget,
    ) by {
        if i == 0 {
        } else if i < 6 {
            assert(entries[i] == frequency_entries(f, strings)[i - 1]);
        } else if i < 9 {
            assert(entries[i] == model_entries(f, strings)[i - 6]);
        } else if i < 12 {
            assert(entries[i] == layout_entries(f, strings)[i - 9]);
        } else if i < 16 {
            assert(entries[i] == settings_entries(f, strings)[i - 12]);
        } else if i < 16 + n {
            assert(entries[i] == language_entries(f, catalog, catalog.all@)[i - 16]);
        } else {
            assert(entries[i] == closing_entries(f, strings, status, version, toggle_widget)[i - 16
                - n]);
        }
    }
}

/// The entry is the item with this number.
pub open spec fn has_number(e: MenuEntryView, id: u16) -> bool {
    e.item is Item && e.item->id == id
}

/// Every command that a number stands for can be chosen from the menu; that of
/// a language, if the catalog lists the language.
pub proof fn every_command_has_an_item(
    f: MenuFacts,
    status: UpdateStatusView,
    catalog: Catalog,
    version: Seq<char>,
    toggle_widget: u16,
    id: u16,
)
    requires
        command_of(id, toggle_widget) != Command::Unknown,
        command_of(id, toggle_widget) matches Command::SetLanguage(Some(language))
            ==> catalog.all@.contains(language),
    ensures
        exists|i: int|
            0 <= i < menu_entries(f, status, catalog, version, toggle_widget).len()
                && has_number(
                #[trigger] menu_entries(f, status, catalog, version, toggle_widget)[i],
                id,
            ),
{
    let entries = menu_entries(f, status, catalog, version, toggle_widget);
    let n = catalog.all@.len() as int;
    let at: int = match command_of(id, toggle_widget) {
        Command::Refresh => 0,
        Command::Frequency { ms } => if ms == POLL_1_MIN {
            1
        } else if ms == POLL_5_MIN {
            2
        } else if ms == POLL_15_MIN {
            3
        } else {
            4
        },
        Command::ShowModel(Model::ClaudeCode) => 6,
        Command::ShowModel(Model::Codex) => 7,
        Command::Layout { horizontal: true } => 9,
        Command::Layout { horizontal: false } => 10,
        Command::StartWithWindows => 12,
        Command::ResetPosition => 13,
        Command::AlwaysOnTop => 14,
        Command::SetLanguage(None) => 15,
        Command::SetLanguage(Some(language)) => 16 + catalog.all@.index_of(language),
        Command::VersionAction => 18 + n,
        Command::ToggleWidget => 20 + n,
        _ => 22 + n,
    };
    match command_of(id, toggle_widget) {
        Command::SetLanguage(Some(language)) => {
            let j = catalog.all@.index_of(language);
            assert(catalog.all@[j] == language);
            assert(entries[at] == language_entries(f, catalog, catalog.all@)[j]);
        },
        _ => {},
    }
    assert(has_number(entries[at], id));
}

/// An interval or a layout that has been chosen is the one that the menu shows
/// as checked; choosing to show the widget, or to have it above all others,
/// turns the item's check round.
pub proof fn chosen_items_change_their_mark(s: AppStateView, command: Command, dpi: u32, startup: bool)
    ensures
        ({
            let f = menu_facts((AppView { dpi, state: Some(s) }), startup);
            let g = menu_facts(
                (AppView { dpi, state: Some(state_commanded(s, command)) }),
                startup,
            );
            let before = mark_for(f, s.update_status, command);
            let after = mark_for(g, s.update_status, command);
            match command {
                Command::Frequency { .. } => after == Mark::Checked,
                Command::Layout { .. } => after == Mark::Checked,
                Command::AlwaysOnTop => after == checked_if(before != Mark::Checked),
                Command::ToggleWidget => after == checked_if(before != Mark::Checked),
                _ => true,
            }
        }),
{
}

/// The view of an entry tells its menu, its item and its label.
pub proof fn the_view_tells_the_entry(e: MenuEntry)
    ensures
        e@.menu == e.menu,
        e@.item == e.item,
        e@.label == e.label@,
{
}

/// The menu that a state leads to.
pub open spec fn menu_in(
    s: AppStateView,
    dpi: u32,
    startup: bool,
    catalog: Catalog,
    version: Seq<char>,
    toggle_widget: u16,
) -> Seq<MenuEntryView> {
    let a = AppView { dpi, state: Some(s) };
    menu_entries(menu_facts(a, startup), menu_status(a), catalog, version, toggle_widget)
}

/// The entry is the item with this number and label in this menu.
pub open spec fn reads(e: MenuEntryView, menu: MenuId, id: u16, label: Seq<char>) -> bool {
    e.menu == menu && has_number(e, id) && e.label == label
}

/// The entry opens this submenu of this menu, under this label.
pub open spec fn opens(e: MenuEntryView, menu: MenuId, sub: MenuId, label: Seq<char>) -> bool {
    e.menu == menu && e.item == MenuItem::Submenu(sub) && e.label == label
}

/// The entry is an item that is checked.
pub open spec fn is_checked(e: MenuEntryView) -> bool {
    e.item matches MenuItem::Item { mark: Mark::Checked, .. }
}

/// Everything in the menu is labelled in the language of the state, each item and
/// each submenu with its own text; a language is called by its own name.
pub proof fn labels_are_in_the_language_of_the_state(
    s: AppStateView,
    dpi: u32,
    startup: bool,
    catalog: Catalog,
    version: Seq<char>,
    toggle_widget: u16,
)
    ensures
        ({
            let e = menu_in(s, dpi, startup, catalog, version, toggle_widget);
            let strings = catalog.entry(s.language).strings;
            let n = catalog.all@.len() as int;
            &&& e.len() == 23 + n
            &&& reads(e[0], MenuId::Root, IDM_REFRESH, strings.refresh@)
            &&& reads(e[1], MenuId::Frequency, IDM_FREQ_1MIN, strings.one_minute@)
            &&& reads(e[2], MenuId::Frequency, IDM_FREQ_5MIN, strings.five_minutes@)
            &&& reads(e[3], MenuId::Frequency, IDM_FREQ_15MIN, strings.fifteen_minutes@)
            &&& reads(e[4], MenuId::Frequency, IDM_FREQ_1HOUR, strings.one_hour@)
            &&& opens(e[5], MenuId::Root, MenuId::Frequency, strings.update_frequency@)
            &&& reads(e[6], MenuId::Models, IDM_MODEL_CLAUDE_CODE, strings.claude_code_model@)
            &&& reads(e[7], MenuId::Models, IDM_MODEL_CODEX, strings.codex_model@)
            &&& opens(e[8], MenuId::Root, MenuId::Models, strings.models@)
            &&& reads(e[9], MenuId::Layout, IDM_LAYOUT_HORIZONTAL, strings.layout_side_by_side@)
            &&& reads(e[10], MenuId::Layout, IDM_LAYOUT_VERTICAL, strings.layout_stacked@)
            &&& opens(e[11], MenuId::Root, MenuId::Layout, strings.layout@)
            &&& reads(e[12], MenuId::Settings, IDM_START_WITH_WINDOWS, strings.start_with_windows@)
            &&& reads(e[13], MenuId::Settings, IDM_RESET_POSITION, strings.reset_position@)
            &&& reads(e[14], MenuId::Settings, IDM_ALWAYS_ON_TOP, strings.always_on_top@)
            &&& reads(e[15], MenuId::Language, IDM_LANG_SYSTEM, strings.system_default@)
            &&& opens(e[16 + n], MenuId::Settings, MenuId::Language, strings.language@)
            &&& e[17 + n].menu == MenuId::Settings && e[17 + n].item == MenuItem::Separator
            &&& reads(
                e[18 + n],
                MenuId::Settings,
                IDM_VERSION_ACTION,
                version_label(strings, s.update_status, version),
            )
            &&& opens(e[19 + n], MenuId::Root, MenuId::Settings, strings.settings@)
            &&& reads(e[20 + n], MenuId::Root, toggle_widget, strings.show_widget@)
            &&& e[21 + n].menu == MenuId::Root && e[21 + n].item == MenuItem::Separator
            &&& reads(e[22 + n], MenuId::Root, IDM_EXIT, strings.exit@)
        }),
        forall|i: int|
            0 <= i < catalog.all@.len() ==> reads(
                #[trigger] menu_in(s, dpi, startup, catalog, version, toggle_widget)[16 + i],
                MenuId::Language,
                language_number(catalog.all@[i]),
                catalog.entry(catalog.all@[i]).native_name@,
            ),
{
    let a = AppView { dpi, state: Some(s) };
    let f = menu_facts(a, startup);
    let e = menu_in(s, dpi, startup, catalog, version, toggle_widget);
    let languages = language_entries(f, catalog, catalog.all@);
    assert forall|i: int| 0 <= i < catalog.all@.len() implies reads(
        #[trigger] e[16 + i],
        MenuId::Language,
        language_number(catalog.all@[i]),
        catalog.entry(catalog.all@[i]).native_name@,
    ) by {
        assert(e[16 + i] == languages[i]);
    }
}

/// What is checked in the menu is what holds in the state: the interval at which
/// it polls, the models that it shows, its layout, the language that the user has
/// set, and what is switched on.
pub proof fn checks_tell_what_is_set(
    s: AppStateView,
    dpi: u32,
    startup: bool,
    catalog: Catalog,
    version: Seq<char>,
    toggle_widget: u16,
)
    ensures
        ({
            let e = menu_in(s, dpi, startup, catalog, version, toggle_widget);
            let n = catalog.all@.len() as int;
            &&& is_checked(e[1]) == (s.poll_interval_ms == 60_000)
            &&& is_checked(e[2]) == (s.poll_interval_ms == 300_000)
            &&& is_checked(e[3]) == (s.poll_interval_ms == 900_000)
            &&& is_checked(e[4]) == (s.poll_interval_ms == 3_600_000)
            &&& is_checked(e[6]) == s.show_claude_code
            &&& is_checked(e[7]) == s.show_codex
            &&& is_checked(e[9]) == s.layout_horizontal
            &&& is_checked(e[10]) == !s.layout_horizontal
            &&& is_checked(e[12]) == startup
            &&& is_checked(e[14]) == s.always_on_top
            &&& is_checked(e[15]) == (s.language_override is None)
            &&& is_checked(e[20 + n]) == s.widget_visible
            &&& !is_checked(e[0]) && !is_checked(e[13]) && !is_checked(e[18 + n])
            &&& !is_checked(e[22 + n])
        }),
        forall|i: int|
            0 <= i < catalog.all@.len() ==> is_checked(
                #[trigger] menu_in(s, dpi, startup, catalog, version, toggle_widget)[16 + i],
            ) == (s.language_override == Some(catalog.all@[i])),
{
    let a = AppView { dpi, state: Some(s) };
    let f = menu_facts(a, startup);
    let e = menu_in(s, dpi, startup, catalog, version, toggle_widget);
    let languages = language_entries(f, catalog, catalog.all@);
    assert forall|i: int| 0 <= i < catalog.all@.len() implies is_checked(#[trigger] e[16 + i]) == (
    s.language_override == Some(catalog.all@[i])) by {
        assert(e[16 + i] == languages[i]);
    }
}

/// Before there is a state, the menu is that of a first run: in English, polling
/// every fifteen minutes, with the first model alone, side by side, to be seen.
pub proof fn the_first_menu_is_that_of_a_first_run(dpi: u32, startup: bool)
    ensures
        ({
            let a = AppView { dpi, state: None };
            let f = menu_facts(a, startup);
            &&& f.language == LanguageId::English && f.language_override is None
            &&& f.poll_interval_ms == 900_000
            &&& f.show_claude_code && !f.show_codex && f.layout_horizontal
            &&& f.widget_visible && !f.always_on_top && f.startup_enabled == startup
            &&& menu_status(a) == UpdateStatusView::Idle
        }),
{
}

} // verus!
