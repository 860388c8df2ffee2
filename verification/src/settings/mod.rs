//! The settings page: what it shows, declared with small builders, and where
//! everything goes on screen.

pub mod action;
pub mod choice_popup;
pub mod fixed_layout;
pub mod components;
pub mod item;
pub mod layout;
pub mod section;
pub mod state;
pub mod theme;
pub mod window;

use action::{ActionDefinition, ActionId};
use item::{ControlKind, SettingId, SettingItem};
use section::{SectionId, SettingSection, SettingSubSection};
use vstd::prelude::*;

verus! {

#[derive(Clone, Copy, Debug, PartialEq, Eq, Structural)]
pub enum SidebarItemId {
    Start,
}

/// An entry of the sidebar.
#[derive(Clone, Copy, Debug)]
pub struct SidebarItem {
    pub id: SidebarItemId,
    pub icon: &'static str,
    pub selected: bool,
}

pub struct SidebarDefinition {
    pub main: Vec<SidebarItem>,
    pub bottom: Vec<SidebarItem>,
}

/// The entries of one group of the sidebar, handed to a configuring closure.
pub struct SidebarGroup {
    pub items: Vec<SidebarItem>,
}

pub struct ContentDefinition {
    pub sections: Vec<SettingSection>,
    pub sub_sections: Vec<SettingSubSection>,
}

pub struct FooterDefinition {
    pub actions: Vec<ActionDefinition>,
}

/// Everything the settings page shows.
pub struct SettingsUi {
    pub sidebar: SidebarDefinition,
    pub content: ContentDefinition,
    pub footer: FooterDefinition,
}

impl SidebarItem {
    pub fn new(id: SidebarItemId, icon: &'static str) -> (r: Self)
        ensures
            r.id == id,
            r.icon == icon,
            !r.selected,
    {
        Self { id, icon, selected: false }
    }

    /// The same entry, marked as the selected one.
    pub fn selected(self) -> (r: Self)
        ensures
            r.id == self.id,
            r.icon == self.icon,
            r.selected,
    {
        let mut item = self;
        item.selected = true;
        item
    }
}

impl SidebarDefinition {
    /// Appends an entry to the main group.
    pub fn item(&mut self, item: SidebarItem)
        ensures
            final(self).main@ == old(self).main@.push(item),
            final(self).bottom@ == old(self).bottom@,
    {
        self.main.push(item);
    }

    /// Lets `configure` edit the bottom group.
    pub fn bottom(&mut self, configure: impl FnOnce(SidebarGroup) -> SidebarGroup)
        requires
            forall|group: SidebarGroup| group.items@ == old(self).bottom@ ==> configure.requires(
                (group,),
            ),
        ensures
            final(self).main@ == old(self).main@,
            exists|group: SidebarGroup, configured: SidebarGroup|
                group.items@ == old(self).bottom@ && configure.ensures((group,), configured)
                    && final(self).bottom@ == configured.items@,
    {
        let mut items: Vec<SidebarItem> = Vec::new();
        std::mem::swap(&mut items, &mut self.bottom);
        let group = SidebarGroup { items };
        assert(group.items@ == old(self).bottom@);
        let configured = configure(group);
        self.bottom = configured.items;
    }
}

impl SidebarGroup {
    pub fn item(&mut self, item: SidebarItem)
        ensures
            final(self).items@ == old(self).items@.push(item),
    {
        self.items.push(item);
    }
}

impl ContentDefinition {
    pub fn section(&mut self, section: SettingSection)
        ensures
            final(self).sections@ == old(self).sections@.push(section),
            final(self).sub_sections@ == old(self).sub_sections@,
    {
        self.sections.push(section);
    }

    pub fn sub_section(&mut self, section: SettingSubSection)
        ensures
            final(self).sections@ == old(self).sections@,
            final(self).sub_sections@ == old(self).sub_sections@.push(section),
    {
        self.sub_sections.push(section);
    }
}

impl FooterDefinition {
    pub fn action(&mut self, action: ActionDefinition)
        ensures
            final(self).actions@ == old(self).actions@.push(action),
    {
        self.actions.push(action);
    }
}

/// The rows of each section of the settings page, in order.
pub open spec fn settings_page_sections() -> Seq<(SectionId, Seq<SettingItem>)> {
    seq![
        (SectionId::Behavior, seq![
            SettingItem { id: SettingId::Shortcut, control: ControlKind::Choice },
            SettingItem { id: SettingId::StartButtonClick, control: ControlKind::Switch },
        ]),
        (SectionId::MenuBackground, seq![
            SettingItem { id: SettingId::Overlay, control: ControlKind::Slider },
            SettingItem { id: SettingId::Blur, control: ControlKind::Slider },
            SettingItem { id: SettingId::AnimationDuration, control: ControlKind::Slider },
        ]),
        (SectionId::Tiles, seq![
            SettingItem { id: SettingId::BarColumns, control: ControlKind::Choice },
            SettingItem { id: SettingId::TilesPerRow, control: ControlKind::Choice },
            SettingItem { id: SettingId::RoundedTiles, control: ControlKind::Switch },
            SettingItem { id: SettingId::RoundedTileBars, control: ControlKind::Switch },
            SettingItem { id: SettingId::TileAnimationDuration, control: ControlKind::Slider },
            SettingItem { id: SettingId::TileBackgroundOpacity, control: ControlKind::Slider },
            SettingItem { id: SettingId::TileBarBackgroundOpacity, control: ControlKind::Slider },
        ]),
        (SectionId::Debug, seq![
            SettingItem { id: SettingId::RestartShell, control: ControlKind::Button },
        ]),
    ]
}

impl SettingsUi {
    pub fn new() -> (r: Self)
        ensures
            r.sidebar.main@.len() == 0,
            r.sidebar.bottom@.len() == 0,
            r.content.sections@.len() == 0,
            r.content.sub_sections@.len() == 0,
            r.footer.actions@.len() == 0,
    {
        Self {
            sidebar: SidebarDefinition { main: Vec::new(), bottom: Vec::new() },
            content: ContentDefinition { sections: Vec::new(), sub_sections: Vec::new() },
            footer: FooterDefinition { actions: Vec::new() },
        }
    }

    /// The page with its sidebar replaced by what `configure` makes of it.
    pub fn sidebar(self, configure: impl FnOnce(SidebarDefinition) -> SidebarDefinition) -> (r: Self)
        requires
            configure.requires((self.sidebar,)),
        ensures
            configure.ensures((self.sidebar,), r.sidebar),
            r.content == self.content,
            r.footer == self.footer,
    {
        let SettingsUi { sidebar, content, footer } = self;
        let sidebar = configure(sidebar);
        SettingsUi { sidebar, content, footer }
    }

    /// The page with its content replaced by what `configure` makes of it.
    pub fn content(self, configure: impl FnOnce(ContentDefinition) -> ContentDefinition) -> (r: Self)
        requires
            configure.requires((self.content,)),
        ensures
            configure.ensures((self.content,), r.content),
            r.sidebar == self.sidebar,
            r.footer == self.footer,
    {
        let SettingsUi { sidebar, content, footer } = self;
        let content = configure(content);
        SettingsUi { sidebar, content, footer }
    }

    /// The page with its footer replaced by what `configure` makes of it.
    pub fn footer(self, configure: impl FnOnce(FooterDefinition) -> FooterDefinition) -> (r: Self)
        requires
            configure.requires((self.footer,)),
        ensures
            configure.ensures((self.footer,), r.footer),
            r.sidebar == self.sidebar,
            r.content == self.content,
    {
        let SettingsUi { sidebar, content, footer } = self;
        let footer = configure(footer);
        SettingsUi { sidebar, content, footer }
    }

    /// The settings page of the application: one selected sidebar entry, the
    /// behaviour, menu background, tiles and debug sections, and the undo and save
    /// buttons.
    pub fn settings_page() -> (r: Self)
        ensures
            r.sidebar.main@.len() == 1,
            r.sidebar.main@[0].id == SidebarItemId::Start,
            r.sidebar.main@[0].selected,
            r.sidebar.bottom@.len() == 0,
            r.content.sections@.len() == settings_page_sections().len(),
            forall|k: int|
                0 <= k < settings_page_sections().len() ==> (#[trigger] r.content.sections@[k]).id
                    == settings_page_sections()[k].0 && r.content.sections@[k].items@
                    == settings_page_sections()[k].1,
            r.content.sub_sections@.len() == 0,
            r.footer.actions@ == seq![
                ActionDefinition { id: ActionId::Undo, primary: false },
                ActionDefinition { id: ActionId::Save, primary: true },
            ],
    {
        let ui = Self::new();
        let ui = ui.sidebar(configure_page_sidebar);
        let ui = ui.content(configure_page_content);
        let ui = ui.footer(configure_page_footer);
        ui
    }
}

fn keep_group(group: SidebarGroup) -> (r: SidebarGroup)
    ensures
        r.items@ == group.items@,
{
    group
}

fn configure_page_sidebar(sidebar: SidebarDefinition) -> (r: SidebarDefinition)
    requires
        sidebar.main@.len() == 0,
        sidebar.bottom@.len() == 0,
    ensures
        r.main@.len() == 1,
        r.main@[0].id == SidebarItemId::Start,
        r.main@[0].selected,
        r.bottom@.len() == 0,
{
    let mut sidebar = sidebar;
    sidebar.item(SidebarItem::new(SidebarItemId::Start, "🏠").selected());
    sidebar.bottom(keep_group);
    sidebar
}

fn configure_page_content(content: ContentDefinition) -> (r: ContentDefinition)
    requires
        content.sections@.len() == 0,
        content.sub_sections@.len() == 0,
    ensures
        r.sections@.len() == settings_page_sections().len(),
        forall|k: int|
            0 <= k < settings_page_sections().len() ==> (#[trigger] r.sections@[k]).id
                == settings_page_sections()[k].0 && r.sections@[k].items@
                == settings_page_sections()[k].1,
        r.sub_sections@.len() == 0,
{
    let mut content = content;
    content.section(
        SettingSection::new(SectionId::Behavior).item(
            SettingItem::new(SettingId::Shortcut, ControlKind::Choice),
        ).item(SettingItem::new(SettingId::StartButtonClick, ControlKind::Switch)),
    );
    content.section(
        SettingSection::new(SectionId::MenuBackground).item(
            SettingItem::new(SettingId::Overlay, ControlKind::Slider),
        ).item(SettingItem::new(SettingId::Blur, ControlKind::Slider)).item(
            SettingItem::new(SettingId::AnimationDuration, ControlKind::Slider),
        ),
    );
    content.section(
        SettingSection::new(SectionId::Tiles).item(
            SettingItem::new(SettingId::BarColumns, ControlKind::Choice),
        ).item(SettingItem::new(SettingId::TilesPerRow, ControlKind::Choice)).item(
            SettingItem::new(SettingId::RoundedTiles, ControlKind::Switch),
        ).item(SettingItem::new(SettingId::RoundedTileBars, ControlKind::Switch)).item(
            SettingItem::new(SettingId::TileAnimationDuration, ControlKind::Slider),
        ).item(SettingItem::new(SettingId::TileBackgroundOpacity, ControlKind::Slider)).item(
            SettingItem::new(SettingId::TileBarBackgroundOpacity, ControlKind::Slider),
        ),
    );
    content.section(
        SettingSection::new(SectionId::Debug).item(
            SettingItem::new(SettingId::RestartShell, ControlKind::Button),
        ),
    );
    proof {
        assert(content.sections@[0].items@ =~= settings_page_sections()[0].1);
        assert(content.sections@[1].items@ =~= settings_page_sections()[1].1);
        assert(content.sections@[2].items@ =~= settings_page_sections()[2].1);
        assert(content.sections@[3].items@ =~= settings_page_sections()[3].1);
    }
    content
}

fn configure_page_footer(footer: FooterDefinition) -> (r: FooterDefinition)
    requires
        footer.actions@.len() == 0,
    ensures
        r.actions@ == seq![
            ActionDefinition { id: ActionId::Undo, primary: false },
            ActionDefinition { id: ActionId::Save, primary: true },
        ],
{
    let mut footer = footer;
    footer.action(ActionDefinition::new(ActionId::Undo, false));
    footer.action(ActionDefinition::new(ActionId::Save, true));
    proof {
        assert(footer.actions@ =~= seq![
            ActionDefinition { id: ActionId::Undo, primary: false },
            ActionDefinition { id: ActionId::Save, primary: true },
        ]);
    }
    footer
}

} // verus!
