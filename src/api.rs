use vstd::prelude::*;

use crate::error::TIError;
use crate::menu::{activated, appended, empty_menu, EntryView, Menu, MenuView, RenderedItem};

verus! {

/// A tray entry as the contracts see it.
pub struct TrayView<C> {
    pub title: Seq<char>,
    /// The icon identifier last set; empty for none.
    pub icon: Seq<char>,
    pub menu: MenuView<C>,
}

/// A fresh tray: the given title and icon identifier, and an empty menu.
pub open spec fn created<C>(title: Seq<char>, icon: Seq<char>) -> TrayView<C> {
    TrayView { title, icon, menu: empty_menu() }
}

/// The tray after its icon identifier is replaced; the menu stays as it was.
pub open spec fn with_icon<C>(t: TrayView<C>, icon: Seq<char>) -> TrayView<C> {
    TrayView { icon, ..t }
}

/// The tray after a disabled label is appended to its menu.
pub open spec fn with_label<C>(t: TrayView<C>, text: Seq<char>) -> TrayView<C> {
    TrayView { menu: appended(t.menu, EntryView::Label { text }), ..t }
}

/// The tray after a clickable entry is appended to its menu.
pub open spec fn with_item<C>(t: TrayView<C>, text: Seq<char>, cb: C) -> TrayView<C> {
    TrayView { menu: appended(t.menu, EntryView::Action { text, cb }), ..t }
}

/// The tray after entry `i` of its menu has been activated.
pub open spec fn with_activation<C>(t: TrayView<C>, i: int) -> TrayView<C> {
    TrayView { menu: activated(t.menu, i), ..t }
}

/// How the tray shows itself in the status area: by its image, or, where
/// it has none that the toolkit could find, by its title as text.
#[derive(Debug, PartialEq, Eq)]
pub enum Appearance {
    Icon(String),
    Title(String),
}

/// Whether a tray shows its image, given whether the toolkit found an image
/// under the tray's icon identifier.
pub open spec fn shows_icon<C>(t: TrayView<C>, icon_found: bool) -> bool {
    t.icon.len() > 0 && icon_found
}

/// The backend of a tray: its title, its icon identifier and its menu. The
/// native toolkit shows what this holds and hands activations back to it.
pub struct TrayItemImpl<C> {
    title: String,
    icon: String,
    menu: Menu<C>,
}

impl<C> View for TrayItemImpl<C> {
    type V = TrayView<C>;

    closed spec fn view(&self) -> TrayView<C> {
        TrayView { title: self.title@, icon: self.icon@, menu: self.menu@ }
    }
}

impl<C> TrayItemImpl<C> {
    pub closed spec fn wf(&self) -> bool {
        self.menu.wf()
    }

    /// A tray with the given title and icon identifier (empty for none) and
    /// an empty menu. An identifier that names no image is no error: the tray
    /// then shows its title.
    pub fn new(title: &str, icon: &str) -> (r: Result<Self, TIError>)
        ensures
            r is Ok,
            r matches Ok(t) ==> t.wf() && t@ == created::<C>(title@, icon@),
    {
        let mut t = TrayItemImpl { title: title.to_owned(), icon: String::new(), menu: Menu::new() };
        match t.set_icon(icon) {
            Ok(()) => Ok(t),
            Err(e) => Err(e),
        }
    }

    /// Replaces the icon identifier; the menu is left as it was.
    pub fn set_icon(&mut self, icon: &str) -> (r: Result<(), TIError>)
        requires
            old(self).wf(),
        ensures
            r is Ok,
            final(self).wf(),
            final(self)@ == with_icon(old(self)@, icon@),
    {
        self.icon = icon.to_owned();
        Ok(())
    }

    /// Appends a disabled label to the menu.
    pub fn add_label(&mut self, label: &str) -> (r: Result<(), TIError>)
        requires
            old(self).wf(),
        ensures
            r is Ok,
            final(self).wf(),
            final(self)@ == with_label(old(self)@, label@),
    {
        self.menu.push_label(label.to_owned());
        Ok(())
    }

    /// Appends a clickable entry whose activation runs `cb`.
    pub fn add_menu_item(&mut self, label: &str, cb: C) -> (r: Result<(), TIError>)
        where
            C: Fn() + Send + Sync + 'static,
        requires
            old(self).wf(),
        ensures
            r is Ok,
            final(self).wf(),
            final(self)@ == with_item(old(self)@, label@, cb),
    {
        self.menu.push_action(label.to_owned(), cb);
        Ok(())
    }

    /// Delivers an activation of menu entry `index`: runs its callback once
    /// where the entry is interactive, and tells whether it did.
    pub fn activate(&mut self, index: usize) -> (r: bool)
        where
            C: Fn(),
        requires
            old(self).wf(),
            index < old(self)@.menu.entries.len() ==> match old(self)@.menu.entries[index as int] {
                EntryView::Label { .. } => true,
                EntryView::Action { cb, .. } => cb.requires(()),
            },
        ensures
            final(self).wf(),
            final(self)@ == with_activation(old(self)@, index as int),
            r == (index < old(self)@.menu.entries.len()
                && old(self)@.menu.entries[index as int].is_action()),
            r ==> match old(self)@.menu.entries[index as int] {
                EntryView::Label { .. } => false,
                EntryView::Action { cb, .. } => cb.ensures((), ()),
            },
    {
        self.menu.activate(index)
    }

    /// What the status area shows, given whether the toolkit found an image
    /// under the icon identifier.
    pub fn appearance(&self, icon_found: bool) -> (r: Appearance)
        ensures
            shows_icon(self@, icon_found) ==> (r matches Appearance::Icon(s) && s@ == self@.icon),
            !shows_icon(self@, icon_found) ==> (r matches Appearance::Title(s) && s@ == self@.title),
    {
        if !self.icon.as_str().is_empty() && icon_found {
            Appearance::Icon(self.icon.clone())
        } else {
            Appearance::Title(self.title.clone())
        }
    }

    /// The menu's entries as a native menu shows them, in order.
    pub fn menu_items(&self) -> (r: Vec<RenderedItem>)
        requires
            self.wf(),
        ensures
            r@.len() == self@.menu.entries.len(),
            forall|i: int|
                0 <= i < r@.len() ==> {
                    &&& (#[trigger] r@[i]).text@ == self@.menu.entries[i].text()
                    &&& r@[i].enabled == self@.menu.entries[i].is_action()
                },
    {
        self.menu.rendered()
    }
    pub fn title(&self) -> (r: &str)
        ensures
            r@ == self@.title,
    {
        self.title.as_str()
    }

    /// The icon identifier last set; empty for none.
    pub fn icon(&self) -> (r: &str)
        ensures
            r@ == self@.icon,
    {
        self.icon.as_str()
    }

    /// How many entries the menu has.
    pub fn menu_len(&self) -> (r: usize)
        requires
            self.wf(),
        ensures
            r == self@.menu.entries.len(),
    {
        self.menu.len()
    }
}

} // verus!
