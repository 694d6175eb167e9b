use vstd::prelude::*;

pub mod api;
pub mod error;
pub mod laws;
pub mod menu;

pub use error::TIError;

use api::{created, with_icon, with_item, with_label, TrayItemImpl, TrayView};

verus! {

/// A tray icon with its dropdown menu: the type that applications use. It
/// hands every call on to its backend.
pub struct TrayItem<C>(TrayItemImpl<C>);

impl<C> View for TrayItem<C> {
    type V = TrayView<C>;

    closed spec fn view(&self) -> TrayView<C> {
        self.0@
    }
}

impl<C> TrayItem<C> {
    pub closed spec fn wf(&self) -> bool {
        self.0.wf()
    }

    /// A tray with the given title and icon identifier (empty for none) and
    /// an empty menu.
    pub fn new(title: &str, icon: &str) -> (r: Result<Self, TIError>)
        ensures
            r is Ok,
            r matches Ok(t) ==> t.wf() && t@ == created::<C>(title@, icon@),
    {
        match TrayItemImpl::new(title, icon) {
            Ok(t) => Ok(TrayItem(t)),
            Err(e) => Err(e),
        }
    }

    /// Replaces the icon identifier; the menu is left as it was.
    pub fn set_icon(&mut self, icon: &str) -> (r: Result<(), TIError>)
        requires
            old(self).wf(),
        ensures
            r is Ok,
            final(self).wf(),
            final(self)@ == with_icon(old(self)@, icon@),
    {
        self.0.set_icon(icon)
    }

    /// Appends a disabled label to the menu.
    pub fn add_label(&mut self, label: &str) -> (r: Result<(), TIError>)
        requires
            old(self).wf(),
        ensures
            r is Ok,
            final(self).wf(),
            final(self)@ == with_label(old(self)@, label@),
    {
        self.0.add_label(label)
    }

    /// Appends a clickable entry whose activation runs `cb`.
    pub fn add_menu_item(&mut self, label: &str, cb: C) -> (r: Result<(), TIError>)
        where
            C: Fn() + Send + Sync + 'static,
        requires
            old(self).wf(),
        ensures
            r is Ok,
            final(self).wf(),
            final(self)@ == with_item(old(self)@, label@, cb),
    {
        self.0.add_menu_item(label, cb)
    }

    /// The backend, for what the façade does not offer: delivering
    /// activations, and reading what the native toolkit is to show.
    pub fn inner_mut(&mut self) -> (r: &mut TrayItemImpl<C>)
        ensures
            r@ == old(self)@,
            r.wf() == old(self).wf(),
            final(self)@ == final(r)@,
            final(self).wf() == final(r).wf(),
    {
        &mut self.0
    }
}

} // verus!
