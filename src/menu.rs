use vstd::prelude::*;

verus! {

/// One line of a tray menu as the contracts see it: its text, and for an
/// interactive entry the callback that an activation runs.
pub enum EntryView<C> {
    Label { text: Seq<char> },
    Action { text: Seq<char>, cb: C },
}

impl<C> EntryView<C> {
    pub open spec fn text(self) -> Seq<char> {
        match self {
            EntryView::Label { text } => text,
            EntryView::Action { text, .. } => text,
        }
    }

    pub open spec fn is_action(self) -> bool {
        self is Action
    }
}

/// A menu as the contracts see it: the entries in the order they were added,
/// and for each entry how many times its callback has been run.
pub struct MenuView<C> {
    pub entries: Seq<EntryView<C>>,
    pub fired: Seq<nat>,
}

/// The menu with no entries.
pub open spec fn empty_menu<C>() -> MenuView<C> {
    MenuView { entries: Seq::empty(), fired: Seq::empty() }
}

/// The menu after one more entry is appended at its end.
pub open spec fn appended<C>(m: MenuView<C>, e: EntryView<C>) -> MenuView<C> {
    MenuView { entries: m.entries.push(e), fired: m.fired.push(0) }
}

/// The menu after entry `i` has been activated: an interactive entry counts
/// one more run of its callback; a label, or an index past the end, changes
/// nothing.
pub open spec fn activated<C>(m: MenuView<C>, i: int) -> MenuView<C> {
    if 0 <= i < m.entries.len() && m.entries[i].is_action() {
        MenuView { entries: m.entries, fired: m.fired.update(i, m.fired[i] + 1) }
    } else {
        m
    }
}

/// One entry of a menu: a disabled label, or a clickable item with its
/// callback.
pub enum MenuEntry<C> {
    Label(String),
    Action(String, C),
}

impl<C> View for MenuEntry<C> {
    type V = EntryView<C>;

    open spec fn view(&self) -> EntryView<C> {
        match self {
            MenuEntry::Label(text) => EntryView::Label { text: text@ },
            MenuEntry::Action(text, cb) => EntryView::Action { text: text@, cb: *cb },
        }
    }
}

/// What a native menu needs in order to show one entry.
#[derive(Debug, PartialEq, Eq)]
pub struct RenderedItem {
    pub text: String,
    pub enabled: bool,
}

/// An append-only, ordered menu.
pub struct Menu<C> {
    entries: Vec<MenuEntry<C>>,
    /// How many times each entry's callback has run, for the contracts only.
    fired: Ghost<Seq<nat>>,
}

impl<C> View for Menu<C> {
    type V = MenuView<C>;

    closed spec fn view(&self) -> MenuView<C> {
        MenuView { entries: self.entries@.map_values(|e: MenuEntry<C>| e@), fired: self.fired@ }
    }
}

impl<C> Menu<C> {
    /// Every entry has a run count, and there are no others.
    pub closed spec fn wf(&self) -> bool {
        self.fired@.len() == self.entries@.len()
    }

    pub fn new() -> (r: Self)
        ensures
            r.wf(),
            r@ == empty_menu::<C>(),
    {
        let r = Menu { entries: Vec::new(), fired: Ghost(Seq::empty()) };
        assert(r@.entries =~= Seq::<EntryView<C>>::empty());
        r
    }

    pub fn len(&self) -> (r: usize)
        requires
            self.wf(),
        ensures
            r == self@.entries.len(),
            r == self@.fired.len(),
    {
        self.entries.len()
    }

    fn push(&mut self, e: MenuEntry<C>)
        requires
            old(self).wf(),
        ensures
            final(self).wf(),
            final(self)@ == appended(old(self)@, e@),
    {
        self.entries.push(e);
        self.fired = Ghost(self.fired@.push(0));
        assert(self@.entries =~= old(self)@.entries.push(e@));
    }

    /// Appends a disabled, non-interactive entry.
    pub fn push_label(&mut self, text: String)
        requires
            old(self).wf(),
        ensures
            final(self).wf(),
            final(self)@ == appended(old(self)@, EntryView::<C>::Label { text: text@ }),
    {
        self.push(MenuEntry::Label(text));
    }

    /// Appends a clickable entry that runs `cb` when it is activated.
    pub fn push_action(&mut self, text: String, cb: C)
        requires
            old(self).wf(),
        ensures
            final(self).wf(),
            final(self)@ == appended(old(self)@, EntryView::Action { text: text@, cb }),
    {
        self.push(MenuEntry::Action(text, cb));
    }
    /// The entries as a native menu shows them, in order: a label disabled,
    /// an interactive entry enabled.
    pub fn rendered(&self) -> (r: Vec<RenderedItem>)
        requires
            self.wf(),
        ensures
            r@.len() == self@.entries.len(),
            forall|i: int|
                0 <= i < r@.len() ==> {
                    &&& (#[trigger] r@[i]).text@ == self@.entries[i].text()
                    &&& r@[i].enabled == self@.entries[i].is_action()
                },
    {
        let mut r: Vec<RenderedItem> = Vec::new();
        let mut k: usize = 0;
        while k < self.entries.len()
            invariant
                k <= self.entries@.len(),
                r@.len() == k,
                forall|i: int|
                    0 <= i < k ==> {
                        &&& (#[trigger] r@[i]).text@ == self@.entries[i].text()
                        &&& r@[i].enabled == self@.entries[i].is_action()
                    },
            decreases self.entries@.len() - k,
        {
            let item = match &self.entries[k] {
                MenuEntry::Label(text) => RenderedItem { text: text.clone(), enabled: false },
                MenuEntry::Action(text, _) => RenderedItem { text: text.clone(), enabled: true },
            };
            r.push(item);
            k = k + 1;
        }
        r
    }

    /// Runs the callback of entry `index` once, if that entry is interactive,
    /// and tells whether it did. A label, or an index past the end, runs
    /// nothing.
    pub fn activate(&mut self, index: usize) -> (r: bool)
        where
            C: Fn(),
        requires
            old(self).wf(),
            index < old(self)@.entries.len() ==> match old(self)@.entries[index as int] {
                EntryView::Label { .. } => true,
                EntryView::Action { cb, .. } => cb.requires(()),
            },
        ensures
            final(self).wf(),
            final(self)@ == activated(old(self)@, index as int),
            r == (index < old(self)@.entries.len() && old(self)@.entries[index as int].is_action()),
            r ==> match old(self)@.entries[index as int] {
                EntryView::Label { .. } => false,
                EntryView::Action { cb, .. } => cb.ensures((), ()),
            },
    {
        if index >= self.entries.len() {
            return false;
        }
        let ran = match &self.entries[index] {
            MenuEntry::Label(_) => false,
            MenuEntry::Action(_, cb) => {
                cb();
                true
            },
        };
        if ran {
            self.fired = Ghost(self.fired@.update(index as int, self.fired@[index as int] + 1));
        }
        ran
    }
}

} // verus!
