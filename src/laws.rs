use vstd::prelude::*;

use crate::api::{with_activation, with_icon, with_item, with_label, TrayView};
use crate::menu::EntryView;

verus! {

/// One call that appends to a tray's menu: `add_label` or `add_menu_item`.
pub enum MenuCall<C> {
    Label(Seq<char>),
    Item(Seq<char>, C),
}

/// The entry that a call appends.
pub open spec fn entry_of<C>(c: MenuCall<C>) -> EntryView<C> {
    match c {
        MenuCall::Label(text) => EntryView::Label { text },
        MenuCall::Item(text, cb) => EntryView::Action { text, cb },
    }
}

/// The tray after one call, as the call's own contract gives it.
pub open spec fn after_call<C>(t: TrayView<C>, c: MenuCall<C>) -> TrayView<C> {
    match c {
        MenuCall::Label(text) => with_label(t, text),
        MenuCall::Item(text, cb) => with_item(t, text, cb),
    }
}

/// The tray after the calls, made one after another from the first.
pub open spec fn after_calls<C>(t: TrayView<C>, calls: Seq<MenuCall<C>>) -> TrayView<C>
    decreases calls.len(),
{
    if calls.len() == 0 {
        t
    } else {
        after_call(after_calls(t, calls.drop_last()), calls.last())
    }
}

/// Whatever `add_label` and `add_menu_item` calls are made, the menu ends up
/// as the entries it had, followed by one new entry per call in the order of
/// the calls; each new entry has not run yet, and title and icon stay.
pub proof fn lemma_entries_in_call_order<C>(t: TrayView<C>, calls: Seq<MenuCall<C>>)
    ensures
        after_calls(t, calls).menu.entries == t.menu.entries + calls.map_values(
            |c: MenuCall<C>| entry_of(c),
        ),
        after_calls(t, calls).menu.fired == t.menu.fired + Seq::new(calls.len(), |k: int| 0nat),
        after_calls(t, calls).title == t.title,
        after_calls(t, calls).icon == t.icon,
    decreases calls.len(),
{
    if calls.len() > 0 {
        let init = calls.drop_last();
        lemma_entries_in_call_order(t, init);
        assert(calls.map_values(|c: MenuCall<C>| entry_of(c)) =~= init.map_values(
            |c: MenuCall<C>| entry_of(c),
        ).push(entry_of(calls.last())));
        assert(Seq::new(calls.len(), |k: int| 0nat) =~= Seq::new(init.len(), |k: int| 0nat).push(
            0nat,
        ));
        assert(after_calls(t, calls).menu.entries =~= t.menu.entries + calls.map_values(
            |c: MenuCall<C>| entry_of(c),
        ));
        assert(after_calls(t, calls).menu.fired =~= t.menu.fired + Seq::new(
            calls.len(),
            |k: int| 0nat,
        ));
    }
}

/// Setting the same icon identifier twice leaves the tray as setting it once.
pub proof fn lemma_set_icon_idempotent<C>(t: TrayView<C>, icon: Seq<char>)
    ensures
        with_icon(with_icon(t, icon), icon) == with_icon(t, icon),
{
}

/// Each activation of an interactive entry runs its callback exactly once:
/// two activations count two runs of that entry, and no run of any other.
/// Activating a label runs nothing.
pub proof fn lemma_one_run_per_activation<C>(t: TrayView<C>, i: int)
    requires
        t.menu.fired.len() == t.menu.entries.len(),
        0 <= i < t.menu.entries.len(),
    ensures
        t.menu.entries[i].is_action() ==> {
            &&& with_activation(t, i).menu.fired[i] == t.menu.fired[i] + 1
            &&& with_activation(with_activation(t, i), i).menu.fired[i] == t.menu.fired[i] + 2
        },
        !t.menu.entries[i].is_action() ==> with_activation(t, i) == t,
        with_activation(with_activation(t, i), i).menu.entries == t.menu.entries,
        forall|j: int|
            0 <= j < t.menu.fired.len() && j != i ==> (#[trigger] with_activation(
                with_activation(t, i),
                i,
            ).menu.fired[j]) == t.menu.fired[j],
{
}

/// A callback stays in its entry whatever is appended after it, and an
/// activation of that entry then runs it once.
pub proof fn lemma_callback_outlives_appends<C>(t: TrayView<C>, calls: Seq<MenuCall<C>>, i: int)
    requires
        t.menu.fired.len() == t.menu.entries.len(),
        0 <= i < t.menu.entries.len(),
    ensures
        after_calls(t, calls).menu.entries[i] == t.menu.entries[i],
        t.menu.entries[i].is_action() ==> with_activation(after_calls(t, calls), i).menu.fired[i]
            == t.menu.fired[i] + 1,
{
    lemma_entries_in_call_order(t, calls);
}

} // verus!
