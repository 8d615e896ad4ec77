//! What holds of every window, whatever happened to it.

use vstd::prelude::*;
use crate::data::{Window, WindowData};
use crate::geometry;
use crate::render::RenderDescription;
use crate::tab_view;
use crate::tab_view::TabState;
use crate::state::{at, ActiveRelated, WindowState};
use crate::window_view::Msg;

verus! {

/// Handing out the sizes changes nothing that the sizes are computed from:
/// a window stays well formed, and handing them out a second time changes
/// nothing at all.
pub proof fn allocation_settles(window: WindowState)
    ensures
        window.wf() ==> window.allocate().wf(),
        window.allocate().allocated(),
{
    let once = window.allocate();
    assert(once.allocate().one_one_tabs =~= once.one_one_tabs);
    assert(once.allocate().has_many_tabs =~= once.has_many_tabs);
    assert(once.allocate().indirect_tabs =~= once.indirect_tabs);
}

/// A window stays well formed through every message that it accepts.
pub proof fn step_keeps_well_formed(window: WindowState, msg: Msg)
    requires
        window.wf(),
        window.accepts(msg),
    ensures
        window.step(msg).wf(),
{
}

/// Selecting a tab takes no size from any child.
pub proof fn selection_keeps_allocation(window: WindowState, active: ActiveRelated)
    requires
        window.allocated(),
    ensures
        window.activate(active).allocated(),
{
    let after = window.activate(active);
    let related_tabs_size = window.related_tabs_size();
    assert forall|i: int| 0 <= i < window.has_many_tabs.len() implies (
    #[trigger] window.has_many_tabs[i]).size == related_tabs_size by {
        assert(window.allocate().has_many_tabs[i] == window.has_many_tabs[i]);
    }
    assert forall|i: int| 0 <= i < window.indirect_tabs.len() implies (
    #[trigger] window.indirect_tabs[i]).1.size == related_tabs_size by {
        assert(window.allocate().indirect_tabs[i] == window.indirect_tabs[i]);
    }
    assert(after.allocate().one_one_tabs =~= after.one_one_tabs);
    assert(after.allocate().has_many_tabs =~= after.has_many_tabs);
    assert(after.allocate().indirect_tabs =~= after.indirect_tabs);
}

/// Selecting the first related tab decides the visibility of every related
/// tab, whatever it was before.
pub proof fn first_selection_settles_visibility(window: WindowState)
    ensures
        window.rederive_visibility().allocate().activate_first_related_tab()
            == window.allocate().activate_first_related_tab(),
{
    let hidden = window.rederive_visibility().allocate().activate_first_related_tab();
    let plain = window.allocate().activate_first_related_tab();
    assert(hidden.one_one_tabs =~= plain.one_one_tabs);
    assert(hidden.has_many_tabs =~= plain.has_many_tabs);
    assert(hidden.indirect_tabs =~= plain.indirect_tabs);
}

/// A new window is well formed and every child of it holds its size.
pub proof fn new_window_is_well_formed(
    window: Window,
    data: WindowData,
    browser_width: int,
    browser_height: int,
)
    requires
        geometry::viewport_in_range(browser_width, browser_height),
    ensures
        WindowState::initial(window, data, browser_width, browser_height).wf(),
        WindowState::initial(window, data, browser_width, browser_height).allocated(),
{
    let filled = WindowState::described(window, browser_width, browser_height).ingest(data);
    allocation_settles(filled);
    let sized = filled.allocate();
    if sized.has_many_tabs.len() > 0 {
        selection_keeps_allocation(sized, ActiveRelated::HasMany(0));
    } else if sized.indirect_tabs.len() > 0 {
        selection_keeps_allocation(sized, ActiveRelated::Indirect(0));
    }
}

/// Every message of `msgs` is accepted by the window as the messages before
/// it have left it.
pub open spec fn accepts_all(window: WindowState, msgs: Seq<Msg>) -> bool
    decreases msgs.len(),
{
    msgs.len() > 0 ==> window.accepts(msgs[0]) && accepts_all(
        window.step(msgs[0]),
        msgs.drop_first(),
    )
}

/// The window after all of `msgs`, taken in order.
pub open spec fn run(window: WindowState, msgs: Seq<Msg>) -> WindowState
    decreases msgs.len(),
{
    if msgs.len() > 0 {
        run(window.step(msgs[0]), msgs.drop_first())
    } else {
        window
    }
}

/// Whatever messages a window has taken, and so after any sequence of
/// selections: it has as many tabs as before; a has-many tab and an
/// indirect tab are never selected together; none is selected only where
/// the window has neither kind of tab; and a has-many or indirect tab is
/// marked visible exactly when it is the selected one.
pub proof fn selection_is_exclusive(window: WindowState, msgs: Seq<Msg>)
    requires
        window.wf(),
        accepts_all(window, msgs),
    ensures
        run(window, msgs).wf(),
        run(window, msgs).has_many_tabs.len() == window.has_many_tabs.len(),
        run(window, msgs).indirect_tabs.len() == window.indirect_tabs.len(),
        !(run(window, msgs).active_has_many_tab() is Some && run(
            window,
            msgs,
        ).active_indirect_tab() is Some),
        run(window, msgs).active_has_many_tab() is None && run(
            window,
            msgs,
        ).active_indirect_tab() is None ==> window.has_many_tabs.len() == 0
            && window.indirect_tabs.len() == 0,
        forall|i: int|
            0 <= i < window.has_many_tabs.len() ==> ((#[trigger] run(
                window,
                msgs,
            ).has_many_tabs[i]).is_visible <==> at(run(window, msgs).active_has_many_tab(), i)),
        forall|i: int|
            0 <= i < window.indirect_tabs.len() ==> ((#[trigger] run(
                window,
                msgs,
            ).indirect_tabs[i]).1.is_visible <==> at(run(window, msgs).active_indirect_tab(), i)),
    decreases msgs.len(),
{
    if msgs.len() > 0 {
        step_keeps_well_formed(window, msgs[0]);
        selection_is_exclusive(window.step(msgs[0]), msgs.drop_first());
    }
}

/// Only a selection changes the selection: any other message, closing the
/// detail view among them, leaves the selected tab selected and every
/// related tab as visible as it was.
pub proof fn only_selections_change_the_selection(window: WindowState, msg: Msg)
    requires
        window.accepts(msg),
        !(msg is ShowHasManyTab),
        !(msg is ShowIndirectTab),
    ensures
        window.step(msg).active == window.active,
        window.step(msg).has_many_tabs.len() == window.has_many_tabs.len(),
        window.step(msg).indirect_tabs.len() == window.indirect_tabs.len(),
        forall|i: int|
            0 <= i < window.has_many_tabs.len() ==> (#[trigger] window.step(
                msg,
            ).has_many_tabs[i]).is_visible == window.has_many_tabs[i].is_visible,
        forall|i: int|
            0 <= i < window.indirect_tabs.len() ==> (#[trigger] window.step(
                msg,
            ).indirect_tabs[i]).1.is_visible == window.indirect_tabs[i].1.is_visible,
{
}

/// Sizes never go stale through a message: one that can change what a
/// size is computed from (of the main tab, of the toolbar, a resize, closing
/// the detail view) leaves every child with its size, and any other leaves
/// the sizes in order if they were.
pub proof fn sizes_follow_every_message(window: WindowState, msg: Msg)
    requires
        window.accepts(msg),
    ensures
        msg is MainTabMsg || msg is BrowserResized || msg is ToolbarMsg || msg is CloseDetailView
            ==> window.step(msg).allocated(),
        window.allocated() ==> window.step(msg).allocated(),
{
    match msg {
        Msg::MainTabMsg(tab_msg) => {
            allocation_settles(WindowState { main_tab: window.main_tab.step(tab_msg), ..window });
        },
        Msg::BrowserResized(width, height) => {
            allocation_settles(
                WindowState {
                    browser_width: width as int,
                    browser_height: height as int,
                    ..window
                },
            );
        },
        Msg::ToolbarMsg(toolbar_msg) => {
            allocation_settles(WindowState { toolbar: window.toolbar.step(toolbar_msg), ..window });
        },
        Msg::CloseDetailView => {
            allocation_settles(
                WindowState {
                    main_tab: TabState { detail: None, ..window.main_tab },
                    ..window
                },
            );
        },
        Msg::ShowHasManyTab(index) => {
            if window.allocated() {
                selection_keeps_allocation(window, ActiveRelated::HasMany(index));
            }
        },
        Msg::ShowIndirectTab(index) => {
            if window.allocated() {
                selection_keeps_allocation(window, ActiveRelated::Indirect(index));
            }
        },
        Msg::OneOneTabMsg(index, tab_msg) => {
            if window.allocated() {
                let after = window.step(msg);
                assert forall|i: int| 0 <= i < window.one_one_tabs.len() implies (
                #[trigger] window.one_one_tabs[i]).size == window.main_table_size() by {
                    assert(window.allocate().one_one_tabs[i] == window.one_one_tabs[i]);
                }
                assert(after.allocate().one_one_tabs =~= after.one_one_tabs);
                assert(after.allocate().has_many_tabs =~= window.allocate().has_many_tabs);
                assert(after.allocate().indirect_tabs =~= window.allocate().indirect_tabs);
            }
        },
        Msg::HasManyTabMsg(index, tab_msg) => {
            if window.allocated() {
                let after = window.step(msg);
                assert forall|i: int| 0 <= i < window.has_many_tabs.len() implies (
                #[trigger] window.has_many_tabs[i]).size == window.related_tabs_size() by {
                    assert(window.allocate().has_many_tabs[i] == window.has_many_tabs[i]);
                }
                assert(after.allocate().has_many_tabs =~= after.has_many_tabs);
                assert(after.allocate().one_one_tabs =~= window.allocate().one_one_tabs);
                assert(after.allocate().indirect_tabs =~= window.allocate().indirect_tabs);
            }
        },
        Msg::IndirectTabMsg(index, linked_msg) => {
            if window.allocated() {
                let after = window.step(msg);
                assert forall|i: int| 0 <= i < window.indirect_tabs.len() implies (
                #[trigger] window.indirect_tabs[i]).1.size == window.related_tabs_size() by {
                    assert(window.allocate().indirect_tabs[i] == window.indirect_tabs[i]);
                }
                assert(after.allocate().indirect_tabs =~= after.indirect_tabs);
                assert(after.allocate().one_one_tabs =~= window.allocate().one_one_tabs);
                assert(after.allocate().has_many_tabs =~= window.allocate().has_many_tabs);
            }
        },
    }
}

/// Resizing twice to the same viewport is resizing once: the second time
/// changes nothing, so every size derived is the same both times.
pub proof fn resize_is_idempotent(window: WindowState, width: i32, height: i32)
    ensures
        window.step(Msg::BrowserResized(width, height)).step(Msg::BrowserResized(width, height))
            == window.step(Msg::BrowserResized(width, height)),
        window.step(Msg::BrowserResized(width, height)).window_size() == geometry::window_size(
            width as int,
            height as int,
        ),
        window.step(Msg::BrowserResized(width, height)).allocated(),
{
    let resized = WindowState {
        browser_width: width as int,
        browser_height: height as int,
        ..window
    };
    allocation_settles(resized);
    let once = resized.allocate();
    let again = WindowState {
        browser_width: width as int,
        browser_height: height as int,
        ..once
    };
    assert(again == once);
}

/// New rows take the place of the old ones together with the frozen data
/// that was set for the old ones: a tab into which rows, frozen data and
/// then other rows were put holds the other rows alone.
pub proof fn rows_replace_frozen_data(
    tab: TabState,
    first: Seq<Seq<Seq<Seq<char>>>>,
    frozen_data: Seq<Seq<Seq<char>>>,
    second: Seq<Seq<Seq<Seq<char>>>>,
    current_page: usize,
    total_rows: usize,
)
    ensures
        tab.with_pages(first, current_page, total_rows).with_frozen_data(frozen_data).with_pages(
            second,
            current_page,
            total_rows,
        ) == tab.with_pages(second, current_page, total_rows),
        tab.with_pages(second, current_page, total_rows).frozen_data == Seq::<
            Seq<Seq<char>>,
        >::empty(),
{
}

/// A payload replaces whatever an earlier payload had put into the window:
/// filling a window twice leaves it as filling it with the second payload
/// alone would.
pub proof fn refill_replaces(window: WindowState, first: WindowData, second: WindowData)
    ensures
        window.ingest(first).ingest(second) == window.ingest(second),
        window.ingest(second).main_tab.pages == second.main_tab_data.deep_view(),
        window.ingest(second).main_tab.frozen_data == second.main_tab_frozen_data.deep_view(),
{
    let once = window.ingest(first);
    assert(once.ingest(second).one_one_tabs =~= window.ingest(second).one_one_tabs);
    assert(once.ingest(second).has_many_tabs =~= window.ingest(second).has_many_tabs);
    assert(once.ingest(second).indirect_tabs =~= window.ingest(second).indirect_tabs);
}

/// Whatever a drawing of a window can send back, the window takes: the
/// message behind each link and behind the button that closes the detail
/// view, and every message of a tab wrapped by the place of that tab.
pub proof fn described_messages_are_accepted(
    window: WindowState,
    description: RenderDescription,
    tab_msg: tab_view::Msg,
)
    requires
        window.renders_as(description),
    ensures
        window.accepts(description.on_close_detail),
        window.accepts(description.main_tab.wrapped(tab_msg)),
        forall|i: int|
            0 <= i < description.has_many_links.len() ==> window.accepts(
                (#[trigger] description.has_many_links[i]).on_click,
            ),
        forall|i: int|
            0 <= i < description.indirect_links.len() ==> window.accepts(
                (#[trigger] description.indirect_links[i]).on_click,
            ),
        forall|i: int|
            0 <= i < description.one_one_tabs.len() ==> window.accepts(
                (#[trigger] description.one_one_tabs[i]).content.wrapped(tab_msg),
            ),
        forall|i: int|
            0 <= i < description.has_many_tabs.len() ==> window.accepts(
                (#[trigger] description.has_many_tabs[i]).wrapped(tab_msg),
            ),
        forall|i: int|
            0 <= i < description.indirect_tabs.len() ==> window.accepts(
                (#[trigger] description.indirect_tabs[i]).wrapped(tab_msg),
            ),
{
}

/// The key under which a window is drawn tells windows apart: two windows
/// are drawn under the same key only if they bear the same name.
pub proof fn keys_tell_windows_apart(
    first: WindowState,
    second: WindowState,
    first_description: RenderDescription,
    second_description: RenderDescription,
)
    requires
        first.renders_as(first_description),
        second.renders_as(second_description),
        first_description.key@ == second_description.key@,
    ensures
        first.name == second.name,
{
    let prefix = "window_"@;
    let key = first_description.key@;
    assert(first.name =~= key.subrange(prefix.len() as int, key.len() as int));
    assert(second.name =~= key.subrange(prefix.len() as int, key.len() as int));
}

} // verus!
