//! What holds of the drop zone and the drop session state over any inputs
//! and any run of steps.

use crate::drag_drop::{
    accepts_result, after_begin_load, after_enter, after_exit, after_record, after_set_active,
    after_take, arrived, collect_texts, completes_load, drop_operation_value, file_item_indices,
    generation_after, initial_session_model, loaded_at, loaded_path_of, loaded_paths,
    local_path_of, offers_file, session_local_paths, text_of, DragItem, DropSession,
    DropSessionModel, UIDropOperation,
};
use crate::drop_zone::{
    accent_color, file_label_of, file_name_of, idle_zone, status_color, zone_after_event,
    zone_after_events, zone_fill, zone_status, ColorRole, DropZoneModel, Fill, StatusText,
};
use crate::external_paths::texts;
use crate::file_drop::FileDropEvent;
use crate::geometry::{Pixels, Point};
use vstd::prelude::*;

verus! {

/// Files once dropped on a zone stay: the files before any run of events
/// begin the list after it.
pub proof fn lemma_dropped_files_only_grow(m: DropZoneModel, events: Seq<FileDropEvent>)
    ensures
        m.dropped_files.len() <= zone_after_events(m, events).dropped_files.len(),
        zone_after_events(m, events).dropped_files.subrange(0, m.dropped_files.len() as int)
            == m.dropped_files,
    decreases events.len(),
{
    if events.len() > 0 {
        lemma_dropped_files_only_grow(m, events.drop_last());
        let before = zone_after_events(m, events.drop_last()).dropped_files;
        let after = zone_after_events(m, events).dropped_files;
        assert(after.subrange(0, before.len() as int) == before);
        assert(after.subrange(0, m.dropped_files.len() as int) =~= before.subrange(
            0,
            m.dropped_files.len() as int,
        ));
    }
}

/// Moves of a drag keep the paths it carries.
proof fn lemma_moves_keep_drag_paths(m: DropZoneModel, moves: Seq<FileDropEvent>)
    requires
        forall|i: int| 0 <= i < moves.len() ==> #[trigger] moves[i] is Pending,
    ensures
        zone_after_events(m, moves).drag_paths == m.drag_paths,
        zone_after_events(m, moves).dropped_files == m.dropped_files,
    decreases moves.len(),
{
    if moves.len() > 0 {
        assert(moves.last() is Pending);
        lemma_moves_keep_drag_paths(m, moves.drop_last());
    }
}

/// The events after the first `k` of `events`, applied to the zone that the
/// first `k` leave, give the zone that all of them leave.
proof fn lemma_events_split(m: DropZoneModel, events: Seq<FileDropEvent>, k: int)
    requires
        0 <= k <= events.len(),
    ensures
        zone_after_events(zone_after_events(m, events.take(k)), events.skip(k))
            == zone_after_events(m, events),
    decreases events.len(),
{
    if k < events.len() {
        lemma_events_split(m, events.drop_last(), k);
        assert(events.drop_last().take(k) =~= events.take(k));
        assert(events.skip(k).drop_last() =~= events.drop_last().skip(k));
        assert(events.skip(k).last() == events.last());
    } else {
        assert(events.take(k) =~= events);
        assert(events.skip(k) =~= Seq::<FileDropEvent>::empty());
    }
}

/// A drop records the files that its drag carried on entry: after a drag
/// enters with `paths`, moves any number of times and is dropped, the
/// zone's files are the earlier files followed by `paths`, in order.
pub proof fn lemma_drop_records_entered_paths(
    m: DropZoneModel,
    entered: FileDropEvent,
    moves: Seq<FileDropEvent>,
    drop: FileDropEvent,
)
    requires
        entered is Entered,
        forall|i: int| 0 <= i < moves.len() ==> #[trigger] moves[i] is Pending,
        drop is Submit,
    ensures
        (entered matches FileDropEvent::Entered { paths, .. } && zone_after_events(
            m,
            seq![entered] + moves + seq![drop],
        ).dropped_files == m.dropped_files + texts(paths@)),
{
    let events = seq![entered] + moves + seq![drop];
    let after_entry = zone_after_event(m, entered);
    assert(events.take(1) =~= seq![entered]);
    assert(seq![entered].drop_last() =~= Seq::<FileDropEvent>::empty());
    assert(zone_after_events(m, events.take(1)) == after_entry) by {
        reveal_with_fuel(zone_after_events, 2);
    }
    lemma_events_split(m, events, 1);
    let rest = events.skip(1);
    assert(rest.drop_last() =~= moves);
    lemma_moves_keep_drag_paths(after_entry, moves);
}

/// Whatever happened before, a zone whose last event was a drag leaving it
/// is back to having no drag over it, no position and no carried paths,
/// with its files as they were.
pub proof fn lemma_exit_returns_zone_to_idle(m: DropZoneModel, events: Seq<FileDropEvent>)
    requires
        events.len() > 0,
        events.last() is Exited,
    ensures
        zone_after_events(m, events) == idle_zone(
            zone_after_events(m, events.drop_last()).dropped_files,
        ),
{
}

/// Every event but a drag leaving leaves the zone with a position, the one
/// the event carries; a drag that enters marks the zone as dragged over,
/// and moving or dropping does not change whether it is.
pub proof fn lemma_event_position(m: DropZoneModel, event: FileDropEvent)
    ensures
        match event {
            FileDropEvent::Entered { position, .. } => zone_after_event(m, event).drag_position
                == Some(position) && zone_after_event(m, event).is_drag_over,
            FileDropEvent::Pending { position } => zone_after_event(m, event).drag_position
                == Some(position) && zone_after_event(m, event).is_drag_over == m.is_drag_over,
            FileDropEvent::Submit { position } => zone_after_event(m, event).drag_position
                == Some(position) && zone_after_event(m, event).is_drag_over == m.is_drag_over,
            FileDropEvent::Exited => zone_after_event(m, event).drag_position is None
                && !zone_after_event(m, event).is_drag_over,
        },
{
}

/// A zone is dragged over exactly when it has a position.
pub open spec fn position_follows_drag(m: DropZoneModel) -> bool {
    m.is_drag_over == (m.drag_position is Some)
}

/// `events` come in the order the drop delegate sends them: a move or a
/// drop only while a drag is over the zone.
pub open spec fn in_delegate_order(m: DropZoneModel, events: Seq<FileDropEvent>) -> bool {
    forall|i: int|
        0 <= i < events.len() && (events[i] is Pending || events[i] is Submit)
            ==> #[trigger] zone_after_events(m, events.take(i)).is_drag_over
}

/// Under the delegate's order of events, a zone that starts dragged over
/// exactly when it has a position stays so after every event.
pub proof fn lemma_delegate_order_keeps_position(m: DropZoneModel, events: Seq<FileDropEvent>)
    requires
        position_follows_drag(m),
        in_delegate_order(m, events),
    ensures
        position_follows_drag(zone_after_events(m, events)),
    decreases events.len(),
{
    if events.len() > 0 {
        let n = events.len() - 1;
        assert forall|i: int|
            0 <= i < events.drop_last().len() && (events.drop_last()[i] is Pending
                || events.drop_last()[i] is Submit) implies #[trigger] zone_after_events(
            m,
            events.drop_last().take(i),
        ).is_drag_over by {
            assert(events.drop_last().take(i) =~= events.take(i));
            assert(events[i] == events.drop_last()[i]);
            assert(zone_after_events(m, events.take(i)).is_drag_over);
        }
        lemma_delegate_order_keeps_position(m, events.drop_last());
        assert(events.take(n) =~= events.drop_last());
        if events[n] is Pending || events[n] is Submit {
            assert(zone_after_events(m, events.take(n)).is_drag_over);
        }
    }
}

/// A zone is drawn highlighted (teal border, marker and status, translucent
/// teal fill) exactly while a drag is over it, and its status line names a
/// position exactly when a drag is over it at a known position.
pub proof fn lemma_highlight_follows_drag(m: DropZoneModel)
    ensures
        (accent_color(m) == ColorRole::Teal) == m.is_drag_over,
        (zone_fill(m) == Fill::DragHighlight) == m.is_drag_over,
        (status_color(m) == ColorRole::Teal) == m.is_drag_over,
        (zone_status(m) is Prompt) == !m.is_drag_over,
        (zone_status(m) is DraggingAt) == (m.is_drag_over && m.drag_position is Some),
{
}

/// The status line names exactly the zone's drag position while a drag is
/// over it, says it is dragging at no known position where it has none,
/// and prompts where no drag is over it.
pub proof fn lemma_status_names_drag_position(m: DropZoneModel)
    ensures
        m.is_drag_over && m.drag_position is Some ==> zone_status(m) == StatusText::DraggingAt(
            m.drag_position->0,
        ),
        forall|p: Point<Pixels>|
            m.is_drag_over && m.drag_position == Some(p) ==> (#[trigger] zone_status(m)
                matches StatusText::DraggingAt(q) && q.x == p.x && q.y == p.y),
        m.is_drag_over && m.drag_position is None ==> zone_status(m) == StatusText::Dragging,
        !m.is_drag_over ==> zone_status(m) == StatusText::Prompt,
{
}

/// A file is labelled by its file name, whatever characters that name
/// holds; the whole path is the label only where the path has no file
/// name.
pub proof fn lemma_label_is_file_name(path: Seq<char>)
    ensures
        forall|n: Seq<char>| file_name_of(path) == Some(n) ==> #[trigger] file_label_of(path) == n,
        file_name_of(path) is None ==> file_label_of(path) == path,
{
}

/// Each operation has its own UIKit value.
pub proof fn lemma_drop_operation_values_distinct(a: UIDropOperation, b: UIDropOperation)
    ensures
        drop_operation_value(a) == drop_operation_value(b) ==> a == b,
{
}

/// Marking the session active or inactive is what a later check reads.
pub proof fn lemma_active_reads_last_write(m: DropSessionModel, active: bool)
    ensures
        after_set_active(m, active).is_active == active,
        after_set_active(m, active).pending_paths == m.pending_paths,
{
}

/// Pending paths are handed out once: a second take finds none.
pub proof fn lemma_take_twice(m: DropSessionModel)
    ensures
        after_take(after_take(m)).pending_paths is None,
        after_take(m).is_active == m.is_active,
{
}

/// A result that the state does not await (of an earlier loading, or for
/// an item already in or without a file) changes nothing.
pub proof fn lemma_unawaited_results_ignored(m: DropSessionModel, generation: u64, index: int, loaded: Option<Vec<u8>>)
    requires
        !accepts_result(m.load, generation, index),
    ensures
        after_record(m, generation, index, loaded) == m,
{
}

/// A loading that begins awaits exactly the items that offer a file, under
/// a generation that the next loading does not reuse; results of the
/// loading it replaces are then ignored.
pub proof fn lemma_new_loading_awaits_file_items(m: DropSessionModel, session: DropSession, generation: u64, index: int)
    requires
        session_state_wf(m),
        session.items is Some,
        m.load matches Some(l) && l.generation == generation,
    ensures
        after_begin_load(m, session).load matches Some(l) ==> {
            &&& l.generation != after_begin_load(m, session).next_generation
            &&& forall|i: int|
                0 <= i < l.items.len() ==> (#[trigger] l.results[i] is None) == offers_file(l.items[i])
        },
        !accepts_result(after_begin_load(m, session).load, generation, index),
{
}

/// Once a loading of a session with items begins, no pending paths are
/// left: nothing from an earlier session is taken while the new one loads.
/// A drag that enters with items likewise leaves none.
pub proof fn lemma_begin_load_clears_pending(m: DropSessionModel, session: DropSession)
    requires
        session.items is Some,
    ensures
        after_begin_load(m, session).pending_paths is None,
        after_enter(m, session).pending_paths is None,
        take_gives_nothing(after_begin_load(m, session)),
{
}

/// Whether taking the pending paths of `m` gives none.
pub open spec fn take_gives_nothing(m: DropSessionModel) -> bool {
    m.pending_paths is None
}

/// Where item `k`'s load gives it a path, that path is among the paths the
/// items contribute.
proof fn lemma_loaded_path_included(items: Seq<DragItem>, loaded: Seq<Option<Vec<u8>>>, k: int, t: Seq<char>)
    requires
        0 <= k < items.len(),
        loaded_path_of(items[k], loaded_at(loaded, k)) == Some(t),
    ensures
        loaded_paths(items, loaded).contains(t),
    decreases items.len(),
{
    let rest = loaded_paths(items.drop_last(), loaded);
    if k == items.len() - 1 {
        assert(loaded_paths(items, loaded) == rest.push(t));
        assert(loaded_paths(items, loaded)[rest.len() as int] == t);
    } else {
        assert(items.drop_last()[k] == items[k]);
        lemma_loaded_path_included(items.drop_last(), loaded, k, t);
        let j = choose|j: int| 0 <= j < rest.len() && rest[j] == t;
        match loaded_path_of(items.last(), loaded_at(loaded, items.len() - 1)) {
            Some(u) => {
                assert(loaded_paths(items, loaded) == rest.push(u));
                assert(loaded_paths(items, loaded)[j] == t);
            },
            None => {},
        }
    }
}

/// The result that completes a loading counts as any other: where it is a
/// valid, non-empty path, that path is among the stored pending paths.
pub proof fn lemma_last_result_is_stored(
    m: DropSessionModel,
    generation: u64,
    index: int,
    loaded: Option<Vec<u8>>,
    t: Seq<char>,
)
    requires
        session_state_wf(m),
        completes_load(m.load, generation, index, loaded),
        loaded matches Some(bytes) && text_of(bytes@) == Some(t),
        t.len() > 0,
    ensures
        after_record(m, generation, index, loaded).pending_paths matches Some(p) && p.contains(t),
{
    let l = m.load->0;
    let results = l.results.update(index, Some(loaded));
    assert(offers_file(l.items[index]));
    assert(arrived(results)[index] == loaded);
    assert(loaded_at(arrived(results), index) == loaded);
    assert(loaded_path_of(l.items[index], loaded) == Some(t));
    lemma_loaded_path_included(l.items, arrived(results), index, t);
}

/// Results of one loading may arrive in any order: taking in two results
/// for different items in either order leaves the same state.
pub proof fn lemma_results_commute(
    m: DropSessionModel,
    generation: u64,
    i: int,
    a: Option<Vec<u8>>,
    j: int,
    b: Option<Vec<u8>>,
)
    requires
        i != j,
    ensures
        after_record(after_record(m, generation, i, a), generation, j, b) == after_record(
            after_record(m, generation, j, b),
            generation,
            i,
            a,
        ),
{
    if accepts_result(m.load, generation, i) && accepts_result(m.load, generation, j) {
        let l = m.load->0;
        let ri = l.results.update(i, Some(a));
        let rj = l.results.update(j, Some(b));
        let rij = ri.update(j, Some(b));
        let rji = rj.update(i, Some(a));
        assert(rij =~= rji);
        assert(ri[j] is None);
        assert(rj[i] is None);
    }
}

/// At most one path per item that offers a file: each contributes its
/// loaded path, or else its suggested name, or nothing where it has none.
pub proof fn lemma_at_most_one_path_per_file_item(items: Seq<DragItem>, loaded: Seq<Option<Vec<u8>>>)
    ensures
        loaded_paths(items, loaded).len() <= file_item_indices(items).len(),
    decreases items.len(),
{
    if items.len() > 0 {
        lemma_at_most_one_path_per_file_item(items.drop_last(), loaded);
    }
}

/// The load requests for `items` are the items that offer a file, each
/// once, in increasing order. (Every index fits in a `usize`, as it does
/// for the items of a `Vec`.)
pub proof fn lemma_requests_are_file_items(items: Seq<DragItem>)
    requires
        items.len() <= usize::MAX,
    ensures
        forall|k: int|
            0 <= k < file_item_indices(items).len() ==> {
                let i = #[trigger] file_item_indices(items)[k] as int;
                0 <= i < items.len() && offers_file(items[i])
            },
        forall|k: int, l: int|
            0 <= k < l < file_item_indices(items).len() ==> #[trigger] file_item_indices(items)[k]
                < #[trigger] file_item_indices(items)[l],
        forall|i: int|
            0 <= i < items.len() && offers_file(#[trigger] items[i]) ==> file_item_indices(
                items,
            ).contains(i as usize),
    decreases items.len(),
{
    if items.len() > 0 {
        let front = items.drop_last();
        lemma_requests_are_file_items(front);
        let rest = file_item_indices(front);
        let all = file_item_indices(items);
        let last = (items.len() - 1) as usize;
        if offers_file(items.last()) {
            assert(all == rest.push(last));
        } else {
            assert(all == rest);
        }
        assert forall|k: int| 0 <= k < all.len() implies {
            let i = #[trigger] all[k] as int;
            0 <= i < items.len() && offers_file(items[i])
        } by {
            if k < rest.len() {
                assert(all[k] == rest[k]);
                assert(items[rest[k] as int] == front[rest[k] as int]);
            } else {
                assert(all[k] == last);
            }
        }
        assert forall|k: int, l: int| 0 <= k < l < all.len() implies #[trigger] all[k] < #[trigger] all[l] by {
            assert(all[k] == rest[k]);
            let rk = rest[k] as int;
            assert(0 <= rk < front.len());
            if l < rest.len() {
                assert(all[l] == rest[l]);
            }
        }
        assert forall|i: int| 0 <= i < items.len() && offers_file(#[trigger] items[i]) implies all.contains(i as usize) by {
            if i < items.len() - 1 {
                assert(items[i] == front[i]);
                let k = choose|k: int| 0 <= k < rest.len() && rest[k] == i as usize;
                assert(all[k] == rest[k]);
            } else {
                assert(items.last() == items[i]);
                assert(all == rest.push(i as usize));
                assert(all[all.len() - 1] == i as usize);
            }
        }
    }
}

/// A whole drop (the drag enters, moves, is dropped and ends) leaves the
/// session inactive, with the loading it began still under way.
pub proof fn lemma_drop_ends_inactive(m: DropSessionModel, session: DropSession)
    ensures
        after_exit(after_enter(m, session)) == (DropSessionModel {
            is_active: false,
            ..after_begin_load(m, session)
        }),
{
}

/// Ending a drag twice is the same as ending it once.
pub proof fn lemma_exit_idempotent(m: DropSessionModel)
    ensures
        after_exit(after_exit(m)) == after_exit(m),
{
}

/// A state whose pending paths, where there are any, are at least one
/// path, and whose loading, where there is one, has a result slot per item,
/// awaits only items that offer a file, and has a generation other than the
/// next.
pub open spec fn session_state_wf(m: DropSessionModel) -> bool {
    &&& (m.pending_paths matches Some(p) ==> p.len() > 0)
    &&& (m.load matches Some(l) ==> {
        &&& l.generation != m.next_generation
        &&& l.results.len() == l.items.len()
        &&& forall|i: int| 0 <= i < l.results.len() && #[trigger] l.results[i] is None ==> offers_file(l.items[i])
    })
}

/// Every step keeps the state well formed; in particular, no step ever
/// stores an empty list of pending paths.
pub proof fn lemma_steps_keep_session_wf(
    m: DropSessionModel,
    session: DropSession,
    active: bool,
    generation: u64,
    index: int,
    loaded: Option<Vec<u8>>,
)
    requires
        session_state_wf(m),
    ensures
        session_state_wf(initial_session_model()),
        session_state_wf(after_take(m)),
        session_state_wf(after_set_active(m, active)),
        session_state_wf(after_begin_load(m, session)),
        session_state_wf(after_enter(m, session)),
        session_state_wf(after_exit(m)),
        session_state_wf(after_record(m, generation, index, loaded)),
{
    assert(generation_after(m.next_generation) != m.next_generation);
}

/// The values that `f` gives, in order, leaving out `None`, are values that
/// `f` gives for some item.
proof fn lemma_collected_from_items(
    items: Seq<DragItem>,
    f: spec_fn(DragItem) -> Option<Seq<char>>,
    i: int,
)
    requires
        0 <= i < collect_texts(items, f).len(),
    ensures
        exists|j: int| 0 <= j < items.len() && f(items[j]) == Some(#[trigger] collect_texts(items, f)[i]),
    decreases items.len(),
{
    let rest = collect_texts(items.drop_last(), f);
    if i < rest.len() {
        lemma_collected_from_items(items.drop_last(), f, i);
        let j = choose|j: int| 0 <= j < items.drop_last().len() && f(items.drop_last()[j]) == Some(rest[i]);
        assert(items[j] == items.drop_last()[j]);
    } else {
        assert(f(items[items.len() - 1]) == Some(collect_texts(items, f)[i]));
    }
}

/// Every path taken from a session's local objects is non-empty, and is
/// the local path of one of the session's items.
pub proof fn lemma_local_paths_from_items(session: DropSession, i: int)
    requires
        0 <= i < session_local_paths(session).len(),
    ensures
        session_local_paths(session)[i].len() > 0,
        session.items matches Some(items) && exists|j: int|
            0 <= j < items@.len() && local_path_of(#[trigger] items@[j]) == Some(session_local_paths(session)[i]),
        session.items matches Some(items) && exists|j: int|
            0 <= j < items@.len() && offers_file(#[trigger] items@[j]) && (items@[j].local_path matches Some(bytes)
                && text_of(bytes@) == Some(session_local_paths(session)[i])),
{
    let items = session.items.unwrap();
    let f = |item: DragItem| local_path_of(item);
    lemma_collected_from_items(items@, f, i);
    let j = choose|j: int| 0 <= j < items@.len() && f(items@[j]) == Some(collect_texts(items@, f)[i]);
    assert(local_path_of(items@[j]) == Some(session_local_paths(session)[i]));
    assert(offers_file(items@[j]));
}

} // verus!
