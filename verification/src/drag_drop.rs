//! File drops onto an iOS view through `UIDropInteraction`.
//!
//! The platform layer reads each drop session into a [`DropSession`] and
//! calls the step functions of this module from the
//! `UIDropInteractionDelegate` callbacks; they decide what the one drop
//! session state becomes and which event the view receives:
//! - `dropInteraction:sessionDidEnter:`: [`enter_session`]
//! - `dropInteraction:sessionDidUpdate:`: [`update_session`]
//! - `dropInteraction:sessionDidExit:`: [`exit_session`]
//! - `dropInteraction:performDrop:`: [`perform_drop`]
//!
//! Loading the files of a session is asynchronous: [`load_file_urls_async`]
//! begins a loading and names the items to load, and [`record_loaded_file`]
//! takes in what each loaded, storing the paths once all have.

use crate::external_paths::{texts, ExternalPaths};
use crate::file_drop::FileDropEvent;
use crate::geometry::{Pixels, Point};
use vstd::prelude::*;
use vstd::utf8::*;

verus! {

/// UIDropOperation constants
#[derive(Clone, Copy, Debug, PartialEq, Eq, Structural)]
pub enum UIDropOperation {
    Cancel,
    Forbidden,
    Copy,
    Move,
}

/// The value UIKit uses for the operation `op`.
pub open spec fn drop_operation_value(op: UIDropOperation) -> nat {
    match op {
        UIDropOperation::Cancel => 0,
        UIDropOperation::Forbidden => 1,
        UIDropOperation::Copy => 2,
        UIDropOperation::Move => 3,
    }
}

impl UIDropOperation {
    /// The `NSUInteger` value that UIKit uses for this operation.
    pub fn raw_value(self) -> (value: usize)
        ensures
            value == drop_operation_value(self),
    {
        match self {
            UIDropOperation::Cancel => 0,
            UIDropOperation::Forbidden => 1,
            UIDropOperation::Copy => 2,
            UIDropOperation::Move => 3,
        }
    }
}

/// One item of a drop session, as the platform reports it.
pub struct DragItem {
    /// Whether the item and its item provider exist.
    pub has_provider: bool,
    /// Whether the provider has an item conforming to `public.file-url`.
    pub has_file_url: bool,
    /// The bytes of the provider's suggested name, where it has one.
    pub suggested_name: Option<Vec<u8>>,
    /// The bytes of the path of the item's local object, where that object
    /// is a URL with a path.
    pub local_path: Option<Vec<u8>>,
}

/// A drop session, as the platform reports it.
pub struct DropSession {
    /// The session's items, or `None` where there is no session or it has
    /// no item list.
    pub items: Option<Vec<DragItem>>,
}

/// The text that `bytes` encode, where they are valid UTF-8.
pub open spec fn text_of(bytes: Seq<u8>) -> Option<Seq<char>> {
    if valid_utf8(bytes) {
        Some(decode_utf8(bytes))
    } else {
        None
    }
}

/// Calls `std::str::from_utf8`, which succeeds exactly on valid UTF-8 and
/// then gives the text that the bytes encode; the contract claims just that,
/// with vstd's definitions of validity and decoding.
#[verifier::external_body]
fn utf8_text(bytes: &[u8]) -> (text: Option<String>)
    ensures
        text is Some <==> valid_utf8(bytes@),
        text matches Some(t) ==> t@ == decode_utf8(bytes@),
{
    match std::str::from_utf8(bytes) {
        Ok(t) => Some(t.to_string()),
        Err(_) => None,
    }
}

/// The name given to a file whose suggested name is not valid UTF-8.
pub open spec fn unknown_name() -> Seq<char> {
    seq!['u', 'n', 'k', 'n', 'o', 'w', 'n']
}

/// Whether `item` offers a file.
pub open spec fn offers_file(item: DragItem) -> bool {
    item.has_provider && item.has_file_url
}

/// The local path that `item` contributes to a session's paths, if any: its
/// local object's path, where the item offers a file and the path is valid,
/// non-empty UTF-8.
pub open spec fn local_path_of(item: DragItem) -> Option<Seq<char>> {
    if offers_file(item) {
        match item.local_path {
            Some(bytes) => match text_of(bytes@) {
                Some(t) => if t.len() > 0 { Some(t) } else { None },
                None => None,
            },
            None => None,
        }
    } else {
        None
    }
}

/// The path that `item` contributes once its file is loaded, given the
/// bytes of the loaded file's path (`None` where loading failed): none
/// where the item offers no file; the loaded path where it is valid,
/// non-empty UTF-8; otherwise the item's suggested name ("unknown" where
/// that name is not valid UTF-8), or none where it has no suggested name.
pub open spec fn loaded_path_of(item: DragItem, loaded: Option<Vec<u8>>) -> Option<Seq<char>> {
    let loaded_text = match loaded {
        Some(bytes) => match text_of(bytes@) {
            Some(t) => if t.len() > 0 { Some(t) } else { None },
            None => None,
        },
        None => None,
    };
    if !offers_file(item) {
        None
    } else if loaded_text is Some {
        loaded_text
    } else {
        match item.suggested_name {
            Some(bytes) => match text_of(bytes@) {
                Some(t) => Some(t),
                None => Some(unknown_name()),
            },
            None => None,
        }
    }
}

/// The load result for item `i`: `loaded[i]`, or none past its end.
pub open spec fn loaded_at(loaded: Seq<Option<Vec<u8>>>, i: int) -> Option<Vec<u8>> {
    if 0 <= i < loaded.len() {
        loaded[i]
    } else {
        None
    }
}

/// The paths that `items` contribute once loaded, in order, where item `i`
/// loaded `loaded_at(loaded, i)`.
pub open spec fn loaded_paths(items: Seq<DragItem>, loaded: Seq<Option<Vec<u8>>>) -> Seq<Seq<char>>
    decreases items.len(),
{
    if items.len() == 0 {
        Seq::empty()
    } else {
        let rest = loaded_paths(items.drop_last(), loaded);
        match loaded_path_of(items.last(), loaded_at(loaded, items.len() - 1)) {
            Some(t) => rest.push(t),
            None => rest,
        }
    }
}

/// The indices of the items that offer a file, in increasing order.
pub open spec fn file_item_indices(items: Seq<DragItem>) -> Seq<usize>
    decreases items.len(),
{
    if items.len() == 0 {
        Seq::empty()
    } else {
        let rest = file_item_indices(items.drop_last());
        if offers_file(items.last()) {
            rest.push((items.len() - 1) as usize)
        } else {
            rest
        }
    }
}

/// The values that `f` gives for `items`, in order, leaving out `None`.
pub open spec fn collect_texts(items: Seq<DragItem>, f: spec_fn(DragItem) -> Option<Seq<char>>) -> Seq<Seq<char>>
    decreases items.len(),
{
    if items.len() == 0 {
        Seq::empty()
    } else {
        let rest = collect_texts(items.drop_last(), f);
        match f(items.last()) {
            Some(t) => rest.push(t),
            None => rest,
        }
    }
}

/// The paths that the items of `session` carry locally.
pub open spec fn session_local_paths(session: DropSession) -> Seq<Seq<char>> {
    match session.items {
        Some(items) => collect_texts(items@, |item: DragItem| local_path_of(item)),
        None => Seq::empty(),
    }
}

/// The path that a local path entry gives, from its text where its bytes
/// are valid UTF-8: a missing or empty text gives no path.
pub fn local_path_text(text: Option<String>) -> (path: Option<String>)
    ensures
        path == match text {
            Some(t) => if t@.len() > 0 { Some(t) } else { None },
            None => None,
        },
{
    match text {
        Some(t) => if t.as_str().is_empty() { None } else { Some(t) },
        None => None,
    }
}

/// The name that a suggested name gives, from its text where its bytes are
/// valid UTF-8: "unknown" where there is no text.
pub fn placeholder_text(text: Option<String>) -> (name: String)
    ensures
        name@ == match text {
            Some(t) => t@,
            None => unknown_name(),
        },
{
    match text {
        Some(t) => t,
        None => {
            let unknown = String::from_str("unknown");
            proof {
                reveal_strlit("unknown");
            }
            unknown
        },
    }
}

/// The local path that `item` contributes, if any.
fn item_local_path(item: &DragItem) -> (path: Option<String>)
    ensures
        match path {
            Some(p) => local_path_of(*item) == Some(p@),
            None => local_path_of(*item) is None,
        },
{
    if item.has_provider && item.has_file_url {
        match &item.local_path {
            Some(bytes) => local_path_text(utf8_text(bytes.as_slice())),
            None => None,
        }
    } else {
        None
    }
}

/// The path that `item` contributes once loaded, given what its load gave.
fn item_loaded_path(item: &DragItem, loaded: &Option<Vec<u8>>) -> (path: Option<String>)
    ensures
        match path {
            Some(p) => loaded_path_of(*item, *loaded) == Some(p@),
            None => loaded_path_of(*item, *loaded) is None,
        },
{
    if item.has_provider && item.has_file_url {
        let loaded_text = match loaded {
            Some(bytes) => local_path_text(utf8_text(bytes.as_slice())),
            None => None,
        };
        match loaded_text {
            Some(t) => Some(t),
            None => match &item.suggested_name {
                Some(bytes) => Some(placeholder_text(utf8_text(bytes.as_slice()))),
                None => None,
            },
        }
    } else {
        None
    }
}

/// Extract file URLs from a drop session's item providers.
///
/// This function synchronously extracts URLs that are immediately available:
/// the paths of the items' local objects, in the items' order.
pub fn extract_file_urls_from_session(session: &DropSession) -> (paths: Vec<String>)
    ensures
        texts(paths@) == session_local_paths(*session),
{
    let mut paths: Vec<String> = Vec::new();
    match &session.items {
        None => {
            assert(texts(paths@) =~= Seq::<Seq<char>>::empty());
        },
        Some(items) => {
            let n = items.len();
            for i in 0..n
                invariant
                    n == items@.len(),
                    texts(paths@) == collect_texts(items@.take(i as int), |item: DragItem| local_path_of(item)),
            {
                assert(items@.take(i + 1).drop_last() =~= items@.take(i as int));
                let path = item_local_path(&items[i]);
                match path {
                    Some(p) => {
                        paths.push(p);
                    },
                    None => {},
                }
                assert(texts(paths@) == collect_texts(items@.take(i + 1), |item: DragItem| local_path_of(item)));
            }
            assert(items@.take(n as int) =~= items@);
        },
    }
    paths
}

/// The loading of one session's files, as mathematical values.
pub struct LoadModel {
    /// The number that tells this loading apart from earlier ones.
    pub generation: u64,
    /// The session's items.
    pub items: Seq<DragItem>,
    /// For each item: `None` while its file is awaited; `Some(r)` once it
    /// arrived, `r` holding the bytes of the loaded path or `None` where the
    /// load failed; `Some(None)` from the start for items without a file.
    pub results: Seq<Option<Option<Vec<u8>>>>,
}

/// The drop session state, as mathematical values.
pub struct DropSessionModel {
    /// Paths kept for the view to take, if any.
    pub pending_paths: Option<Seq<Seq<char>>>,
    /// Whether a drop session is over the view.
    pub is_active: bool,
    /// The generation that the next loading gets.
    pub next_generation: u64,
    /// The loading under way, if any.
    pub load: Option<LoadModel>,
}

/// The state before any drop session.
pub open spec fn initial_session_model() -> DropSessionModel {
    DropSessionModel { pending_paths: None, is_active: false, next_generation: 0, load: None }
}

/// The loading of one session's files.
struct LoadProgress {
    generation: u64,
    items: Vec<DragItem>,
    results: Vec<Option<Option<Vec<u8>>>>,
}

/// Storage for pending drop session data.
/// Only one drop session can be active at a time.
pub struct DropSessionState {
    /// Paths extracted from the current drop session
    pending_paths: Option<ExternalPaths>,
    /// Whether a drop session is currently active
    is_active: bool,
    /// Generation of the next loading
    next_generation: u64,
    /// The loading under way
    load: Option<LoadProgress>,
}

impl View for DropSessionState {
    type V = DropSessionModel;

    closed spec fn view(&self) -> DropSessionModel {
        DropSessionModel {
            pending_paths: match self.pending_paths {
                Some(p) => Some(texts(p@)),
                None => None,
            },
            is_active: self.is_active,
            next_generation: self.next_generation,
            load: match self.load {
                Some(l) => Some(LoadModel { generation: l.generation, items: l.items@, results: l.results@ }),
                None => None,
            },
        }
    }
}

impl DropSessionState {
    /// The state before any drop session: no pending paths, not active, no
    /// loading.
    pub fn new() -> (state: DropSessionState)
        ensures
            state@ == initial_session_model(),
    {
        DropSessionState { pending_paths: None, is_active: false, next_generation: 0, load: None }
    }
}

/// The drop session state kept in `slot`, created there first where the
/// slot is empty.
pub fn get_drop_state(slot: &mut Option<DropSessionState>) -> (state: &mut DropSessionState)
    ensures
        *old(slot) matches Some(s) ==> (*state)@ == s@,
        *old(slot) is None ==> (*state)@ == initial_session_model(),
        *final(slot) == Some(*final(state)),
{
    if slot.is_none() {
        *slot = Some(DropSessionState::new());
    }
    match slot {
        Some(state) => state,
        None => vstd::pervasive::unreached(),
    }
}

/// The state `m` once its pending paths are taken.
pub open spec fn after_take(m: DropSessionModel) -> DropSessionModel {
    DropSessionModel { pending_paths: None, ..m }
}

/// The state `m` once it is marked active or inactive.
pub open spec fn after_set_active(m: DropSessionModel, active: bool) -> DropSessionModel {
    DropSessionModel { is_active: active, ..m }
}

/// The results that a loading of `items` starts from: awaited for the items
/// that offer a file, nothing to load for the others.
pub open spec fn initial_results(items: Seq<DragItem>) -> Seq<Option<Option<Vec<u8>>>> {
    Seq::new(items.len(), |i: int| if offers_file(items[i]) { None } else { Some(None) })
}

/// What each item loaded, with `None` where it loaded nothing or is awaited.
pub open spec fn arrived(results: Seq<Option<Option<Vec<u8>>>>) -> Seq<Option<Vec<u8>>> {
    results.map_values(|r: Option<Option<Vec<u8>>>| match r {
        Some(x) => x,
        None => None,
    })
}

/// Whether nothing is awaited any more.
pub open spec fn all_arrived(results: Seq<Option<Option<Vec<u8>>>>) -> bool {
    forall|i: int| 0 <= i < results.len() ==> #[trigger] results[i] is Some
}

/// The pending paths that storing `paths` gives: none where there are none.
pub open spec fn stored_pending(paths: Seq<Seq<char>>) -> Option<Seq<Seq<char>>> {
    if paths.len() == 0 {
        None
    } else {
        Some(paths)
    }
}

/// The generation after `g`, wrapping round after the largest.
pub open spec fn generation_after(g: u64) -> u64 {
    if g == u64::MAX {
        0
    } else {
        (g + 1) as u64
    }
}

/// The state `m` once loading the files of `session` has begun. Where the
/// session has items, the pending paths are cleared, the next generation
/// is taken, and the loading of the items that offer a file replaces any
/// loading under way; where none offers a file, no loading remains.
pub open spec fn after_begin_load(m: DropSessionModel, session: DropSession) -> DropSessionModel {
    match session.items {
        Some(items) => DropSessionModel {
            pending_paths: None,
            next_generation: generation_after(m.next_generation),
            load: if file_item_indices(items@).len() == 0 {
                None
            } else {
                Some(LoadModel { generation: m.next_generation, items: items@, results: initial_results(items@) })
            },
            ..m
        },
        None => m,
    }
}

/// Whether the file loaded for item `index` of loading `generation` is
/// taken in by a state with loading `load`: that loading is under way and
/// still awaits the item.
pub open spec fn accepts_result(load: Option<LoadModel>, generation: u64, index: int) -> bool {
    load matches Some(l) && l.generation == generation && 0 <= index < l.results.len()
        && l.results[index] is None
}

/// Whether that file is the last one awaited.
pub open spec fn completes_load(load: Option<LoadModel>, generation: u64, index: int, loaded: Option<Vec<u8>>) -> bool {
    accepts_result(load, generation, index) && all_arrived(load->0.results.update(index, Some(loaded)))
}

/// The state `m` once item `index` of loading `generation` loaded `loaded`
/// (the bytes of the loaded file's path, `None` where the load failed).
/// A result that the state does not await is ignored. The last awaited
/// result ends the loading and stores the paths the items contribute.
pub open spec fn after_record(m: DropSessionModel, generation: u64, index: int, loaded: Option<Vec<u8>>) -> DropSessionModel {
    if accepts_result(m.load, generation, index) {
        let l = m.load->0;
        let results = l.results.update(index, Some(loaded));
        if all_arrived(results) {
            DropSessionModel {
                pending_paths: stored_pending(loaded_paths(l.items, arrived(results))),
                load: None,
                ..m
            }
        } else {
            DropSessionModel { load: Some(LoadModel { results, ..l }), ..m }
        }
    } else {
        m
    }
}

/// The state `m` once a drag with `session` entered the view.
pub open spec fn after_enter(m: DropSessionModel, session: DropSession) -> DropSessionModel {
    after_begin_load(after_set_active(m, true), session)
}

/// The state `m` once the drag left the view or the drop ended.
pub open spec fn after_exit(m: DropSessionModel) -> DropSessionModel {
    after_set_active(m, false)
}

/// Get the pending drop paths (if any), leaving none behind.
pub fn take_pending_paths(state: &mut DropSessionState) -> (paths: Option<ExternalPaths>)
    ensures
        match paths {
            Some(p) => old(state)@.pending_paths == Some(texts(p@)),
            None => old(state)@.pending_paths is None,
        },
        final(state)@ == after_take(old(state)@),
{
    state.pending_paths.take()
}

/// Set the drop session active state.
pub fn set_drop_active(state: &mut DropSessionState, active: bool)
    ensures
        final(state)@ == after_set_active(old(state)@, active),
{
    state.is_active = active;
}

/// Check if a drop session is active.
pub fn is_drop_active(state: &DropSessionState) -> (active: bool)
    ensures
        active == state@.is_active,
{
    state.is_active
}


/// Load file URLs asynchronously from the session's item providers, and
/// store them once they have all loaded.
///
/// This first step clears the pending paths (where the session has items),
/// and begins a loading of the items that offer a file. It gives the
/// loading's generation and the indices of the items to load, in
/// increasing order. The platform loads each and hands the result to
/// [`record_loaded_file`] with that generation and index.
pub fn load_file_urls_async(state: &mut DropSessionState, session: DropSession) -> (step: (u64, Vec<usize>))
    ensures
        final(state)@ == after_begin_load(old(state)@, session),
        step.0 == old(state)@.next_generation,
        step.1@ == match session.items {
            Some(items) => file_item_indices(items@),
            None => Seq::empty(),
        },
{
    let generation = state.next_generation;
    match session.items {
        None => (generation, Vec::new()),
        Some(items) => {
            // Clear any existing paths
            state.pending_paths = None;
            state.next_generation = if generation == u64::MAX { 0 } else { generation + 1 };
            let mut requests: Vec<usize> = Vec::new();
            let mut results: Vec<Option<Option<Vec<u8>>>> = Vec::new();
            let n = items.len();
            for i in 0..n
                invariant
                    n == items@.len(),
                    requests@ == file_item_indices(items@.take(i as int)),
                    results@ =~= initial_results(items@.take(i as int)),
            {
                assert(items@.take(i + 1).drop_last() =~= items@.take(i as int));
                if items[i].has_provider && items[i].has_file_url {
                    requests.push(i);
                    results.push(None);
                } else {
                    results.push(Some(None));
                }
                assert(results@ =~= initial_results(items@.take(i + 1)));
            }
            assert(items@.take(n as int) =~= items@);
            if requests.len() == 0 {
                state.load = None;
            } else {
                state.load = Some(LoadProgress { generation, items, results });
            }
            (generation, requests)
        },
    }
}

/// Whether nothing is awaited in `results`.
fn results_all_arrived(results: &Vec<Option<Option<Vec<u8>>>>) -> (all: bool)
    ensures
        all == all_arrived(results@),
{
    let n = results.len();
    for i in 0..n
        invariant
            n == results@.len(),
            forall|j: int| 0 <= j < i ==> #[trigger] results@[j] is Some,
    {
        if results[i].is_none() {
            return false;
        }
    }
    true
}

/// The paths that `items` contribute, given what each loaded.
fn loaded_file_paths(items: &Vec<DragItem>, results: &Vec<Option<Option<Vec<u8>>>>) -> (paths: Vec<String>)
    ensures
        texts(paths@) == loaded_paths(items@, arrived(results@)),
{
    let mut paths: Vec<String> = Vec::new();
    let none: Option<Vec<u8>> = None;
    let n = items.len();
    for i in 0..n
        invariant
            n == items@.len(),
            none is None,
            texts(paths@) == loaded_paths(items@.take(i as int), arrived(results@)),
    {
        assert(items@.take(i + 1).drop_last() =~= items@.take(i as int));
        let result: &Option<Vec<u8>> = if i < results.len() {
            match &results[i] {
                Some(r) => r,
                None => &none,
            }
        } else {
            &none
        };
        assert(*result == loaded_at(arrived(results@), i as int));
        match item_loaded_path(&items[i], result) {
            Some(path) => {
                paths.push(path);
            },
            None => {},
        }
        assert(texts(paths@) == loaded_paths(items@.take(i + 1), arrived(results@)));
    }
    assert(items@.take(n as int) =~= items@);
    paths
}

/// Record that item `index` of loading `generation` loaded `loaded`: the
/// bytes of the loaded file's path, `None` where the load failed.
///
/// A result of a loading that is no longer under way, or for an item that
/// is not awaited, is ignored. The last awaited result ends the loading and
/// stores the paths the items contribute, in the items' order. Gives
/// whether it stored them.
pub fn record_loaded_file(state: &mut DropSessionState, generation: u64, index: usize, loaded: Option<Vec<u8>>) -> (stored: bool)
    ensures
        final(state)@ == after_record(old(state)@, generation, index as int, loaded),
        stored == completes_load(old(state)@.load, generation, index as int, loaded),
{
    let taken = state.load.take();
    match taken {
        None => false,
        Some(progress) => {
            if progress.generation != generation || index >= progress.results.len()
                || progress.results[index].is_some() {
                state.load = Some(progress);
                return false;
            }
            let mut progress = progress;
            progress.results.set(index, Some(loaded));
            if results_all_arrived(&progress.results) {
                let paths = loaded_file_paths(&progress.items, &progress.results);
                if paths.len() > 0 {
                    state.pending_paths = Some(ExternalPaths::from_vec(paths));
                } else {
                    state.pending_paths = None;
                }
                true
            } else {
                state.load = Some(progress);
                false
            }
        },
    }
}

/// `dropInteraction:sessionDidEnter:`: the drag entered the view at
/// `position`.
///
/// Marks the session active, begins loading the items' files, and gives
/// the event to dispatch (the drag entered at `position` with the paths
/// that the items carry locally), the loading's generation, and the items
/// whose files are to be loaded.
pub fn enter_session(state: &mut DropSessionState, position: Point<Pixels>, session: DropSession) -> (step: (FileDropEvent, u64, Vec<usize>))
    ensures
        final(state)@ == after_enter(old(state)@, session),
        (step.0 matches FileDropEvent::Entered { position: p, paths } && p == position && texts(paths@) == session_local_paths(session)),
        step.1 == old(state)@.next_generation,
        step.2@ == match session.items {
            Some(items) => file_item_indices(items@),
            None => Seq::empty(),
        },
{
    set_drop_active(state, true);
    let paths = extract_file_urls_from_session(&session);
    let (generation, requests) = load_file_urls_async(state, session);
    (FileDropEvent::Entered { position, paths: ExternalPaths::from_vec(paths) }, generation, requests)
}

/// `dropInteraction:sessionDidUpdate:`: the drag moved to `position` over
/// the view.
///
/// Gives the event to dispatch and the operation to propose: files are
/// copied.
pub fn update_session(position: Point<Pixels>) -> (step: (FileDropEvent, UIDropOperation))
    ensures
        (step.0 matches FileDropEvent::Pending { position: p } && p == position),
        step.1 == UIDropOperation::Copy,
{
    (FileDropEvent::Pending { position }, UIDropOperation::Copy)
}

/// `dropInteraction:sessionDidExit:`: the drag left the view.
///
/// Marks the session inactive and gives the event to dispatch. Pending paths
/// are kept for the view to take.
pub fn exit_session(state: &mut DropSessionState) -> (event: FileDropEvent)
    ensures
        final(state)@ == after_exit(old(state)@),
        event is Exited,
{
    set_drop_active(state, false);
    FileDropEvent::Exited
}

/// One thing the platform does for a delegate callback.
pub enum DropAction {
    /// Hand `event` to the view.
    Dispatch(FileDropEvent),
    /// Mark the drop session active or inactive.
    MarkActive(bool),
}

/// `dropInteraction:performDrop:`: the files were dropped at `position`.
///
/// Gives what to do, in order: hand the view the drop, mark the session
/// inactive, then hand the view the end of the drag, as on macOS.
pub fn perform_drop(position: Point<Pixels>) -> (actions: Vec<DropAction>)
    ensures
        actions@.len() == 3,
        (actions@[0] matches DropAction::Dispatch(FileDropEvent::Submit { position: p }) && p == position),
        (actions@[1] matches DropAction::MarkActive(active) && !active),
        (actions@[2] matches DropAction::Dispatch(e) && e is Exited),
{
    let mut actions: Vec<DropAction> = Vec::new();
    actions.push(DropAction::Dispatch(FileDropEvent::Submit { position }));
    actions.push(DropAction::MarkActive(false));
    actions.push(DropAction::Dispatch(FileDropEvent::Exited));
    actions
}

} // verus!
