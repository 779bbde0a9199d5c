//! Bookkeeping of the windows that a window manager opened.
//!
//! Windows live in a `slotmap::SlotMap`; a window handle carries the key of
//! its slot in the 64-bit form that `KeyData::as_ffi` gives. Sizes are `f32`
//! bit patterns, carried unchanged.
use slotmap::{DefaultKey, Key, KeyData, SlotMap};
use vstd::prelude::*;

verus! {

broadcast use vstd::string::group_string_axioms;


/// What a window manager records of a window: its title, its size (`f32`
/// bits) and the platform's handle for it, if the platform gave one.
pub struct WindowEntry {
    pub title: String,
    pub width: u32,
    pub height: u32,
    pub native: Option<isize>,
}

/// A window entry as plain values: title, width, height, platform handle.
pub type WindowRecord = (Seq<char>, u32, u32, Option<isize>);

/// Window records by the 64-bit form of their slot keys.
pub type WindowTable = Map<u64, WindowRecord>;

/// The plain values of a window entry.
pub open spec fn record_of(e: WindowEntry) -> WindowRecord {
    (e.title@, e.width, e.height, e.native)
}

/// The slot map in which a window manager keeps its windows, held where
/// Verus does not look into it.
#[verifier::external_body]
pub struct WindowSlots {
    slots: SlotMap<DefaultKey, WindowEntry>,
}

/// What a slot map of windows holds: for the 64-bit form of each occupied
/// key, the entry stored under it.
pub uninterp spec fn window_slots(m: WindowSlots) -> Map<u64, WindowRecord>;

/// Whether the version half of a 64-bit key is odd, as it is for every key
/// of an occupied slot.
pub open spec fn odd_version(id: u64) -> bool {
    (id / 0x1_0000_0000u64) % 2 == 1
}

/// The platform handles of the windows in a table.
pub open spec fn platform_handles(t: WindowTable) -> Set<Option<isize>> {
    Set::new(|h: Option<isize>| exists|id: u64| #[trigger] t.contains_key(id) && t[id].3 == h)
}

/// `SlotMap::new`: an empty slot map.
#[verifier::external_body]
fn slots_new() -> (m: WindowSlots)
    ensures
        window_slots(m) == WindowTable::empty(),
{
    WindowSlots { slots: SlotMap::new() }
}

/// The windows of a table that have the platform handle `h`.
pub open spec fn windows_with_handle(t: WindowTable, h: Option<isize>) -> Set<u64> {
    t.dom().filter(|id: u64| t[id].3 == h)
}

/// `SlotMap::len`: the number of occupied slots.
#[verifier::external_body]
fn slots_len(m: &WindowSlots) -> (r: usize)
    ensures
        r == window_slots(*m).len(),
{
    m.slots.len()
}

/// `SlotMap::insert`: stores `e` in a slot that no occupied key names and
/// answers with the new key (whose version is odd). It panics when no slot
/// is free and the slot vector (the entries and a sentinel slot) already has
/// `u32::MAX` slots, which the precondition rules out.
#[verifier::external_body]
fn slots_insert(m: &mut WindowSlots, e: WindowEntry) -> (id: u64)
    requires
        window_slots(*old(m)).len() + 1 < u32::MAX,
    ensures
        !window_slots(*old(m)).contains_key(id),
        odd_version(id),
        window_slots(*final(m)) == window_slots(*old(m)).insert(id, record_of(e)),
{
    m.slots.insert(e).data().as_ffi()
}

/// `SlotMap::get`: the entry under the key whose 64-bit form is `id`.
#[verifier::external_body]
fn slots_get(m: &WindowSlots, id: u64) -> (r: Option<&WindowEntry>)
    requires
        odd_version(id),
    ensures
        match r {
            Some(e) => window_slots(*m).contains_key(id) && record_of(*e) == window_slots(*m)[id],
            None => !window_slots(*m).contains_key(id),
        },
{
    let key: DefaultKey = KeyData::from_ffi(id).into();
    m.slots.get(key)
}

/// `SlotMap::get_mut`: the entry under the key whose 64-bit form is `id`, to
/// be changed in place.
#[verifier::external_body]
fn slots_get_mut(m: &mut WindowSlots, id: u64) -> (r: Option<&mut WindowEntry>)
    requires
        odd_version(id),
    ensures
        window_slots(*old(m)).contains_key(id) ==> r is Some && record_of(*r.unwrap())
            == window_slots(*old(m))[id] && window_slots(*final(m)) == window_slots(
            *old(m),
        ).insert(id, record_of(*final(r.unwrap()))),
        !window_slots(*old(m)).contains_key(id) ==> r is None && window_slots(*final(m))
            == window_slots(*old(m)),
{
    let key: DefaultKey = KeyData::from_ffi(id).into();
    m.slots.get_mut(key)
}

/// `SlotMap::clear`: empties the slot map.
#[verifier::external_body]
fn slots_clear(m: &mut WindowSlots)
    ensures
        window_slots(*final(m)) == WindowTable::empty(),
{
    m.slots.clear()
}

/// `SlotMap::values`, each entry taken to its platform handle: one handle per
/// occupied slot, so each handle as often as there are windows that have it,
/// in no order that the documentation promises.
#[verifier::external_body]
fn slots_natives(m: &WindowSlots) -> (r: Vec<Option<isize>>)
    ensures
        r@.len() == window_slots(*m).len(),
        r@.to_set() == platform_handles(window_slots(*m)),
        forall|h: Option<isize>|
            #[trigger] r@.to_multiset().count(h) == windows_with_handle(window_slots(*m), h).len(),
{
    m.slots.values().map(|e| e.native).collect()
}

/// The 64-bit key with the version made odd, as the slot map reads it.
fn slot_key(raw: u64) -> (id: u64)
    ensures
        id == raw | 0x1_0000_0000u64,
        odd_version(id),
{
    let id = raw | 0x1_0000_0000u64;
    assert((id / 0x1_0000_0000u64) % 2 == 1) by (bit_vector)
        requires
            id == raw | 0x1_0000_0000u64,
    ;
    id
}

/// A window, named by the 64-bit form of its slot key.
#[derive(Debug, Clone, Copy, PartialEq, Eq, Structural)]
pub struct WindowHandle {
    pub id: u64,
}

/// How a window is to be opened: title, size (`f32` bits), resizability.
pub struct WindowConfig {
    pub title: String,
    pub width: u32,
    pub height: u32,
    pub resizable: bool,
}

/// The windows a window manager opened and has not yet forgotten.
pub struct WindowManager {
    windows: WindowSlots,
}

impl View for WindowManager {
    type V = Map<u64, WindowRecord>;

    closed spec fn view(&self) -> Map<u64, WindowRecord> {
        window_slots(self.windows)
    }
}

/// The 64-bit key that a handle stands for once its version is made odd, as
/// the slot map reads it.
pub open spec fn key_of(handle: WindowHandle) -> u64 {
    handle.id | 0x1_0000_0000u64
}

impl WindowManager {
    /// No window.
    pub fn new() -> (r: Self)
        ensures
            r@ == WindowTable::empty(),
    {
        WindowManager { windows: slots_new() }
    }

    /// Records a new window opened with `config`, with the platform handle
    /// `native` if the platform gave one; answers with its handle, which
    /// names no window recorded before.
    pub fn create_native_window(&mut self, config: WindowConfig, native: Option<isize>) -> (handle: WindowHandle)
        requires
            old(self)@.len() + 1 < u32::MAX,
        ensures
            !old(self)@.contains_key(handle.id),
            key_of(handle) == handle.id,
            final(self)@ == old(self)@.insert(
                handle.id,
                (config.title@, config.width, config.height, native),
            ),
    {
        let entry = WindowEntry {
            title: config.title,
            width: config.width,
            height: config.height,
            native,
        };
        let id = slots_insert(&mut self.windows, entry);
        proof {
            assert(id | 0x1_0000_0000u64 == id) by (bit_vector)
                requires
                    (id / 0x1_0000_0000u64) % 2 == 1,
            ;
        }
        WindowHandle { id }
    }

    /// Records a new window opened with `config`; answers with its handle,
    /// which names no window recorded before.
    pub fn create_window(&mut self, config: WindowConfig) -> (handle: WindowHandle)
        requires
            old(self)@.len() + 1 < u32::MAX,
        ensures
            !old(self)@.contains_key(handle.id),
            key_of(handle) == handle.id,
            final(self)@ == old(self)@.insert(
                handle.id,
                (config.title@, config.width, config.height, None),
            ),
    {
        self.create_native_window(config, None)
    }

    /// Renames the window `handle`, if it is recorded; answers whether it was.
    pub fn set_title(&mut self, handle: WindowHandle, title: &str) -> (found: bool)
        ensures
            found == old(self)@.contains_key(key_of(handle)),
            found ==> final(self)@ == old(self)@.insert(
                key_of(handle),
                (title@, old(self)@[key_of(handle)].1, old(self)@[key_of(handle)].2, old(self)@[key_of(handle)].3),
            ),
            !found ==> final(self)@ == old(self)@,
    {
        let id = slot_key(handle.id);
        match slots_get_mut(&mut self.windows, id) {
            Some(entry) => {
                entry.title = title.to_string();
                true
            },
            None => false,
        }
    }

    /// Records the new size (`f32` bits) of the window `handle`, if it is
    /// recorded; answers whether it was.
    pub fn resize(&mut self, handle: WindowHandle, width: u32, height: u32) -> (found: bool)
        ensures
            found == old(self)@.contains_key(key_of(handle)),
            found ==> final(self)@ == old(self)@.insert(
                key_of(handle),
                (old(self)@[key_of(handle)].0, width, height, old(self)@[key_of(handle)].3),
            ),
            !found ==> final(self)@ == old(self)@,
    {
        let id = slot_key(handle.id);
        match slots_get_mut(&mut self.windows, id) {
            Some(entry) => {
                entry.width = width;
                entry.height = height;
                true
            },
            None => false,
        }
    }

    /// The record of the window `handle`, if it is recorded.
    pub fn get(&self, handle: WindowHandle) -> (r: Option<&WindowEntry>)
        ensures
            match r {
                Some(e) => self@.contains_key(key_of(handle)) && record_of(*e) == self@[key_of(handle)],
                None => !self@.contains_key(key_of(handle)),
            },
    {
        let id = slot_key(handle.id);
        slots_get(&self.windows, id)
    }

    /// How many windows are recorded.
    pub fn len(&self) -> (r: usize)
        ensures
            r == self@.len(),
    {
        slots_len(&self.windows)
    }

    /// Forgets every window; answers with the platform handles that the
    /// forgotten windows had, one per window (so each handle as often as
    /// there were windows that had it), in no particular order.
    pub fn on_destroy(&mut self) -> (natives: Vec<Option<isize>>)
        ensures
            final(self)@ == WindowTable::empty(),
            natives@.len() == old(self)@.len(),
            natives@.to_set() == platform_handles(old(self)@),
            forall|h: Option<isize>|
                #[trigger] natives@.to_multiset().count(h) == windows_with_handle(old(self)@, h).len(),
    {
        let natives = slots_natives(&self.windows);
        slots_clear(&mut self.windows);
        natives
    }
}

/// Handles name one window each: a window created after another gets a
/// handle of its own, and renaming one window leaves every other as it was.
pub proof fn law_windows_kept_apart(
    before: WindowTable,
    first: u64,
    first_record: WindowRecord,
    second: u64,
    title: Seq<char>,
)
    requires
        !before.contains_key(first),
        !before.insert(first, first_record).contains_key(second),
    ensures
        first != second,
        forall|other: u64|
            other != first && #[trigger] before.contains_key(other) ==> before.insert(
                first,
                (title, first_record.1, first_record.2, first_record.3),
            )[other] == before[other],
{
}

} // verus!
