//! System tray icon: the menu model behind the tray.
//!
//! The icon itself belongs to the desktop's tray host; this module keeps
//! what the engine knows of it (menu items, visibility, the click callback)
//! and decides each operation's result. `C` is the type of the click
//! callback.

use vstd::prelude::*;
use vstd::string::*;

verus! {

/// One menu entry (an item or a separator). Its id is its position in the
/// menu.
pub struct TrayMenuItem {
    pub id: u32,
    pub label: String,
    pub enabled: bool,
    pub is_separator: bool,
}

pub struct TrayMenuItemView {
    pub id: u32,
    pub label: Seq<char>,
    pub enabled: bool,
    pub is_separator: bool,
}

impl View for TrayMenuItem {
    type V = TrayMenuItemView;

    open spec fn view(&self) -> TrayMenuItemView {
        TrayMenuItemView {
            id: self.id,
            label: self.label@,
            enabled: self.enabled,
            is_separator: self.is_separator,
        }
    }
}

pub open spec fn items_view(items: Seq<TrayMenuItem>) -> Seq<TrayMenuItemView> {
    items.map_values(|i: TrayMenuItem| i@)
}

/// A created tray icon.
pub struct TrayState<C> {
    has_menu: bool,
    items: Vec<TrayMenuItem>,
    visible: bool,
    callback: Option<C>,
}

/// What the engine knows of its tray icon.
pub struct TrayView<C> {
    pub created: bool,
    pub has_menu: bool,
    pub items: Seq<TrayMenuItemView>,
    pub visible: bool,
    pub callback: Option<C>,
}

/// The tray icon slot of the application: empty until a tray is created.
pub struct TrayIcon<C> {
    state: Option<TrayState<C>>,
}

impl<C> View for TrayIcon<C> {
    type V = TrayView<C>;

    closed spec fn view(&self) -> TrayView<C> {
        match self.state {
            Some(s) => TrayView {
                created: true,
                has_menu: s.has_menu,
                items: items_view(s.items@),
                visible: s.visible,
                callback: s.callback,
            },
            None => TrayView {
                created: false,
                has_menu: false,
                items: Seq::empty(),
                visible: false,
                callback: None,
            },
        }
    }
}

/// The slot of a tray that does not exist.
pub open spec fn no_tray<C>() -> TrayView<C> {
    TrayView { created: false, has_menu: false, items: Seq::empty(), visible: false, callback: None }
}

/// Every item's id is its position (as a 32-bit number).
pub open spec fn ids_are_positions(items: Seq<TrayMenuItemView>) -> bool {
    forall|i: int| 0 <= i < items.len() ==> #[trigger] items[i].id == i as u32
}

impl<C> TrayIcon<C> {
    #[verifier::type_invariant]
    closed spec fn inv(self) -> bool {
        match self.state {
            Some(s) => forall|i: int| 0 <= i < s.items@.len() ==> #[trigger] s.items@[i].id == i as u32,
            None => true,
        }
    }

    /// An empty slot: no tray icon exists yet.
    pub fn new() -> (t: TrayIcon<C>)
        ensures
            t@ == no_tray::<C>(),
    {
        TrayIcon { state: None }
    }

    /// Whether a tray icon exists.
    pub fn is_created(&self) -> (b: bool)
        ensures
            b == self@.created,
    {
        self.state.is_some()
    }
}

/// Takes the tray state out of the slot, leaving it empty.
fn take_state<C>(tray: &mut TrayIcon<C>) -> (s: Option<TrayState<C>>)
    ensures
        s == old(tray).state,
        final(tray).state is None,
        match s {
            Some(st) => forall|i: int| 0 <= i < st.items@.len() ==> #[trigger] st.items@[i].id == i as u32,
            None => true,
        },
{
    proof {
        use_type_invariant(&*tray);
    }
    let mut out: Option<TrayState<C>> = None;
    std::mem::swap(&mut out, &mut tray.state);
    out
}

/// What the desktop's tray host answered to building the icon.
#[derive(Clone, Copy, Debug, PartialEq, Eq, Structural)]
pub enum TrayBuild {
    /// The default icon image could not be made.
    IconFailed,
    /// The tray icon could not be built.
    BuildFailed,
    /// The tray icon exists.
    Built,
}

/// A tray that was just created: visible, no menu, no callback.
pub open spec fn new_tray<C>() -> TrayView<C> {
    TrayView { created: true, has_menu: false, items: Seq::empty(), visible: true, callback: None }
}

/// Creates the tray icon: 1 when it already exists (the host is not
/// asked), -3 or -2 when the host could not make the icon image or the
/// icon, 0 when it was created.
pub fn create<C>(tray: &mut TrayIcon<C>, build: TrayBuild) -> (r: i32)
    ensures
        old(tray)@.created ==> r == 1 && final(tray)@ == old(tray)@,
        !old(tray)@.created ==> match build {
            TrayBuild::IconFailed => r == -3 && final(tray)@ == old(tray)@,
            TrayBuild::BuildFailed => r == -2 && final(tray)@ == old(tray)@,
            TrayBuild::Built => r == 0 && final(tray)@ == new_tray::<C>(),
        },
{
    if tray.state.is_some() {
        return 1;
    }
    match build {
        TrayBuild::IconFailed => -3,
        TrayBuild::BuildFailed => -2,
        TrayBuild::Built => {
            tray.state = Some(TrayState { has_menu: false, items: Vec::new(), visible: true, callback: None });
            proof {
                assert(items_view(Seq::<TrayMenuItem>::empty()) =~= Seq::empty());
            }
            0
        },
    }
}

/// Destroys the tray icon.
pub fn destroy<C>(tray: &mut TrayIcon<C>)
    ensures
        final(tray)@ == no_tray::<C>(),
{
    tray.state = None;
}

/// Removes the menu and all its items.
pub fn clear_menu<C>(tray: &mut TrayIcon<C>)
    ensures
        old(tray)@.created ==> final(tray)@ == (TrayView {
            has_menu: false,
            items: Seq::empty(),
            ..old(tray)@
        }),
        !old(tray)@.created ==> final(tray)@ == old(tray)@,
{
    if let Some(mut state) = take_state(tray) {
        state.has_menu = false;
        state.items = Vec::new();
        assert(items_view(state.items@) =~= Seq::empty());
        tray.state = Some(state);
    }
}

/// The label of an added item: the given text, or empty when none was
/// given (null or not UTF-8).
pub open spec fn label_text(label: Option<String>) -> Seq<char> {
    match label {
        Some(l) => l@,
        None => Seq::empty(),
    }
}

/// The tray after an entry was added: the menu exists, and the entry (an
/// item, or a separator without a label) joins it, with its position as
/// id.
pub open spec fn after_add<C>(v: TrayView<C>, label: Seq<char>, enabled: i32, is_separator: i32) -> TrayView<C> {
    TrayView {
        has_menu: true,
        items: v.items.push(
            TrayMenuItemView {
                id: v.items.len() as u32,
                label: if is_separator != 0 {
                    Seq::empty()
                } else {
                    label
                },
                enabled: enabled != 0,
                is_separator: is_separator != 0,
            },
        ),
        ..v
    }
}

/// Adds a menu item (or a separator) and returns its index: its position
/// in the menu, the number of entries before it. -1 when there is no
/// tray.
pub fn add_menu_item<C>(
    tray: &mut TrayIcon<C>,
    label: Option<String>,
    enabled: i32,
    checked: i32,
    is_separator: i32,
) -> (r: i32)
    ensures
        !old(tray)@.created ==> r == -1 && final(tray)@ == old(tray)@,
        old(tray)@.created ==> r == old(tray)@.items.len() as i32 && final(tray)@ == after_add(
            old(tray)@,
            label_text(label),
            enabled,
            is_separator,
        ),
        ids_are_positions(old(tray)@.items),
        ids_are_positions(final(tray)@.items),
{
    proof {
        use_type_invariant(&*tray);
    }
    let ghost lt = label_text(label);
    let mut state = match take_state(tray) {
        None => return -1,
        Some(s) => s,
    };
    state.has_menu = true;
    let len = state.items.len();
    let index = len as i32;
    let text = if is_separator != 0 {
        String::new()
    } else {
        match label {
            Some(l) => l,
            None => String::new(),
        }
    };
    let ghost before = items_view(state.items@);
    let item = TrayMenuItem {
        id: len as u32,
        label: text,
        enabled: enabled != 0,
        is_separator: is_separator != 0,
    };
    state.items.push(item);
    assert(items_view(state.items@) =~= before.push(item@));
    tray.state = Some(state);
    index
}

/// Sets whether the item at `index` is enabled; returns whether such an
/// item exists (the tray host must then be told).
pub fn set_menu_item_enabled<C>(tray: &mut TrayIcon<C>, index: i32, enabled: i32) -> (r: bool)
    ensures
        r == (old(tray)@.created && 0 <= index < old(tray)@.items.len()),
        r ==> final(tray)@ == (TrayView {
            items: old(tray)@.items.update(
                index as int,
                TrayMenuItemView { enabled: enabled != 0, ..old(tray)@.items[index as int] },
            ),
            ..old(tray)@
        }),
        !r ==> final(tray)@ == old(tray)@,
{
    proof {
        use_type_invariant(&*tray);
    }
    let mut state = match take_state(tray) {
        None => return false,
        Some(s) => s,
    };
    if index < 0 || index as usize >= state.items.len() {
        tray.state = Some(state);
        return false;
    }
    let i = index as usize;
    let ghost before = items_view(state.items@);
    let mut items = state.items;
    let old_item = items.remove(i);
    let updated = TrayMenuItem {
        id: old_item.id,
        label: old_item.label,
        enabled: enabled != 0,
        is_separator: old_item.is_separator,
    };
    items.insert(i, updated);
    assert(items_view(items@) =~= before.update(
        i as int,
        TrayMenuItemView { enabled: enabled != 0, ..before[i as int] },
    ));
    state.items = items;
    tray.state = Some(state);
    true
}

/// Check marks are not shown by this tray host: nothing changes.
pub fn set_menu_item_checked<C>(tray: &mut TrayIcon<C>, index: i32, checked: i32)
    ensures
        final(tray)@ == old(tray)@,
{
}

/// Sets the label of the item at `index` (no change when the label is
/// missing or not UTF-8); returns whether a label was changed.
pub fn set_menu_item_label<C>(tray: &mut TrayIcon<C>, index: i32, label: Option<String>) -> (r: bool)
    ensures
        r == (label is Some && old(tray)@.created && 0 <= index < old(tray)@.items.len()),
        r ==> final(tray)@ == (TrayView {
            items: old(tray)@.items.update(
                index as int,
                TrayMenuItemView { label: label_text(label), ..old(tray)@.items[index as int] },
            ),
            ..old(tray)@
        }),
        !r ==> final(tray)@ == old(tray)@,
{
    proof {
        use_type_invariant(&*tray);
    }
    let ghost lt = label_text(label);
    let text = match label {
        None => return false,
        Some(l) => l,
    };
    let mut state = match take_state(tray) {
        None => return false,
        Some(s) => s,
    };
    if index < 0 || index as usize >= state.items.len() {
        tray.state = Some(state);
        return false;
    }
    let i = index as usize;
    let ghost before = items_view(state.items@);
    let mut items = state.items;
    let old_item = items.remove(i);
    let updated = TrayMenuItem {
        id: old_item.id,
        label: text,
        enabled: old_item.enabled,
        is_separator: old_item.is_separator,
    };
    items.insert(i, updated);
    assert(items_view(items@) =~= before.update(
        i as int,
        TrayMenuItemView { label: lt, ..before[i as int] },
    ));
    state.items = items;
    tray.state = Some(state);
    true
}

/// Shows or hides the tray icon; returns whether the tray exists (the host
/// must then be told).
pub fn set_visible<C>(tray: &mut TrayIcon<C>, visible: i32) -> (r: bool)
    ensures
        r == old(tray)@.created,
        r ==> final(tray)@ == (TrayView { visible: visible != 0, ..old(tray)@ }),
        !r ==> final(tray)@ == old(tray)@,
{
    proof {
        use_type_invariant(&*tray);
    }
    match take_state(tray) {
        Some(mut state) => {
            state.visible = visible != 0;
            tray.state = Some(state);
            true
        },
        None => false,
    }
}

/// 1 when the tray exists and is visible, 0 otherwise.
pub fn is_visible<C>(tray: &TrayIcon<C>) -> (r: i32)
    ensures
        r == if tray@.created && tray@.visible {
            1i32
        } else {
            0i32
        },
{
    match &tray.state {
        Some(s) => if s.visible {
            1
        } else {
            0
        },
        None => 0,
    }
}

/// Registers the click callback (ignored when there is no tray).
pub fn set_callback<C>(tray: &mut TrayIcon<C>, callback: C)
    ensures
        old(tray)@.created ==> final(tray)@ == (TrayView { callback: Some(callback), ..old(tray)@ }),
        !old(tray)@.created ==> final(tray)@ == old(tray)@,
{
    proof {
        use_type_invariant(&*tray);
    }
    if let Some(mut state) = take_state(tray) {
        state.callback = Some(callback);
        tray.state = Some(state);
    }
}

/// `i` is the first position holding the item with id `id`.
pub open spec fn first_with_id(items: Seq<TrayMenuItemView>, id: u32, i: int) -> bool {
    &&& 0 <= i < items.len()
    &&& items[i].id == id
    &&& forall|j: int| 0 <= j < i ==> items[j].id != id
}

/// The callback call that a click on the menu item with id `id` asks for:
/// the callback with the index of the first item with that id, when the
/// tray exists, such an item exists and a callback is registered.
pub open spec fn click_target<C>(v: TrayView<C>, id: u32) -> Option<(C, i32)> {
    if v.created && v.callback is Some && exists|i: int| first_with_id(v.items, id, i) {
        let i = choose|i: int| first_with_id(v.items, id, i);
        Some((v.callback->0, i as i32))
    } else {
        None
    }
}

/// The callback calls that the pending menu clicks (item ids, in the order
/// they arrived) ask for, in order.
pub open spec fn click_targets<C>(v: TrayView<C>, ids: Seq<u32>) -> Seq<(C, i32)>
    decreases ids.len(),
{
    if ids.len() == 0 {
        Seq::empty()
    } else {
        let prev = click_targets(v, ids.drop_last());
        match click_target(v, ids.last()) {
            Some(t) => prev.push(t),
            None => prev,
        }
    }
}

/// Handles pending menu clicks: returns the callback calls to make, each
/// with the index of the clicked item.
pub fn process_events<C: Copy>(tray: &TrayIcon<C>, pending: &Vec<u32>) -> (calls: Vec<(C, i32)>)
    ensures
        calls@ == click_targets(tray@, pending@),
{
    proof {
        use_type_invariant(tray);
    }
    let mut calls: Vec<(C, i32)> = Vec::new();
    let mut k: usize = 0;
    while k < pending.len()
        invariant
            k <= pending@.len(),
            ids_are_positions(tray@.items),
            calls@ == click_targets(tray@, pending@.subrange(0, k as int)),
        decreases pending@.len() - k,
    {
        let id = pending[k];
        assert(pending@.subrange(0, k + 1).drop_last() =~= pending@.subrange(0, k as int));
        if let Some(s) = &tray.state {
            if let Some(cb) = s.callback {
                if (id as usize) < s.items.len() {
                    let ghost i = id as int;
                    assert(tray@.items[i].id == id);
                    assert forall|j: int| 0 <= j < i implies tray@.items[j].id != id by {
                        assert(tray@.items[j].id == j as u32);
                    }
                    assert(first_with_id(tray@.items, id, i));
                    assert forall|j: int| #[trigger] first_with_id(tray@.items, id, j) implies j == i by {
                        if j > i {
                            assert(tray@.items[i].id == id);
                        }
                    }
                    calls.push((cb, id as i32));
                } else {
                    assert forall|j: int| !#[trigger] first_with_id(tray@.items, id, j) by {
                        if 0 <= j < tray@.items.len() {
                            assert(tray@.items[j].id == j as u32);
                        }
                    }
                }
            }
        }
        k = k + 1;
    }
    assert(pending@.subrange(0, pending@.len() as int) =~= pending@);
    calls
}

/// Every added entry, separators included, takes the next position of
/// the menu: indices returned by successive adds are distinct.
pub proof fn lemma_each_entry_gets_its_own_index<C>(
    v: TrayView<C>,
    label: Seq<char>,
    enabled: i32,
    is_separator: i32,
)
    ensures
        after_add(v, label, enabled, is_separator).items.len() == v.items.len() + 1,
        after_add(v, label, enabled, is_separator).items[v.items.len() as int].id == v.items.len() as u32,
        after_add(v, label, enabled, is_separator).items.subrange(0, v.items.len() as int) == v.items,
{
    assert(after_add(v, label, enabled, is_separator).items.subrange(0, v.items.len() as int) =~= v.items);
}

/// A click on an item reports the index that `add_menu_item` returned for
/// it, as long as the callback is registered.
pub proof fn lemma_click_reports_added_index<C>(
    v: TrayView<C>,
    label: Seq<char>,
    enabled: i32,
    cb: C,
)
    requires
        v.created,
        ids_are_positions(v.items),
        v.callback == Some(cb),
        v.items.len() < 0x7fff_ffff,
    ensures
        click_target(after_add(v, label, enabled, 0), v.items.len() as u32) == Some(
            (cb, v.items.len() as i32),
        ),
{
    let w = after_add(v, label, enabled, 0);
    let n = v.items.len() as int;
    assert(w.items[n].id == n as u32);
    assert forall|j: int| 0 <= j < n implies w.items[j].id != n as u32 by {
        assert(w.items[j] == v.items[j]);
        assert(v.items[j].id == j as u32);
    }
    assert(first_with_id(w.items, n as u32, n));
    assert forall|j: int| #[trigger] first_with_id(w.items, n as u32, j) implies j == n by {
        if j > n {
        }
    }
}


/// What became of a new icon image: it could not be read or made into an
/// icon, the tray host refused it, or it is shown.
#[derive(Clone, Copy, Debug, PartialEq, Eq, Structural)]
pub enum IconOutcome {
    BadImage,
    Refused,
    Shown,
}

/// The status of setting the tray's icon: -3 for a missing or unreadable
/// source, -1 when there is no tray, -3 when the image could not be made
/// into an icon, -4 when the host refused it, 0 when it is shown.
pub open spec fn icon_status_of<C>(v: TrayView<C>, source_ok: bool, outcome: IconOutcome) -> i32 {
    if !source_ok {
        -3i32
    } else if !v.created {
        -1i32
    } else {
        match outcome {
            IconOutcome::BadImage => -3i32,
            IconOutcome::Refused => -4i32,
            IconOutcome::Shown => 0i32,
        }
    }
}

/// The status of setting the tray's icon from a file or from image bytes
/// (see [`icon_status_of`]); `outcome` is consulted only when the source is
/// valid and the tray exists.
pub fn icon_status<C>(tray: &TrayIcon<C>, source_ok: bool, outcome: IconOutcome) -> (r: i32)
    ensures
        r == icon_status_of(tray@, source_ok, outcome),
{
    if !source_ok {
        -3
    } else if tray.state.is_none() {
        -1
    } else {
        match outcome {
            IconOutcome::BadImage => -3,
            IconOutcome::Refused => -4,
            IconOutcome::Shown => 0,
        }
    }
}

/// Side of the default tray icon, in pixels.
pub const DEFAULT_ICON_SIZE: u32 = 22;

/// Pixel (`x`, `y`) of the default icon lies in its disc: within 10 pixels
/// of the centre (11, 11).
pub open spec fn in_default_disc(x: int, y: int) -> bool {
    (x - 11) * (x - 11) + (y - 11) * (y - 11) <= 100
}

/// Byte `j` of the default icon's RGBA pixels, row by row: blue
/// (59, 130, 246, 255) inside the disc, transparent outside.
pub open spec fn default_icon_byte(j: int) -> u8 {
    let p = j / 4;
    let k = j % 4;
    if in_default_disc(p % 22, p / 22) {
        if k == 0 {
            59u8
        } else if k == 1 {
            130u8
        } else if k == 2 {
            246u8
        } else {
            255u8
        }
    } else {
        0u8
    }
}

/// The RGBA pixels of the default tray icon: a blue disc on a transparent
/// 22 by 22 square.
pub fn default_icon_rgba() -> (rgba: Vec<u8>)
    ensures
        rgba@.len() == 22 * 22 * 4,
        forall|j: int| 0 <= j < rgba@.len() ==> rgba@[j] == default_icon_byte(j),
{
    let mut rgba: Vec<u8> = Vec::new();
    let mut i: usize = 0;
    while i < 484
        invariant
            i <= 484,
            rgba@.len() == 4 * i,
            forall|j: int| 0 <= j < rgba@.len() ==> rgba@[j] == default_icon_byte(j),
        decreases 484 - i,
    {
        let x = (i % 22) as i32;
        let y = (i / 22) as i32;
        let dx = x - 11;
        let dy = y - 11;
        assert(0 <= dx * dx <= 121) by (nonlinear_arith)
            requires
                -11 <= dx <= 11,
        ;
        assert(0 <= dy * dy <= 121) by (nonlinear_arith)
            requires
                -11 <= dy <= 11,
        ;
        let inside = dx * dx + dy * dy <= 100;
        let px: [u8; 4] = if inside {
            [59, 130, 246, 255]
        } else {
            [0, 0, 0, 0]
        };
        let ghost before = rgba@;
        rgba.push(px[0]);
        rgba.push(px[1]);
        rgba.push(px[2]);
        rgba.push(px[3]);
        proof {
            assert forall|k: int| 0 <= k < 4 implies (#[trigger] ((4 * i + k) / 4)) == i && (4 * i
                + k) % 4 == k by {
                vstd::arithmetic::div_mod::lemma_fundamental_div_mod_converse(
                    4 * i + k,
                    4,
                    i as int,
                    k,
                );
            }
            assert(in_default_disc(i as int % 22, i as int / 22) == inside);
            assert forall|j: int| 0 <= j < rgba@.len() implies rgba@[j] == default_icon_byte(j) by {
                if j >= 4 * i {
                    let k = j - 4 * i;
                    assert((4 * i + k) / 4 == i);
                }
            }
        }
        i = i + 1;
    }
    rgba
}

} // verus!
