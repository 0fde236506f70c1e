use vstd::prelude::*;
use vstd::string::*;

use crate::color::{Color, ColorView, PaletteColor, palette_view};
use crate::entry::{Entry, EntryView, Tag, empty_entry, entry_matches};

verus! {

/// The content of the store.
pub struct AppView {
    pub label: Seq<char>,
    pub generating_entry: bool,
    pub entries: Seq<EntryView>,
    pub draft: EntryView,
    pub pinned: Option<usize>,
    pub title_color: ColorView,
    pub name_color: ColorView,
    pub setting_preferences: bool,
    pub search: Seq<char>,
}

/// The part of the store that outlives the process.
pub struct SavedView {
    pub label: Seq<char>,
    pub entries: Seq<EntryView>,
    pub title_color: ColorView,
    pub name_color: ColorView,
}

/// A pin, when present, names a valid position in the list.
pub open spec fn app_wf(v: AppView) -> bool {
    match v.pinned {
        Some(i) => i < v.entries.len(),
        None => true,
    }
}

pub open spec fn entries_view(entries: Seq<Entry>) -> Seq<EntryView> {
    entries.map_values(|e: Entry| e@)
}

/// The store as it starts when nothing was saved.
pub open spec fn default_view() -> AppView {
    AppView {
        label: "Hello World!"@,
        generating_entry: false,
        entries: Seq::empty(),
        draft: empty_entry(),
        pinned: None,
        title_color: palette_view(PaletteColor::Black),
        name_color: palette_view(PaletteColor::Black),
        setting_preferences: false,
        search: Seq::empty(),
    }
}

/// What is saved of a store: entries, color preferences and label.
pub open spec fn persist_spec(v: AppView) -> SavedView {
    SavedView {
        label: v.label,
        entries: v.entries,
        title_color: v.title_color,
        name_color: v.name_color,
    }
}

/// The store rebuilt from saved state; what is not saved starts afresh.
pub open spec fn restore_spec(s: SavedView) -> AppView {
    AppView {
        label: s.label,
        generating_entry: false,
        entries: s.entries,
        draft: empty_entry(),
        pinned: None,
        title_color: s.title_color,
        name_color: s.name_color,
        setting_preferences: false,
        search: Seq::empty(),
    }
}

/// Committing the draft: it is appended to the list and reset.
pub open spec fn create_spec(v: AppView) -> AppView {
    AppView {
        entries: v.entries.push(v.draft),
        draft: empty_entry(),
        generating_entry: false,
        ..v
    }
}

/// Where the pin points after the entry at `index` is removed: nowhere if it
/// was that entry, one place lower if it was after it.
pub open spec fn pin_after_delete(pinned: Option<usize>, index: usize) -> Option<usize> {
    match pinned {
        Some(p) => if p == index {
            None
        } else if p > index {
            Some((p - 1) as usize)
        } else {
            Some(p)
        },
        None => None,
    }
}

pub open spec fn delete_spec(v: AppView, index: usize) -> AppView {
    AppView {
        entries: v.entries.remove(index as int),
        pinned: pin_after_delete(v.pinned, index),
        ..v
    }
}

pub open spec fn pin_spec(v: AppView, index: usize) -> AppView {
    AppView { pinned: Some(index), ..v }
}

pub open spec fn clear_spec(v: AppView) -> AppView {
    AppView { entries: Seq::empty(), pinned: None, ..v }
}

/// The positions, among the first `n` entries, of those that match `query`,
/// in increasing order.
pub open spec fn matching_indices(entries: Seq<EntryView>, query: Seq<char>, n: nat) -> Seq<usize>
    decreases n,
{
    if n == 0 {
        Seq::empty()
    } else {
        let before = matching_indices(entries, query, (n - 1) as nat);
        if entry_matches(entries[n - 1], query) {
            before.push((n - 1) as usize)
        } else {
            before
        }
    }
}

/// Deleting the pinned entry leaves nothing pinned: pinning position `i` and
/// then deleting position `i` gives no pin.
pub proof fn lemma_pin_then_delete(v: AppView, i: usize)
    requires
        app_wf(v),
        i < v.entries.len(),
    ensures
        delete_spec(pin_spec(v, i), i).pinned.is_none(),
        app_wf(delete_spec(pin_spec(v, i), i)),
{
}

/// Deleting another entry keeps the pin on the same entry: after the delete
/// the pin still names a valid position, and the entry there is the one that
/// was pinned before.
pub proof fn lemma_delete_keeps_pinned_entry(v: AppView, index: usize)
    requires
        app_wf(v),
        index < v.entries.len(),
        v.pinned.is_some(),
        v.pinned != Some(index),
    ensures
        ({
            let w = delete_spec(v, index);
            &&& w.pinned.is_some()
            &&& app_wf(w)
            &&& w.entries[w.pinned.unwrap() as int] == v.entries[v.pinned.unwrap() as int]
        }),
{
}

/// Saving a store and restoring it gives back its entries, in order, its
/// color preferences and its label; saving the restored store gives the same
/// saved state again.
pub proof fn lemma_save_restore(v: AppView)
    ensures
        restore_spec(persist_spec(v)).entries == v.entries,
        restore_spec(persist_spec(v)).title_color == v.title_color,
        restore_spec(persist_spec(v)).name_color == v.name_color,
        restore_spec(persist_spec(v)).label == v.label,
        app_wf(restore_spec(persist_spec(v))),
        persist_spec(restore_spec(persist_spec(v))) == persist_spec(v),
{
}

/// The saved part of a store.
pub struct SavedState {
    pub label: String,
    pub entries: Vec<Entry>,
    pub title_color: Color,
    pub name_color: Color,
}

impl View for SavedState {
    type V = SavedView;

    open spec fn view(&self) -> SavedView {
        SavedView {
            label: self.label@,
            entries: entries_view(self.entries@),
            title_color: self.title_color@,
            name_color: self.name_color@,
        }
    }
}

/// The entry store and the state of the view around it.
pub struct TemplateApp {
    label: String,
    generating_entry: bool,
    entries: Vec<Entry>,
    temp_entry: Entry,
    pined_entry: Option<usize>,
    title_color: Color,
    name_color: Color,
    setting_preferences: bool,
    search: String,
}

impl View for TemplateApp {
    type V = AppView;

    closed spec fn view(&self) -> AppView {
        AppView {
            label: self.label@,
            generating_entry: self.generating_entry,
            entries: entries_view(self.entries@),
            draft: self.temp_entry@,
            pinned: self.pined_entry,
            title_color: self.title_color@,
            name_color: self.name_color@,
            setting_preferences: self.setting_preferences,
            search: self.search@,
        }
    }
}

impl Default for TemplateApp {
    fn default() -> (r: Self)
        ensures
            r@ == default_view(),
            r.wf(),
    {
        let r = TemplateApp {
            label: String::from_str("Hello World!"),
            generating_entry: false,
            entries: Vec::new(),
            temp_entry: Entry::new(),
            pined_entry: None,
            title_color: Color::new(),
            name_color: Color::new(),
            setting_preferences: false,
            search: String::new(),
        };
        assert(r@.entries =~= Seq::<EntryView>::empty());
        r
    }
}

/// Copies a list of entries one by one.
fn copy_entries(entries: &Vec<Entry>) -> (r: Vec<Entry>)
    ensures
        entries_view(r@) == entries_view(entries@),
{
    let mut r: Vec<Entry> = Vec::new();
    let mut i: usize = 0;
    while i < entries.len()
        invariant
            i <= entries@.len(),
            r@.len() == i,
            forall|k: int| 0 <= k < i ==> #[trigger] r@[k]@ == entries@[k]@,
        decreases entries@.len() - i,
    {
        let e = entries[i].clone();
        r.push(e);
        i = i + 1;
    }
    assert(entries_view(r@) =~= entries_view(entries@));
    r
}

impl TemplateApp {
    pub open spec fn wf(&self) -> bool {
        app_wf(self@)
    }

    /// The store restored from saved state, or the default store when
    /// nothing was saved.
    pub fn new(saved: Option<SavedState>) -> (r: Self)
        ensures
            r.wf(),
            r@ == match saved {
                Some(s) => restore_spec(s@),
                None => default_view(),
            },
    {
        match saved {
            Some(s) => TemplateApp {
                label: s.label,
                generating_entry: false,
                entries: s.entries,
                temp_entry: Entry::new(),
                pined_entry: None,
                title_color: s.title_color,
                name_color: s.name_color,
                setting_preferences: false,
                search: String::new(),
            },
            None => TemplateApp::default(),
        }
    }

    /// The state to be saved: entries, color preferences and label.
    pub fn persisted(&self) -> (r: SavedState)
        ensures
            r@ == persist_spec(self@),
    {
        SavedState {
            label: self.label.clone(),
            entries: copy_entries(&self.entries),
            title_color: self.title_color.clone(),
            name_color: self.name_color.clone(),
        }
    }

    /// Appends an entry built from the draft, then resets the draft and
    /// closes the creation dialog.
    pub fn create_entry(&mut self)
        requires
            old(self).wf(),
        ensures
            final(self).wf(),
            final(self)@ == create_spec(old(self)@),
            final(self)@.entries.len() == old(self)@.entries.len() + 1,
            final(self)@.entries.last() == old(self)@.draft,
            final(self)@.draft == empty_entry(),
    {
        let e = Entry::from_str(
            self.temp_entry.name.as_str(),
            self.temp_entry.owner.as_str(),
            self.temp_entry.date.as_str(),
            self.temp_entry.location.as_str(),
            self.temp_entry.tags.as_slice(),
            self.temp_entry.status.as_str(),
        );
        assert(e@ == self.temp_entry@);
        self.entries.push(e);
        self.temp_entry.clear();
        self.generating_entry = false;
        assert(self@.entries =~= old(self)@.entries.push(old(self)@.draft));
    }

    /// Removes the entry at `index`. A pin on it is dropped; a pin on a later
    /// entry follows that entry to its new position.
    pub fn delete_entry(&mut self, index: usize)
        requires
            old(self).wf(),
            index < old(self)@.entries.len(),
        ensures
            final(self).wf(),
            final(self)@ == delete_spec(old(self)@, index),
            final(self)@.entries.len() == old(self)@.entries.len() - 1,
            final(self)@.entries == old(self)@.entries.remove(index as int),
            old(self)@.pinned == Some(index) ==> final(self)@.pinned.is_none(),
    {
        if self.pined_entry == Some(index) {
            self.pined_entry = None;
        } else if let Some(p) = self.pined_entry {
            if p > index {
                self.pined_entry = Some(p - 1);
            }
        }
        self.entries.remove(index);
        assert(self@.entries =~= old(self)@.entries.remove(index as int));
    }

    /// Pins the entry at `index` for focused display.
    pub fn pin_entry(&mut self, index: usize)
        requires
            index < old(self)@.entries.len(),
        ensures
            final(self).wf(),
            final(self)@ == pin_spec(old(self)@, index),
    {
        self.pined_entry = Some(index);
    }

    pub fn unpin_entry(&mut self)
        ensures
            final(self)@ == (AppView { pinned: None, ..old(self)@ }),
            final(self).wf(),
    {
        self.pined_entry = None;
    }

    /// Removes every entry and drops the pin.
    pub fn clear_all_entries(&mut self)
        ensures
            final(self).wf(),
            final(self)@ == clear_spec(old(self)@),
            final(self)@.entries.len() == 0,
            final(self)@.pinned.is_none(),
    {
        self.entries.clear();
        self.pined_entry = None;
        assert(self@.entries =~= Seq::<EntryView>::empty());
    }

    /// The positions of the entries that match `query`, in list order; the
    /// empty query gives every position.
    pub fn filter(&self, query: &str) -> (r: Vec<usize>)
        ensures
            r@ == matching_indices(self@.entries, query@, self@.entries.len()),
            query@.len() == 0 ==> r@ == Seq::new(self@.entries.len(), |k: int| k as usize),
    {
        let mut r: Vec<usize> = Vec::new();
        let mut i: usize = 0;
        while i < self.entries.len()
            invariant
                i <= self@.entries.len(),
                self@.entries.len() == self.entries@.len(),
                r@ == matching_indices(self@.entries, query@, i as nat),
                query@.len() == 0 ==> r@ =~= Seq::new(i as nat, |k: int| k as usize),
            decreases self@.entries.len() - i,
        {
            assert(self.entries@[i as int]@ == self@.entries[i as int]);
            if self.entries[i].contains(query) {
                r.push(i);
            }
            i = i + 1;
            assert(query@.len() == 0 ==> r@ =~= Seq::new(i as nat, |k: int| k as usize));
        }
        r
    }

    /// The positions of the entries that match the current search text.
    pub fn visible_entries(&self) -> (r: Vec<usize>)
        ensures
            r@ == matching_indices(self@.entries, self@.search, self@.entries.len()),
    {
        self.filter(self.search.as_str())
    }

    pub fn entries_len(&self) -> (r: usize)
        ensures
            r == self@.entries.len(),
    {
        self.entries.len()
    }

    pub fn entry(&self, index: usize) -> (r: &Entry)
        requires
            index < self@.entries.len(),
        ensures
            r@ == self@.entries[index as int],
    {
        &self.entries[index]
    }

    pub fn pinned(&self) -> (r: Option<usize>)
        ensures
            r == self@.pinned,
    {
        self.pined_entry
    }

    /// The pinned entry, if there is one.
    pub fn pinned_entry(&self) -> (r: Option<&Entry>)
        requires
            self.wf(),
        ensures
            match self@.pinned {
                Some(i) => r.is_some() && r.unwrap()@ == self@.entries[i as int],
                None => r.is_none(),
            },
    {
        match self.pined_entry {
            Some(i) => Some(&self.entries[i]),
            None => None,
        }
    }

    pub fn draft(&self) -> (r: &Entry)
        ensures
            r@ == self@.draft,
    {
        &self.temp_entry
    }

    /// Replaces the draft being composed.
    pub fn set_draft(&mut self, draft: Entry)
        ensures
            final(self)@ == (AppView { draft: draft@, ..old(self)@ }),
    {
        self.temp_entry = draft;
    }

    /// Appends a tag to the draft.
    pub fn add_draft_tag(&mut self, tag: &str)
        ensures
            final(self)@ == (AppView {
                draft: EntryView { tags: old(self)@.draft.tags.push(tag@), ..old(self)@.draft },
                ..old(self)@
            }),
    {
        self.temp_entry.tags.push(Tag::from_str(tag));
        assert(self@.draft.tags =~= old(self)@.draft.tags.push(tag@));
    }

    pub fn label(&self) -> (r: &String)
        ensures
            r@ == self@.label,
    {
        &self.label
    }

    pub fn set_label(&mut self, label: String)
        ensures
            final(self)@ == (AppView { label: label@, ..old(self)@ }),
    {
        self.label = label;
    }

    pub fn search(&self) -> (r: &String)
        ensures
            r@ == self@.search,
    {
        &self.search
    }

    pub fn set_search(&mut self, search: String)
        ensures
            final(self)@ == (AppView { search: search@, ..old(self)@ }),
    {
        self.search = search;
    }

    pub fn title_color(&self) -> (r: &Color)
        ensures
            r@ == self@.title_color,
    {
        &self.title_color
    }

    pub fn name_color(&self) -> (r: &Color)
        ensures
            r@ == self@.name_color,
    {
        &self.name_color
    }

    /// Selects palette color `p` for titles.
    pub fn set_title_color(&mut self, p: PaletteColor)
        ensures
            final(self)@ == (AppView { title_color: palette_view(p), ..old(self)@ }),
    {
        self.title_color = Color::from_palette(p);
    }

    /// Selects palette color `p` for the owner label.
    pub fn set_name_color(&mut self, p: PaletteColor)
        ensures
            final(self)@ == (AppView { name_color: palette_view(p), ..old(self)@ }),
    {
        self.name_color = Color::from_palette(p);
    }

    pub fn is_generating_entry(&self) -> (r: bool)
        ensures
            r == self@.generating_entry,
    {
        self.generating_entry
    }

    /// Opens the dialog in which the draft is composed.
    pub fn open_entry_dialog(&mut self)
        ensures
            final(self)@ == (AppView { generating_entry: true, ..old(self)@ }),
    {
        self.generating_entry = true;
    }

    pub fn is_setting_preferences(&self) -> (r: bool)
        ensures
            r == self@.setting_preferences,
    {
        self.setting_preferences
    }

    pub fn open_preferences(&mut self)
        ensures
            final(self)@ == (AppView { setting_preferences: true, ..old(self)@ }),
    {
        self.setting_preferences = true;
    }

    pub fn close_preferences(&mut self)
        ensures
            final(self)@ == (AppView { setting_preferences: false, ..old(self)@ }),
    {
        self.setting_preferences = false;
    }
}

} // verus!
