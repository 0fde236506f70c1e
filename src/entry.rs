use vstd::prelude::*;
use vstd::string::*;

verus! {

/// Case-insensitive view of a string, as `str::to_lowercase` computes it.
pub uninterp spec fn lower_of(s: Seq<char>) -> Seq<char>;

/// `needle` occurs in `hay` as a contiguous run of characters.
pub open spec fn is_substring(needle: Seq<char>, hay: Seq<char>) -> bool {
    exists|i: int|
        0 <= i && i + needle.len() <= hay.len() && #[trigger] hay.subrange(i, i + needle.len())
            == needle
}

/// Relies on `str::to_lowercase`: the result depends on the characters alone,
/// and the empty string stays empty.
#[verifier::external_body]
fn lowercase(s: &str) -> (r: String)
    ensures
        r@ == lower_of(s@),
        s@.len() == 0 ==> r@.len() == 0,
{
    s.to_lowercase()
}

/// Relies on `str::contains` with a `&str` pattern: true exactly when the
/// pattern occurs in the string as a contiguous run.
#[verifier::external_body]
fn str_contains(hay: &str, needle: &str) -> (r: bool)
    ensures
        r == is_substring(needle@, hay@),
{
    hay.contains(needle)
}

/// A label attached to an entry. Two tags are equal when their names are.
pub struct Tag {
    pub name: String,
}

impl View for Tag {
    type V = Seq<char>;

    open spec fn view(&self) -> Seq<char> {
        self.name@
    }
}

impl Clone for Tag {
    fn clone(&self) -> (r: Self)
        ensures
            r == *self,
    {
        Tag { name: self.name.clone() }
    }
}

impl PartialEq for Tag {
    fn eq(&self, other: &Tag) -> (r: bool) {
        self.name == other.name
    }
}

impl vstd::std_specs::cmp::PartialEqSpecImpl for Tag {
    open spec fn obeys_eq_spec() -> bool {
        true
    }

    open spec fn eq_spec(&self, other: &Tag) -> bool {
        self@ == other@
    }
}

impl Tag {
    pub fn from_str(s: &str) -> (r: Tag)
        ensures
            r@ == s@,
    {
        Tag { name: String::from_str(s) }
    }
}

/// The mathematical content of an entry.
pub struct EntryView {
    pub name: Seq<char>,
    pub owner: Seq<char>,
    pub date: Seq<char>,
    pub location: Seq<char>,
    pub tags: Seq<Seq<char>>,
    pub status: Seq<char>,
}

/// An entry with every field empty and no tags.
pub open spec fn empty_entry() -> EntryView {
    EntryView {
        name: Seq::empty(),
        owner: Seq::empty(),
        date: Seq::empty(),
        location: Seq::empty(),
        tags: Seq::empty(),
        status: Seq::empty(),
    }
}

/// A field matches a query when the lowercased query occurs in the
/// lowercased field.
pub open spec fn text_matches(field: Seq<char>, query: Seq<char>) -> bool {
    is_substring(lower_of(query), lower_of(field))
}

/// The five text fields match the query without regard to case.
pub open spec fn text_fields_match(e: EntryView, query: Seq<char>) -> bool {
    ||| text_matches(e.name, query)
    ||| text_matches(e.date, query)
    ||| text_matches(e.location, query)
    ||| text_matches(e.owner, query)
    ||| text_matches(e.status, query)
}

/// An entry matches a search query when one of its text fields does, or when
/// one of its tags equals the query exactly.
pub open spec fn entry_matches(e: EntryView, query: Seq<char>) -> bool {
    text_fields_match(e, query) || e.tags.contains(query)
}

/// Matching on the five text fields sees the query only through its
/// lowercase form: two queries that lowercase alike match the same entries
/// there, whatever the case of their letters.
pub proof fn lemma_text_match_ignores_case(e: EntryView, q1: Seq<char>, q2: Seq<char>)
    requires
        lower_of(q1) == lower_of(q2),
    ensures
        text_fields_match(e, q1) == text_fields_match(e, q2),
{
}

/// A record: free-form text fields and an ordered list of tags.
pub struct Entry {
    pub name: String,
    pub owner: String,
    pub date: String,
    pub location: String,
    pub tags: Vec<Tag>,
    pub status: String,
}

impl View for Entry {
    type V = EntryView;

    open spec fn view(&self) -> EntryView {
        EntryView {
            name: self.name@,
            owner: self.owner@,
            date: self.date@,
            location: self.location@,
            tags: self.tags@.map_values(|t: Tag| t@),
            status: self.status@,
        }
    }
}

/// Copies the tags one by one.
fn copy_tags(tags: &[Tag]) -> (r: Vec<Tag>)
    ensures
        r@ == tags@,
{
    let mut r: Vec<Tag> = Vec::new();
    let mut i: usize = 0;
    while i < tags.len()
        invariant
            i <= tags@.len(),
            r@ == tags@.subrange(0, i as int),
        decreases tags@.len() - i,
    {
        r.push(tags[i].clone());
        i = i + 1;
    }
    assert(tags@.subrange(0, tags@.len() as int) =~= tags@);
    r
}

impl Clone for Entry {
    fn clone(&self) -> (r: Self)
        ensures
            r@ == self@,
    {
        Entry {
            name: self.name.clone(),
            owner: self.owner.clone(),
            date: self.date.clone(),
            location: self.location.clone(),
            tags: copy_tags(self.tags.as_slice()),
            status: self.status.clone(),
        }
    }
}

/// Whether any of the already lowercased fields holds the already lowercased
/// query.
pub fn any_field_contains(folded_fields: &Vec<String>, folded_query: &str) -> (r: bool)
    ensures
        r == exists|k: int|
            0 <= k < folded_fields@.len() && is_substring(
                folded_query@,
                #[trigger] folded_fields@[k]@,
            ),
{
    let mut i: usize = 0;
    while i < folded_fields.len()
        invariant
            i <= folded_fields@.len(),
            forall|k: int|
                0 <= k < i ==> !is_substring(folded_query@, #[trigger] folded_fields@[k]@),
        decreases folded_fields@.len() - i,
    {
        if str_contains(folded_fields[i].as_str(), folded_query) {
            return true;
        }
        i = i + 1;
    }
    false
}

impl Entry {
    pub fn new() -> (r: Entry)
        ensures
            r@ == empty_entry(),
    {
        let r = Entry {
            name: String::new(),
            owner: String::new(),
            date: String::new(),
            location: String::new(),
            tags: Vec::new(),
            status: String::new(),
        };
        assert(r@.tags =~= Seq::<Seq<char>>::empty());
        r
    }

    pub fn from_str(
        name: &str,
        owner: &str,
        date: &str,
        location: &str,
        tags: &[Tag],
        status: &str,
    ) -> (r: Entry)
        ensures
            r.name@ == name@,
            r.owner@ == owner@,
            r.date@ == date@,
            r.location@ == location@,
            r.tags@ == tags@,
            r.status@ == status@,
    {
        Entry {
            name: String::from_str(name),
            owner: String::from_str(owner),
            date: String::from_str(date),
            location: String::from_str(location),
            tags: copy_tags(tags),
            status: String::from_str(status),
        }
    }

    /// Whether one of the tags is exactly `s`.
    pub fn has_tag(&self, s: &str) -> (r: bool)
        ensures
            r == self@.tags.contains(s@),
    {
        let wanted = Tag::from_str(s);
        let mut i: usize = 0;
        while i < self.tags.len()
            invariant
                i <= self.tags@.len(),
                wanted@ == s@,
                forall|k: int| 0 <= k < i ==> #[trigger] self.tags@[k]@ != s@,
            decreases self.tags@.len() - i,
        {
            if self.tags[i] == wanted {
                assert(self@.tags[i as int] == s@);
                return true;
            }
            i = i + 1;
        }
        assert forall|k: int| 0 <= k < self@.tags.len() implies #[trigger] self@.tags[k] != s@ by {
            assert(self@.tags[k] == self.tags@[k]@);
        }
        false
    }

    /// Whether the entry matches the search query `s`; the empty query
    /// matches every entry.
    pub fn contains(&self, s: &str) -> (r: bool)
        ensures
            r == entry_matches(self@, s@),
            s@.len() == 0 ==> r,
    {
        let query = lowercase(s);
        let mut folded: Vec<String> = Vec::new();
        folded.push(lowercase(self.name.as_str()));
        folded.push(lowercase(self.date.as_str()));
        folded.push(lowercase(self.location.as_str()));
        folded.push(lowercase(self.owner.as_str()));
        folded.push(lowercase(self.status.as_str()));
        let in_text = any_field_contains(&folded, query.as_str());
        proof {
            assert(in_text == text_fields_match(self@, s@)) by {
                if text_fields_match(self@, s@) {
                    if text_matches(self@.name, s@) {
                        assert(is_substring(query@, folded@[0]@));
                    } else if text_matches(self@.date, s@) {
                        assert(is_substring(query@, folded@[1]@));
                    } else if text_matches(self@.location, s@) {
                        assert(is_substring(query@, folded@[2]@));
                    } else if text_matches(self@.owner, s@) {
                        assert(is_substring(query@, folded@[3]@));
                    } else {
                        assert(is_substring(query@, folded@[4]@));
                    }
                }
            }
            if s@.len() == 0 {
                assert(folded@[0]@.subrange(0, 0 + query@.len() as int) =~= query@);
                assert(is_substring(query@, folded@[0]@));
            }
        }
        if in_text {
            return true;
        }
        self.has_tag(s)
    }

    /// Resets every field to empty and removes all tags.
    pub fn clear(&mut self)
        ensures
            final(self)@ == empty_entry(),
    {
        self.name = String::new();
        self.owner = String::new();
        self.date = String::new();
        self.location = String::new();
        self.tags = Vec::new();
        self.status = String::new();
        assert(self@.tags =~= Seq::<Seq<char>>::empty());
    }
}

} // verus!
