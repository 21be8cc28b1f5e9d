//! Request-body descriptors: which media types a body may arrive as, the
//! schema of each, and whether the body is mandatory.

use vstd::prelude::*;

verus! {

/// What is known of a body under one media type: the schema of its content.
#[derive(Debug, PartialEq)]
pub struct MediaType {
    pub schema: schemars::schema::SchemaObject,
}

impl Clone for MediaType {
    fn clone(&self) -> (copy: MediaType)
        ensures
            copy == *self,
    {
        MediaType { schema: self.schema.clone() }
    }
}

/// The media types of a descriptor, each with what is known of it.
///
/// A `Content` is a finite map from media-type strings to [`MediaType`]s. No
/// media type occurs in it twice.
#[derive(Debug)]
pub struct Content {
    entries: Vec<(String, MediaType)>,
}

/// Whether `key` is the media type of one of the first `n` entries.
pub open spec fn key_among(entries: Seq<(String, MediaType)>, n: int, key: Seq<char>) -> bool {
    exists|i: int| 0 <= i < n && (#[trigger] entries[i]).0@ == key
}

/// The position of `key` among the entries, where it is one of them.
pub open spec fn index_of(entries: Seq<(String, MediaType)>, key: Seq<char>) -> int {
    choose|i: int| 0 <= i < entries.len() && (#[trigger] entries[i]).0@ == key
}

/// No media type stands at two positions.
pub open spec fn distinct_keys(entries: Seq<(String, MediaType)>) -> bool {
    forall|i: int, j: int|
        0 <= i < j < entries.len() ==> (#[trigger] entries[i]).0@ != (#[trigger] entries[j]).0@
}

/// The map that a sequence of entries with distinct media types stands for.
pub open spec fn entries_map(entries: Seq<(String, MediaType)>) -> Map<Seq<char>, MediaType> {
    Map::new(
        |key: Seq<char>| key_among(entries, entries.len() as int, key),
        |key: Seq<char>| entries[index_of(entries, key)].1,
    )
}

/// The media types of the first `n` entries.
pub open spec fn keys_before(entries: Seq<(String, MediaType)>, n: int) -> Set<Seq<char>> {
    Set::new(|key: Seq<char>| key_among(entries, n, key))
}

/// Entries with distinct media types stand for a finite map with as many
/// keys as there are entries.
proof fn lemma_keys_counted(entries: Seq<(String, MediaType)>, n: int)
    requires
        distinct_keys(entries),
        0 <= n <= entries.len(),
    ensures
        keys_before(entries, n).finite(),
        keys_before(entries, n).len() == n,
    decreases n,
{
    if n == 0 {
        assert(keys_before(entries, 0) =~= Set::<Seq<char>>::empty());
    } else {
        lemma_keys_counted(entries, n - 1);
        let last = entries[n - 1].0@;
        assert(!keys_before(entries, n - 1).contains(last));
        assert(keys_before(entries, n) =~= keys_before(entries, n - 1).insert(last));
    }
}

impl View for Content {
    type V = Map<Seq<char>, MediaType>;

    closed spec fn view(&self) -> Map<Seq<char>, MediaType> {
        entries_map(self.entries@)
    }
}

impl Clone for Content {
    fn clone(&self) -> (copy: Content)
        ensures
            copy@ == self@,
    {
        proof {
            use_type_invariant(self);
        }
        let mut entries: Vec<(String, MediaType)> = Vec::new();
        let mut i: usize = 0;
        while i < self.entries.len()
            invariant
                i <= self.entries@.len(),
                entries@ == self.entries@.take(i as int),
            decreases self.entries@.len() - i,
        {
            let entry = &self.entries[i];
            entries.push((entry.0.clone(), entry.1.clone()));
            i += 1;
            assert(entries@ =~= self.entries@.take(i as int));
        }
        assert(entries@ =~= self.entries@);
        Content { entries }
    }
}

impl Content {
    #[verifier::type_invariant]
    spec fn well_formed(&self) -> bool {
        distinct_keys(self.entries@)
    }

    /// A content without media types.
    pub fn new() -> (content: Content)
        ensures
            content@ == Map::<Seq<char>, MediaType>::empty(),
    {
        let content = Content { entries: Vec::new() };
        assert(content@ =~= Map::<Seq<char>, MediaType>::empty());
        content
    }

    /// How many media types the content holds.
    pub fn len(&self) -> (n: usize)
        ensures
            self@.dom().finite(),
            n == self@.len(),
    {
        proof {
            use_type_invariant(self);
            lemma_keys_counted(self.entries@, self.entries@.len() as int);
            assert(self@.dom() =~= keys_before(self.entries@, self.entries@.len() as int));
        }
        self.entries.len()
    }

    /// The position at which `media_type` stands, if it is in the content.
    fn position(&self, media_type: &String) -> (found: Option<usize>)
        ensures
            match found {
                Some(i) => i < self.entries@.len() && self.entries@[i as int].0@ == media_type@,
                None => !key_among(self.entries@, self.entries@.len() as int, media_type@),
            },
    {
        let mut i: usize = 0;
        while i < self.entries.len()
            invariant
                i <= self.entries@.len(),
                !key_among(self.entries@, i as int, media_type@),
            decreases self.entries@.len() - i,
        {
            if self.entries[i].0 == *media_type {
                return Some(i);
            }
            i += 1;
        }
        None
    }

    /// What the content holds under `media_type`, if anything.
    pub fn get(&self, media_type: &str) -> (found: Option<&MediaType>)
        ensures
            match found {
                Some(media) => self@.contains_key(media_type@) && *media == self@[media_type@],
                None => !self@.contains_key(media_type@),
            },
    {
        let key = media_type.to_owned();
        match self.position(&key) {
            Some(i) => {
                proof {
                    use_type_invariant(self);
                    let j = index_of(self.entries@, media_type@);
                    assert(j == i);
                }
                Some(&self.entries[i].1)
            },
            None => None,
        }
    }

    /// Puts `media` under `media_type`, in place of what was there before.
    pub fn insert(&mut self, media_type: String, media: MediaType)
        ensures
            final(self)@ == old(self)@.insert(media_type@, media),
    {
        proof {
            use_type_invariant(&*self);
        }
        let ghost before = self.entries@;
        let found = self.position(&media_type);
        let ghost slot: int = match found {
            Some(i) => i as int,
            None => before.len() as int,
        };
        let mut entries: Vec<(String, MediaType)> = Vec::new();
        std::mem::swap(&mut self.entries, &mut entries);
        match found {
            Some(i) => {
                entries.set(i, (media_type, media));
            },
            None => {
                entries.push((media_type, media));
            },
        }
        proof {
            lemma_put(before, entries@, slot);
        }
        std::mem::swap(&mut self.entries, &mut entries);
    }

    /// The entries of the content, each media type once.
    pub fn into_entries(self) -> (entries: Vec<(String, MediaType)>)
        ensures
            distinct_keys(entries@),
            entries_map(entries@) == self@,
    {
        proof {
            use_type_invariant(&self);
        }
        self.entries
    }
}

/// Putting an entry at the position of its media type, or behind all others
/// where the media type is new, keeps the media types distinct and stands for
/// an insertion into the map.
proof fn lemma_put(
    before: Seq<(String, MediaType)>,
    after: Seq<(String, MediaType)>,
    slot: int,
)
    requires
        distinct_keys(before),
        0 <= slot <= before.len(),
        slot < before.len() ==> after == before.update(slot, after[slot]) && before[slot].0@
            == after[slot].0@,
        slot == before.len() ==> after == before.push(after[slot]) && !key_among(
            before,
            before.len() as int,
            after[slot].0@,
        ),
    ensures
        distinct_keys(after),
        entries_map(after) == entries_map(before).insert(after[slot].0@, after[slot].1),
{
    let key = after[slot].0@;
    assert(0 <= slot < after.len());
    assert forall|i: int| 0 <= i < after.len() && i != slot implies #[trigger] after[i]
        == before[i] && after[i].0@ != key by {
        if slot < before.len() {
            if i < slot {
                assert(before[i].0@ != before[slot].0@);
            } else {
                assert(before[slot].0@ != before[i].0@);
            }
        }
    }
    assert(distinct_keys(after)) by {
        assert forall|i: int, j: int| 0 <= i < j < after.len() implies (#[trigger] after[i]).0@
            != (#[trigger] after[j]).0@ by {
            if i != slot && j != slot {
                assert(before[i].0@ != before[j].0@);
            }
        }
    }
    let inserted = entries_map(before).insert(key, after[slot].1);
    assert forall|k: Seq<char>| entries_map(after).contains_key(k) <==> inserted.contains_key(
        k,
    ) by {
        if entries_map(after).contains_key(k) && k != key {
            let i = choose|i: int| 0 <= i < after.len() && (#[trigger] after[i]).0@ == k;
            assert(before[i].0@ == k);
        }
        if entries_map(before).contains_key(k) && k != key {
            let i = choose|i: int| 0 <= i < before.len() && (#[trigger] before[i]).0@ == k;
            assert(after[i].0@ == k);
        }
        if k == key {
            assert(after[slot].0@ == k);
        }
    }
    assert forall|k: Seq<char>| entries_map(after).contains_key(k) implies entries_map(after)[k]
        == inserted[k] by {
        let i = index_of(after, k);
        if i != slot {
            assert(before[i].0@ == k);
            let j = index_of(before, k);
            if j < i {
                assert(before[j].0@ != before[i].0@);
            } else if i < j {
                assert(before[i].0@ != before[j].0@);
            }
        }
    }
    assert(entries_map(after) =~= inserted);
}

/// The descriptor of a request body: the media types under which it may
/// arrive and whether a request must carry it.
#[derive(Debug)]
pub struct RequestBody {
    pub content: Content,
    pub required: bool,
}

/// What a [`RequestBody`] stands for.
pub struct RequestBodyView {
    pub content: Map<Seq<char>, MediaType>,
    pub required: bool,
}

impl RequestBodyView {
    /// The mandatory body that arrives as `media_type` alone, with `schema`.
    pub open spec fn single(
        media_type: Seq<char>,
        schema: schemars::schema::SchemaObject,
    ) -> RequestBodyView {
        RequestBodyView { content: map![media_type => (MediaType { schema })], required: true }
    }

    /// The same body, which a request may now leave out.
    pub open spec fn optional(self) -> RequestBodyView {
        RequestBodyView { content: self.content, required: false }
    }

    /// The body arrives under exactly one media type.
    pub open spec fn has_one_media_type(self) -> bool {
        exists|media_type: Seq<char>| self.content.dom() == set![media_type]
    }
}

impl View for RequestBody {
    type V = RequestBodyView;

    open spec fn view(&self) -> RequestBodyView {
        RequestBodyView { content: self.content@, required: self.required }
    }
}

impl Clone for RequestBody {
    fn clone(&self) -> (copy: RequestBody)
        ensures
            copy@ == self@,
    {
        RequestBody { content: self.content.clone(), required: self.required }
    }
}

impl RequestBody {
    /// The mandatory body that arrives as `media_type` alone, with `schema`.
    pub fn single(media_type: &str, schema: schemars::schema::SchemaObject) -> (body: RequestBody)
        ensures
            body@ == RequestBodyView::single(media_type@, schema),
    {
        let mut content = Content::new();
        content.insert(media_type.to_owned(), MediaType { schema });
        RequestBody { content, required: true }
    }

    /// The same body, which a request may now leave out.
    pub fn optional(self) -> (body: RequestBody)
        ensures
            body@ == self@.optional(),
    {
        RequestBody { content: self.content, required: false }
    }
}

} // verus!
