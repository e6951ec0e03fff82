//! The records of the service: a player's rating, a list of them for one
//! match, and the attribute map in which the store keeps a rating.
use vstd::prelude::*;
use crate::decimal::{parse_u64, spec_parse_u64};

verus! {

/// A player's rating as the service hands it out and takes it in.
#[derive(Debug)]
pub struct RateInfo {
    pub user_id: String,
    pub user_name: String,
    pub rate: u64,
    /// Whether this player won the match being reported, where that is said.
    pub is_winner: Option<bool>,
}

/// A rating as plain values.
pub struct RateInfoView {
    pub user_id: Seq<char>,
    pub user_name: Seq<char>,
    pub rate: u64,
    pub is_winner: Option<bool>,
}

impl RateInfoView {
    /// The rating that stands for "no such player": empty names, rate zero,
    /// winner unknown.
    pub open spec fn empty() -> RateInfoView {
        RateInfoView {
            user_id: Seq::empty(),
            user_name: Seq::empty(),
            rate: 0,
            is_winner: None,
        }
    }

    /// The same rating with a new rate.
    pub open spec fn with_rate(self, rate: u64) -> RateInfoView {
        RateInfoView { rate, ..self }
    }

    /// The same rating with the winner mark cleared, as the store keeps it.
    pub open spec fn stored(self) -> RateInfoView {
        RateInfoView { is_winner: None, ..self }
    }
}

impl View for RateInfo {
    type V = RateInfoView;

    open spec fn view(&self) -> RateInfoView {
        RateInfoView {
            user_id: self.user_id@,
            user_name: self.user_name@,
            rate: self.rate,
            is_winner: self.is_winner,
        }
    }
}

impl Default for RateInfo {
    fn default() -> (info: Self)
        ensures
            info@ == RateInfoView::empty(),
    {
        RateInfo { user_id: String::new(), user_name: String::new(), rate: 0, is_winner: None }
    }
}

/// The ratings of the players of one match, in the order they were sent.
#[derive(Debug)]
pub struct RateInfoList {
    pub rate_info_list: Vec<RateInfo>,
}

impl View for RateInfoList {
    type V = Seq<RateInfoView>;

    open spec fn view(&self) -> Seq<RateInfoView> {
        self.rate_info_list@.map_values(|r: RateInfo| r@)
    }
}

impl RateInfoList {
    /// The rating at `index`.
    pub fn index(&self, index: usize) -> (info: &RateInfo)
        requires
            index < self@.len(),
        ensures
            info@ == self@[index as int],
    {
        &self.rate_info_list[index]
    }

    /// The rating at `index`, to be changed in place.
    pub fn index_mut(&mut self, index: usize) -> (info: &mut RateInfo)
        requires
            index < old(self)@.len(),
        ensures
            (*info)@ == old(self)@[index as int],
            final(self)@ == old(self)@.update(index as int, (*final(info))@),
    {
        &mut self.rate_info_list[index]
    }
}

/// An attribute value of the store, as far as the service reads it: a
/// string, a number (kept as its decimal text), or anything else.
pub enum AttrValue {
    S(String),
    N(String),
    Other,
}

/// An attribute value as plain values.
pub enum AttrValueView {
    S(Seq<char>),
    N(Seq<char>),
    Other,
}

impl View for AttrValue {
    type V = AttrValueView;

    open spec fn view(&self) -> AttrValueView {
        match self {
            AttrValue::S(s) => AttrValueView::S(s@),
            AttrValue::N(n) => AttrValueView::N(n@),
            AttrValue::Other => AttrValueView::Other,
        }
    }
}

impl Clone for AttrValue {
    fn clone(&self) -> (v: Self)
        ensures
            v@ == self@,
    {
        match self {
            AttrValue::S(s) => AttrValue::S(s.clone()),
            AttrValue::N(n) => AttrValue::N(n.clone()),
            AttrValue::Other => AttrValue::Other,
        }
    }
}

/// The attributes of one stored record, by name; no name occurs twice.
pub struct Item {
    entries: Vec<(String, AttrValue)>,
}

/// No name occurs twice among `entries`.
pub closed spec fn names_distinct(entries: Seq<(String, AttrValue)>) -> bool {
    forall|i: int, j: int|
        0 <= i < entries.len() && 0 <= j < entries.len() && i != j
            ==> #[trigger] entries[i].0@ != #[trigger] entries[j].0@
}

/// Whether some entry is named `name`.
closed spec fn has_name(entries: Seq<(String, AttrValue)>, name: Seq<char>) -> bool {
    exists|i: int| 0 <= i < entries.len() && #[trigger] entries[i].0@ == name
}

/// The position of an entry named `name`.
closed spec fn position(entries: Seq<(String, AttrValue)>, name: Seq<char>) -> int {
    choose|i: int| 0 <= i < entries.len() && #[trigger] entries[i].0@ == name
}

/// The map from names to values that `entries` hold.
closed spec fn entries_map(entries: Seq<(String, AttrValue)>) -> Map<Seq<char>, AttrValueView> {
    Map::new(|k: Seq<char>| has_name(entries, k), |k: Seq<char>| entries[position(entries, k)].1@)
}

/// In distinct entries, the entry named `k` is the one at any position that
/// holds that name.
proof fn lemma_position_unique(entries: Seq<(String, AttrValue)>, i: int)
    requires
        names_distinct(entries),
        0 <= i < entries.len(),
    ensures
        has_name(entries, entries[i].0@),
        position(entries, entries[i].0@) == i,
        entries_map(entries).contains_key(entries[i].0@),
        entries_map(entries)[entries[i].0@] == entries[i].1@,
{
    let k = entries[i].0@;
    assert(has_name(entries, k));
    let p = position(entries, k);
    assert(entries[p].0@ == k);
}

/// Setting the entry at `i` to a pair of the same name sets that name in the map.
proof fn lemma_map_after_set(entries: Seq<(String, AttrValue)>, i: int, name: String, value: AttrValue)
    requires
        names_distinct(entries),
        0 <= i < entries.len(),
        entries[i].0@ == name@,
    ensures
        names_distinct(entries.update(i, (name, value))),
        entries_map(entries.update(i, (name, value))) == entries_map(entries).insert(name@, value@),
{
    let after = entries.update(i, (name, value));
    assert forall|a: int, b: int|
        0 <= a < after.len() && 0 <= b < after.len() && a != b
            implies #[trigger] after[a].0@ != #[trigger] after[b].0@
    by {
        assert(entries[a].0@ != entries[b].0@);
    }
    assert forall|k: Seq<char>|
        #[trigger] entries_map(after).contains_key(k) == entries_map(entries).insert(name@, value@).contains_key(k)
    by {
        if k == name@ {
            assert(after[i].0@ == k);
        } else if has_name(entries, k) {
            let p = position(entries, k);
            assert(after[p].0@ == k);
        } else if has_name(after, k) {
            let p = position(after, k);
            assert(entries[p].0@ == k);
        }
    }
    assert forall|k: Seq<char>| #[trigger] entries_map(after).contains_key(k)
        implies entries_map(after)[k] == entries_map(entries).insert(name@, value@)[k]
    by {
        let p = position(after, k);
        if k == name@ {
            lemma_position_unique(after, i);
        } else {
            assert(entries[p].0@ == k);
            lemma_position_unique(entries, p);
            lemma_position_unique(after, p);
        }
    }
    assert(entries_map(after) =~= entries_map(entries).insert(name@, value@));
}

/// Adding a pair under a new name adds that name to the map.
proof fn lemma_map_after_push(entries: Seq<(String, AttrValue)>, name: String, value: AttrValue)
    requires
        names_distinct(entries),
        forall|j: int| 0 <= j < entries.len() ==> #[trigger] entries[j].0@ != name@,
    ensures
        names_distinct(entries.push((name, value))),
        entries_map(entries.push((name, value))) == entries_map(entries).insert(name@, value@),
{
    let after = entries.push((name, value));
    let n = entries.len() as int;
    assert forall|a: int, b: int|
        0 <= a < after.len() && 0 <= b < after.len() && a != b
            implies #[trigger] after[a].0@ != #[trigger] after[b].0@
    by {
        if a < n && b < n {
            assert(entries[a].0@ != entries[b].0@);
        } else if a < n {
            assert(entries[a].0@ != name@);
        } else {
            assert(entries[b].0@ != name@);
        }
    }
    assert forall|k: Seq<char>|
        #[trigger] entries_map(after).contains_key(k) == entries_map(entries).insert(name@, value@).contains_key(k)
    by {
        if k == name@ {
            assert(after[n].0@ == k);
        } else if has_name(entries, k) {
            let p = position(entries, k);
            assert(after[p].0@ == k);
        } else if has_name(after, k) {
            let p = position(after, k);
            assert(entries[p].0@ == k);
        }
    }
    assert forall|k: Seq<char>| #[trigger] entries_map(after).contains_key(k)
        implies entries_map(after)[k] == entries_map(entries).insert(name@, value@)[k]
    by {
        let p = position(after, k);
        if k == name@ {
            lemma_position_unique(after, n);
        } else {
            assert(entries[p].0@ == k);
            lemma_position_unique(entries, p);
            lemma_position_unique(after, p);
        }
    }
    assert(entries_map(after) =~= entries_map(entries).insert(name@, value@));
}

impl Item {
    /// No attribute name occurs twice.
    #[verifier::type_invariant]
    spec fn names_are_distinct(self) -> bool {
        names_distinct(self.entries@)
    }
}

impl View for Item {
    type V = Map<Seq<char>, AttrValueView>;

    closed spec fn view(&self) -> Map<Seq<char>, AttrValueView> {
        entries_map(self.entries@)
    }
}

impl Item {
    /// A record with no attributes.
    pub fn new() -> (item: Self)
        ensures
            item@ == Map::<Seq<char>, AttrValueView>::empty(),
    {
        let item = Item { entries: Vec::new() };
        assert(item@ =~= Map::<Seq<char>, AttrValueView>::empty());
        item
    }

    /// Sets the attribute `name` to `value`, replacing what it held.
    pub fn insert(&mut self, name: String, value: AttrValue)
        ensures
            final(self)@ == old(self)@.insert(name@, value@),
    {
        proof { use_type_invariant(&*self); }
        let mut entries: Vec<(String, AttrValue)> = Vec::new();
        std::mem::swap(&mut entries, &mut self.entries);
        let ghost old_entries = entries@;
        let n = entries.len();
        let mut i: usize = 0;
        while i < n
            invariant
                n == entries.len(),
                entries@ == old_entries,
                names_distinct(entries@),
                entries_map(entries@) == old(self)@,
                i <= n,
                forall|j: int| 0 <= j < i ==> #[trigger] entries@[j].0@ != name@,
            decreases n - i,
        {
            if entries[i].0 == name {
                proof { lemma_map_after_set(entries@, i as int, name, value); }
                entries.set(i, (name, value));
                self.entries = entries;
                return;
            }
            i = i + 1;
        }
        proof { lemma_map_after_push(entries@, name, value); }
        entries.push((name, value));
        self.entries = entries;
    }

    /// The attribute named `name`, if the record has one.
    pub fn get(&self, name: &str) -> (value: Option<&AttrValue>)
        ensures
            match value {
                Some(v) => self@.contains_key(name@) && self@[name@] == v@,
                None => !self@.contains_key(name@),
            },
    {
        proof { use_type_invariant(self); }
        let key = name.to_owned();
        let n = self.entries.len();
        let mut i: usize = 0;
        while i < n
            invariant
                n == self.entries.len(),
                names_distinct(self.entries@),
                key@ == name@,
                i <= n,
                forall|j: int| 0 <= j < i ==> #[trigger] self.entries@[j].0@ != name@,
            decreases n - i,
        {
            if self.entries[i].0 == key {
                proof { lemma_position_unique(self.entries@, i as int); }
                return Some(&self.entries[i].1);
            }
            i = i + 1;
        }
        proof {
            if has_name(self.entries@, name@) {
                let p = position(self.entries@, name@);
                assert(self.entries@[p].0@ == name@);
            }
        }
        None
    }

    /// The attributes as name and value pairs, each name once.
    pub fn entries(&self) -> (entries: &Vec<(String, AttrValue)>)
        ensures
            forall|i: int|
                0 <= i < entries.len() ==> self@.contains_key(#[trigger] entries@[i].0@)
                    && self@[entries@[i].0@] == entries@[i].1@,
            forall|k: Seq<char>|
                #[trigger] self@.contains_key(k) ==> exists|i: int|
                    0 <= i < entries.len() && #[trigger] entries@[i].0@ == k,
    {
        proof {
            use_type_invariant(self);
            assert forall|i: int| 0 <= i < self.entries.len() implies
                self@.contains_key(#[trigger] self.entries@[i].0@)
                    && self@[self.entries@[i].0@] == self.entries@[i].1@
            by {
                lemma_position_unique(self.entries@, i);
            }
        }
        &self.entries
    }
}

/// Why a stored record could not be read as a rating.
#[derive(Debug, PartialEq, Eq, Structural, Clone, Copy)]
pub enum ItemError {
    /// One of `user_id`, `user_name` and `rate` is missing.
    MissingKey,
    /// `user_id` is not a string.
    UserIdNotString,
    /// `user_name` is not a string.
    UserNameNotString,
    /// `rate` is not a number.
    RateNotNumber,
    /// `rate` is a number that does not read as a `u64`.
    RateUnreadable,
}

/// The name of the attribute that holds a player's id.
pub open spec fn user_id_name() -> Seq<char> {
    "user_id"@
}

/// The name of the attribute that holds a player's name.
pub open spec fn user_name_name() -> Seq<char> {
    "user_name"@
}

/// The name of the attribute that holds a player's rate.
pub open spec fn rate_name() -> Seq<char> {
    "rate"@
}

/// What reading the record `item` as a rating gives.
pub open spec fn spec_rate_info_from_item(item: Map<Seq<char>, AttrValueView>) -> Result<
    RateInfoView,
    ItemError,
> {
    if !(item.contains_key(user_id_name()) && item.contains_key(user_name_name())
        && item.contains_key(rate_name())) {
        Err(ItemError::MissingKey)
    } else {
        match item[user_id_name()] {
            AttrValueView::S(user_id) => match item[user_name_name()] {
                AttrValueView::S(user_name) => match item[rate_name()] {
                    AttrValueView::N(rate) => match spec_parse_u64(rate) {
                        Some(rate) => Ok(
                            RateInfoView { user_id, user_name, rate, is_winner: None },
                        ),
                        None => Err(ItemError::RateUnreadable),
                    },
                    _ => Err(ItemError::RateNotNumber),
                },
                _ => Err(ItemError::UserNameNotString),
            },
            _ => Err(ItemError::UserIdNotString),
        }
    }
}

impl RateInfo {
    /// Reads a stored record as a rating: all three attributes must be
    /// there, the id and the name strings, the rate a number that reads as
    /// a `u64`.
    pub fn try_from(item: &Item) -> (result: Result<RateInfo, ItemError>)
        ensures
            match result {
                Ok(info) => spec_rate_info_from_item(item@) == Ok::<RateInfoView, ItemError>(info@),
                Err(e) => spec_rate_info_from_item(item@) == Err::<RateInfoView, ItemError>(e),
            },
    {
        let user_id = item.get("user_id");
        let user_name = item.get("user_name");
        let rate = item.get("rate");
        match (user_id, user_name, rate) {
            (Some(user_id), Some(user_name), Some(rate)) => {
                let user_id = match user_id {
                    AttrValue::S(u) => u.clone(),
                    _ => { return Err(ItemError::UserIdNotString); },
                };
                let user_name = match user_name {
                    AttrValue::S(n) => n.clone(),
                    _ => { return Err(ItemError::UserNameNotString); },
                };
                let rate = match rate {
                    AttrValue::N(r) => match parse_u64(r.as_str()) {
                        Some(r) => r,
                        None => { return Err(ItemError::RateUnreadable); },
                    },
                    _ => { return Err(ItemError::RateNotNumber); },
                };
                Ok(RateInfo { user_id, user_name, rate, is_winner: None })
            },
            _ => Err(ItemError::MissingKey),
        }
    }
}

} // verus!
