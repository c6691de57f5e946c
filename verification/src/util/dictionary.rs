//! Dictionaries of options: keys and values, both strings.
use vstd::prelude::*;

verus! {

/// What `assign` leaves: the first entry under `key` now holds `value`, or,
/// where no entry had that key, a new entry stands at the end.
pub open spec fn assigned(
    entries: Seq<(Seq<char>, Seq<char>)>,
    key: Seq<char>,
    value: Seq<char>,
) -> Seq<(Seq<char>, Seq<char>)> {
    let at = position(entries, key);
    if at < entries.len() {
        entries.update(at, (key, value))
    } else {
        entries.push((key, value))
    }
}

/// The index of the first entry under `key`, or the number of entries where
/// there is none.
pub open spec fn position(entries: Seq<(Seq<char>, Seq<char>)>, key: Seq<char>) -> int
    decreases entries.len(),
{
    if entries.len() == 0 {
        0
    } else if entries[0].0 == key {
        0
    } else {
        1 + position(entries.skip(1), key)
    }
}

/// An ordered list of options.
#[derive(Clone, Debug, PartialEq, Eq)]
pub struct Dictionary {
    entries: Vec<(String, String)>,
}

impl View for Dictionary {
    type V = Seq<(Seq<char>, Seq<char>)>;

    closed spec fn view(&self) -> Seq<(Seq<char>, Seq<char>)> {
        Seq::new(self.entries@.len(), |i: int| (self.entries@[i].0@, self.entries@[i].1@))
    }
}

impl Dictionary {
    /// A dictionary without entries.
    pub fn new() -> (dictionary: Dictionary)
        ensures
            dictionary@ == Seq::<(Seq<char>, Seq<char>)>::empty(),
    {
        let dictionary = Dictionary { entries: Vec::new() };
        assert(dictionary@ =~= Seq::<(Seq<char>, Seq<char>)>::empty());
        dictionary
    }

    /// The number of entries.
    pub fn len(&self) -> (len: usize)
        ensures
            len == self@.len(),
    {
        self.entries.len()
    }

    pub fn is_empty(&self) -> (empty: bool)
        ensures
            empty == (self@.len() == 0),
    {
        self.entries.len() == 0
    }

    /// The index of the first entry under `key`, or `len()` where there is
    /// none.
    fn find(&self, key: &String) -> (at: usize)
        ensures
            at == position(self@, key@),
            at <= self@.len(),
            at < self@.len() ==> self@[at as int].0 == key@,
    {
        let mut at: usize = 0;
        assert(self@.skip(0) =~= self@);
        while at < self.entries.len()
            invariant
                at <= self.entries.len(),
                self.entries@.len() == self@.len(),
                position(self@, key@) == at + position(self@.skip(at as int), key@),
            decreases self.entries.len() - at,
        {
            proof {
                let rest = self@.skip(at as int);
                assert(rest[0] == self@[at as int]);
                assert(rest.skip(1) =~= self@.skip(at + 1));
                assert(self@[at as int].0 == self.entries@[at as int].0@);
            }
            if self.entries[at].0 == *key {
                return at;
            }
            at += 1;
        }
        at
    }

    /// The entry at `index`, its key first, if there are that many.
    pub fn entry(&self, index: usize) -> (entry: Option<(&str, &str)>)
        ensures
            entry is Some <==> index < self@.len(),
            entry matches Some(pair) ==> pair.0@ == self@[index as int].0 && pair.1@
                == self@[index as int].1,
    {
        if index < self.entries.len() {
            Some((self.entries[index].0.as_str(), self.entries[index].1.as_str()))
        } else {
            None
        }
    }

    /// The value of the first entry under `key`.
    pub fn get(&self, key: &str) -> (value: Option<&str>)
        ensures
            value is Some <==> position(self@, key@) < self@.len(),
            value is Some ==> value->0@ == self@[position(self@, key@)].1,
    {
        let at = self.find(&key.to_owned());
        if at < self.entries.len() {
            Some(self.entries[at].1.as_str())
        } else {
            None
        }
    }

    /// Gives `key` the value `value`: in its first entry where it has one, in a
    /// new entry at the end where it has none.
    pub fn set(&mut self, key: &str, value: &str)
        ensures
            final(self)@ == assigned(old(self)@, key@, value@),
    {
        let owned = key.to_owned();
        let at = self.find(&owned);
        let entry = (owned, value.to_owned());
        if at < self.entries.len() {
            self.entries.set(at, entry);
        } else {
            self.entries.push(entry);
        }
        assert(self@ =~= assigned(old(self)@, key@, value@));
    }
}

} // verus!
