//! The named string values that a page is rendered with.

use vstd::prelude::*;
use vstd::string::StringSliceAdditionalSpecFns;
use vstd::utf8::encode_utf8;
use crate::text::bytes_eq;

verus! {

/// One named value.
#[derive(Debug)]
struct Field {
    name: String,
    value: String,
}

/// A mapping from field names to string values. Its view is the map from
/// the UTF-8 bytes of each name to the UTF-8 bytes of its value.
#[derive(Debug)]
pub struct Fields {
    entries: Vec<Field>,
}

/// The map that a list of entries stands for: a later entry replaces an
/// earlier one of the same name.
spec fn entries_map(entries: Seq<Field>) -> Map<Seq<u8>, Seq<u8>>
    decreases entries.len(),
{
    if entries.len() == 0 {
        Map::empty()
    } else {
        entries_map(entries.drop_last()).insert(
            encode_utf8(entries.last().name@),
            encode_utf8(entries.last().value@),
        )
    }
}

impl View for Fields {
    type V = Map<Seq<u8>, Seq<u8>>;

    closed spec fn view(&self) -> Map<Seq<u8>, Seq<u8>> {
        entries_map(self.entries@)
    }
}

impl Fields {
    /// A mapping with no fields.
    pub fn new() -> (fields: Fields)
        ensures
            fields@ == Map::<Seq<u8>, Seq<u8>>::empty(),
    {
        Fields { entries: Vec::new() }
    }

    /// Sets the field `name` to `value`, replacing any value it had.
    pub fn insert(&mut self, name: &str, value: &str)
        ensures
            final(self)@ == old(self)@.insert(name.spec_bytes(), value.spec_bytes()),
    {
        let field = Field { name: name.to_owned(), value: value.to_owned() };
        self.entries.push(field);
        assert(self.entries@.drop_last() =~= old(self).entries@);
    }

    /// The value of the field whose name has the bytes `name`, if it is set.
    pub fn get(&self, name: &[u8]) -> (value: Option<&str>)
        ensures
            match value {
                Some(found) => self@.contains_key(name@) && found.spec_bytes() == self@[name@],
                None => !self@.contains_key(name@),
            },
    {
        let mut i: usize = self.entries.len();
        assert(self.entries@.take(i as int) =~= self.entries@);
        while i > 0
            invariant
                i <= self.entries@.len(),
                self@.contains_key(name@) == entries_map(self.entries@.take(i as int)).contains_key(
                    name@,
                ),
                self@.contains_key(name@) ==> self@[name@] == entries_map(
                    self.entries@.take(i as int),
                )[name@],
            decreases i,
        {
            assert(self.entries@.take(i as int).drop_last() =~= self.entries@.take(i - 1));
            let entry = &self.entries[i - 1];
            if bytes_eq(entry.name.as_str().as_bytes(), name) {
                return Some(entry.value.as_str());
            }
            i -= 1;
        }
        None
    }
}

} // verus!
