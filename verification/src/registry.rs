//! The table of methods that can be called, by name.

use crate::text::same_text;
use vstd::prelude::*;

verus! {

/// A group of methods that are registered together.
pub trait Provider<H: 'static> {
    /// The methods of the group, each with the name under which it is called.
    fn methods() -> &'static [(&'static str, H)];
}

/// The methods that can be called, each under its name.
///
/// `H` is the type of a handler. The registry keeps handlers and hands them
/// out; what a handler is and how it is run is up to the caller.
pub struct Registry<H> {
    methods: Vec<(&'static str, H)>,
}

/// The table that comes of registering further entries, in order, on top of
/// a table: where two entries share a name, the later one stands.
pub open spec fn extended<H>(table: Map<Seq<char>, H>, entries: Seq<(&'static str, H)>) -> Map<
    Seq<char>,
    H,
>
    decreases entries.len(),
{
    if entries.len() == 0 {
        table
    } else {
        extended(table, entries.drop_last()).insert(entries.last().0@, entries.last().1)
    }
}

/// The table of some entries, registered in order on top of nothing.
spec fn table_of<H>(entries: Seq<(&'static str, H)>) -> Map<Seq<char>, H> {
    extended(Map::empty(), entries)
}

/// A name that no entry has is not in the table. A name that some entry has
/// stands for the handler of the last such entry.
proof fn table_of_last_entry<H>(entries: Seq<(&'static str, H)>, name: Seq<char>, from: int)
    requires
        0 <= from <= entries.len(),
        forall|k: int| from <= k < entries.len() ==> (#[trigger] entries[k]).0@ != name,
    ensures
        from == 0 ==> !table_of(entries).contains_key(name),
        from > 0 && entries[from - 1].0@ == name ==> table_of(entries).contains_key(name)
            && table_of(entries)[name] == entries[from - 1].1,
    decreases entries.len(),
{
    if entries.len() > 0 {
        if from < entries.len() {
            table_of_last_entry(entries.drop_last(), name, from);
        } else {
            table_of_last_entry(entries.drop_last(), name, from - 1);
        }
    }
}

impl<H> View for Registry<H> {
    type V = Map<Seq<char>, H>;

    closed spec fn view(&self) -> Map<Seq<char>, H> {
        table_of(self.methods@)
    }
}

impl<H> Registry<H> {
    /// A registry without methods.
    pub fn new() -> (r: Registry<H>)
        ensures
            r@ == Map::<Seq<char>, H>::empty(),
    {
        Registry { methods: Vec::new() }
    }

    /// Registers a method under a name. A method that was registered under
    /// the same name before is replaced.
    ///
    /// The first clause says it all. The others spell out what it means for
    /// that name and for every other, to spare callers the axioms of maps.
    pub fn register_method(&mut self, name: &'static str, method: H)
        ensures
            final(self)@ == old(self)@.insert(name@, method),
            final(self)@.contains_key(name@),
            final(self)@[name@] == method,
            forall|other: Seq<char>|
                other != name@ ==> final(self)@.contains_key(other) == old(self)@.contains_key(
                    other,
                ),
            forall|other: Seq<char>|
                other != name@ && old(self)@.contains_key(other) ==> final(self)@[other] == old(
                    self,
                )@[other],
    {
        self.methods.push((name, method));
        assert(self.methods@.drop_last() =~= old(self).methods@);
    }

    /// Registers the methods of a table, in order.
    pub fn register_all(&mut self, table: &[(&'static str, H)]) where H: Copy
        ensures
            final(self)@ == extended(old(self)@, table@),
    {
        let mut index: usize = 0;
        while index < table.len()
            invariant
                index <= table.len(),
                self@ == extended(old(self)@, table@.take(index as int)),
            decreases table.len() - index,
        {
            let (name, method) = table[index];
            self.register_method(name, method);
            proof {
                assert(table@.take(index + 1).drop_last() =~= table@.take(index as int));
            }
            index += 1;
        }
        assert(table@.take(table@.len() as int) =~= table@);
    }

    /// Registers the methods of a group, in the order in which the group
    /// lists them.
    pub fn register<T: Provider<H>>(&mut self) where H: Copy + 'static
        ensures
            exists|table: Seq<(&'static str, H)>| final(self)@ == extended(old(self)@, table),
    {
        self.register_all(T::methods());
    }

    /// The method that is registered under a name, if there is one.
    pub fn get_method(&self, method: &str) -> (r: Option<&H>)
        ensures
            match r {
                Some(handler) => self@.contains_key(method@) && self@[method@] == *handler,
                None => !self@.contains_key(method@),
            },
    {
        let mut index = self.methods.len();
        while index > 0
            invariant
                index <= self.methods.len(),
                forall|k: int|
                    index <= k < self.methods.len() ==> (#[trigger] self.methods@[k]).0@
                        != method@,
            decreases index,
        {
            index -= 1;
            if same_text(self.methods[index].0, method) {
                proof {
                    table_of_last_entry(self.methods@, method@, index + 1);
                }
                return Some(&self.methods[index].1);
            }
        }
        proof {
            table_of_last_entry(self.methods@, method@, 0);
        }
        None
    }
}

} // verus!
