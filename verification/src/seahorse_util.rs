//! Helpers the handlers rely on: Python-style index wrapping, accounts that
//! an instruction creates, and the table of programs an instruction makes
//! available to its handler.

use vstd::prelude::*;
use vstd::string::*;

verus! {

/// The position that a Python-style `index` denotes in a sequence of `len`
/// items: a positive index is taken as it is, any other index is counted
/// back from the end (so `0` denotes `len` itself).
pub open spec fn wrapped_position(index: int, len: int) -> int {
    if index > 0 {
        index
    } else {
        index + len
    }
}

/// Turns a Python-style index into a `usize` position in a sequence of
/// `len` items.
///
/// The position is `index` when `index > 0`, and `index + len` otherwise. The
/// inputs for which that position is negative or does not fit a `usize` are
/// those on which the conversion fails.
pub fn wrapped_index(index: i128, len: usize) -> (r: usize)
    requires
        0 <= wrapped_position(index as int, len as int) <= usize::MAX,
    ensures
        r == wrapped_position(index as int, len as int),
{
    if index > 0 {
        return index as usize;
    }
    let position: i128 = index + len as i128;
    position as usize
}

/// The position `index` denotes in a sequence of `len` items, or `None`
/// where that position is negative or does not fit a `usize`.
pub fn checked_wrapped_index(index: i128, len: usize) -> (r: Option<usize>)
    ensures
        match r {
            Some(p) => p == wrapped_position(index as int, len as int),
            None => !(0 <= wrapped_position(index as int, len as int) <= usize::MAX),
        },
{
    if index > 0 {
        if index <= usize::MAX as i128 {
            Some(wrapped_index(index, len))
        } else {
            None
        }
    } else if index + len as i128 >= 0 {
        Some(wrapped_index(index, len))
    } else {
        None
    }
}

/// A positive index denotes itself, and an index from `-len` up to `-1`
/// counts back from the end; either way the position lies inside a sequence
/// of `len` items when the index does.
pub proof fn wrapped_index_counts_from_end(index: int, len: int)
    requires
        0 <= len,
        -len <= index < len,
        index != 0,
    ensures
        0 <= wrapped_position(index, len) < len,
        index > 0 ==> wrapped_position(index, len) == index,
        index < 0 ==> wrapped_position(index, len) == len + index,
{
}

/// An account that the instruction creates, with the bump seed of its
/// address where the address is derived from seeds.
#[derive(Clone)]
pub struct Empty<T: Clone> {
    pub account: T,
    pub bump: Option<u8>,
}


/// Whether two program names are the same text.
pub fn same_name(a: &str, b: &str) -> (r: bool)
    ensures
        r == (a@ == b@),
{
    let n = a.unicode_len();
    if n != b.unicode_len() {
        return false;
    }
    let mut i: usize = 0;
    while i < n
        invariant
            n == a@.len(),
            n == b@.len(),
            i <= n,
            forall|j: int| 0 <= j < i ==> a@[j] == b@[j],
        decreases n - i,
    {
        if a.get_char(i) != b.get_char(i) {
            return false;
        }
        i = i + 1;
    }
    assert(a@ =~= b@);
    true
}

/// The programs an instruction makes available to its handler, by name.
#[derive(Debug)]
pub struct ProgramsMap<V>(pub Vec<(&'static str, V)>);

impl<V> View for ProgramsMap<V> {
    type V = Map<Seq<char>, V>;

    /// The programs by name.
    open spec fn view(&self) -> Map<Seq<char>, V> {
        Map::new(
            |name: Seq<char>| exists|i: int| self.entry_at(i, name),
            |name: Seq<char>| self.0@[choose|i: int| self.entry_at(i, name)].1,
        )
    }
}

impl<V> ProgramsMap<V> {
    /// No name occurs twice.
    pub open spec fn wf(&self) -> bool {
        forall|i: int, j: int|
            0 <= i < self.0@.len() && 0 <= j < self.0@.len() && i != j ==> #[trigger] self.0@[i].0@
                != #[trigger] self.0@[j].0@
    }

    /// Whether `name` is registered at `i`.
    pub open spec fn entry_at(&self, i: int, name: Seq<char>) -> bool {
        0 <= i < self.0@.len() && self.0@[i].0@ == name
    }

    /// An empty table.
    pub fn new() -> (r: Self)
        ensures
            r.wf(),
            r@ == Map::<Seq<char>, V>::empty(),
    {
        let r = ProgramsMap(Vec::new());
        assert(r@ =~= Map::<Seq<char>, V>::empty());
        r
    }

    /// The position of `name`, if it is registered.
    fn position(&self, name: &'static str) -> (r: Option<usize>)
        ensures
            match r {
                Some(i) => self.entry_at(i as int, name@),
                None => forall|i: int| !self.entry_at(i, name@),
            },
    {
        let mut i: usize = 0;
        while i < self.0.len()
            invariant
                i <= self.0@.len(),
                forall|j: int| 0 <= j < i ==> !self.entry_at(j, name@),
            decreases self.0@.len() - i,
        {
            if same_name(self.0[i].0, name) {
                return Some(i);
            }
            i = i + 1;
        }
        None
    }

    /// Registers `program` under `name`, in place of any program registered
    /// under that name before.
    pub fn insert(&mut self, name: &'static str, program: V)
        requires
            old(self).wf(),
        ensures
            final(self).wf(),
            final(self)@ == old(self)@.insert(name@, program),
    {
        let ghost before = self.0@;
        match self.position(name) {
            Some(i) => {
                self.0.set(i, (name, program));
                assert forall|a: int, b: int|
                    0 <= a < self.0@.len() && 0 <= b < self.0@.len() && a != b implies #[trigger] self.0@[a].0@
                    != #[trigger] self.0@[b].0@ by {
                    assert(a != i ==> self.0@[a] == before[a]);
                    assert(b != i ==> self.0@[b] == before[b]);
                }
                assert forall|k: Seq<char>| #[trigger]
                    self@.dom().contains(k) implies self@[k] == old(self)@.insert(
                    name@,
                    program,
                )[k] by {
                    let c = choose|j: int| self.entry_at(j, k);
                    if k == name@ {
                        assert(c == i);
                    } else {
                        assert(old(self).entry_at(c, k));
                        let c0 = choose|j: int| old(self).entry_at(j, k);
                        assert(c0 == c);
                    }
                }
                assert(self@.dom() =~= old(self)@.insert(name@, program).dom()) by {
                    assert forall|k: Seq<char>|
                        #[trigger] old(self)@.insert(name@, program).dom().contains(k)
                        implies self@.dom().contains(k) by {
                        if k != name@ {
                            let c0 = choose|j: int| old(self).entry_at(j, k);
                            assert(self.entry_at(c0, k));
                        } else {
                            assert(self.entry_at(i as int, k));
                        }
                    }
                    assert forall|k: Seq<char>| #[trigger] self@.dom().contains(k) implies old(
                        self,
                    )@.insert(name@, program).dom().contains(k) by {
                        let c = choose|j: int| self.entry_at(j, k);
                        if k != name@ {
                            assert(old(self).entry_at(c, k));
                        }
                    }
                }
            },
            None => {
                self.0.push((name, program));
                let ghost last: int = self.0@.len() - 1;
                assert forall|a: int, b: int|
                    0 <= a < self.0@.len() && 0 <= b < self.0@.len() && a != b implies #[trigger] self.0@[a].0@
                    != #[trigger] self.0@[b].0@ by {
                    if a != last && b != last {
                        assert(self.0@[a] == before[a]);
                        assert(self.0@[b] == before[b]);
                    } else if a == last {
                        assert(!old(self).entry_at(b, name@));
                    } else {
                        assert(!old(self).entry_at(a, name@));
                    }
                }
                assert forall|k: Seq<char>| #[trigger]
                    self@.dom().contains(k) implies self@[k] == old(self)@.insert(
                    name@,
                    program,
                )[k] by {
                    let c = choose|j: int| self.entry_at(j, k);
                    if k == name@ {
                        if c != last {
                            assert(old(self).entry_at(c, k));
                        }
                        assert(c == last);
                    } else {
                        assert(old(self).entry_at(c, k));
                        let c0 = choose|j: int| old(self).entry_at(j, k);
                        assert(c0 == c);
                    }
                }
                assert(self@.dom() =~= old(self)@.insert(name@, program).dom()) by {
                    assert forall|k: Seq<char>|
                        #[trigger] old(self)@.insert(name@, program).dom().contains(k)
                        implies self@.dom().contains(k) by {
                        if k != name@ {
                            let c0 = choose|j: int| old(self).entry_at(j, k);
                            assert(self.entry_at(c0, k));
                        } else {
                            assert(self.entry_at(last, k));
                        }
                    }
                    assert forall|k: Seq<char>| #[trigger] self@.dom().contains(k) implies old(
                        self,
                    )@.insert(name@, program).dom().contains(k) by {
                        let c = choose|j: int| self.entry_at(j, k);
                        if k != name@ {
                            assert(old(self).entry_at(c, k));
                        }
                    }
                }
            },
        }
        assert(self@ =~= old(self)@.insert(name@, program));
    }
}

impl<V> ProgramsMap<V> {
    /// Whether a program is registered under `name`.
    pub fn contains(&self, name: &'static str) -> (r: bool)
        ensures
            r == self@.contains_key(name@),
    {
        match self.position(name) {
            Some(i) => {
                assert(self.entry_at(i as int, name@));
                true
            },
            None => false,
        }
    }
}

impl<V: Clone> ProgramsMap<V> {
    /// A copy of the program registered under `name`.
    pub fn get(&self, name: &'static str) -> (r: V)
        requires
            self.wf(),
            self@.contains_key(name@),
        ensures
            cloned(self@[name@], r),
    {
        match self.position(name) {
            Some(i) => {
                let ghost c = choose|j: int| self.entry_at(j, name@);
                assert(c == i);
                self.0[i].1.clone()
            },
            None => {
                proof {
                    let c = choose|j: int| self.entry_at(j, name@);
                    assert(self.entry_at(c, name@));
                }
                unreached()
            },
        }
    }
}

} // verus!
