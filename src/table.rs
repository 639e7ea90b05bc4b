use vstd::prelude::*;

verus! {

/// The map that a list of registrations leaves: later registrations of a name
/// replace earlier ones.
pub open spec fn registered<R>(s: Seq<(String, R)>) -> Map<Seq<char>, R>
    decreases s.len(),
{
    if s.len() == 0 {
        Map::empty()
    } else {
        registered(s.drop_last()).insert(s.last().0@, s.last().1)
    }
}

proof fn lemma_registered_latest<R>(s: Seq<(String, R)>, j: int)
    requires
        0 <= j < s.len(),
        forall|i: int| j < i < s.len() ==> s[i].0@ != s[j].0@,
    ensures
        registered(s).contains_key(s[j].0@),
        registered(s)[s[j].0@] == s[j].1,
    decreases s.len(),
{
    if j < s.len() - 1 {
        let d = s.drop_last();
        assert forall|i: int| j < i < d.len() implies d[i].0@ != d[j].0@ by {
            assert(d[i] == s[i]);
        }
        lemma_registered_latest(d, j);
        assert(d[j] == s[j]);
    }
}

proof fn lemma_registered_absent<R>(s: Seq<(String, R)>, k: Seq<char>)
    requires
        forall|i: int| 0 <= i < s.len() ==> s[i].0@ != k,
    ensures
        !registered(s).contains_key(k),
    decreases s.len(),
{
    if s.len() > 0 {
        let d = s.drop_last();
        assert forall|i: int| 0 <= i < d.len() implies d[i].0@ != k by {
            assert(d[i] == s[i]);
        }
        lemma_registered_absent(d, k);
    }
}

/// A table from macro names to expansion routines. Registering a name that is
/// already there replaces its routine; nothing is ever removed.
pub struct MacroTable<R> {
    entries: Vec<(String, R)>,
}

impl<R> View for MacroTable<R> {
    type V = Map<Seq<char>, R>;

    closed spec fn view(&self) -> Map<Seq<char>, R> {
        registered(self.entries@)
    }
}

impl<R> MacroTable<R> {
    /// An empty table.
    pub fn new() -> (t: MacroTable<R>)
        ensures
            t@ == Map::<Seq<char>, R>::empty(),
    {
        MacroTable { entries: Vec::new() }
    }

    /// Registers `routine` under `name`, replacing what was there.
    pub fn insert(&mut self, name: String, routine: R)
        ensures
            final(self)@ == old(self)@.insert(name@, routine),
    {
        let ghost before = self.entries@;
        self.entries.push((name, routine));
        assert(self.entries@.drop_last() =~= before);
    }

    /// The routine registered under `name`, if any.
    pub fn get(&self, name: &String) -> (r: Option<&R>)
        ensures
            match r {
                Some(v) => self@.contains_key(name@) && *v == self@[name@],
                None => !self@.contains_key(name@),
            },
    {
        let mut j: usize = self.entries.len();
        while j > 0
            invariant
                j <= self.entries@.len(),
                forall|i: int| j <= i < self.entries@.len() ==> self.entries@[i].0@ != name@,
            decreases j,
        {
            if self.entries[j - 1].0 == *name {
                proof {
                    lemma_registered_latest(self.entries@, j - 1);
                }
                return Some(&self.entries[j - 1].1);
            }
            j = j - 1;
        }
        proof {
            lemma_registered_absent(self.entries@, name@);
        }
        None
    }

    /// Whether a routine is registered under `name`.
    pub fn contains(&self, name: &String) -> (r: bool)
        ensures
            r == self@.contains_key(name@),
    {
        self.get(name).is_some()
    }
}

} // verus!
