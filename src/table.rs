use vstd::prelude::*;

verus! {

/// The map that a list of (key, code) entries stands for when the entries are
/// inserted in order: a later entry with the same key replaces an earlier one.
pub open spec fn entries_map(s: Seq<(Seq<char>, Seq<char>)>) -> Map<Seq<char>, Seq<char>>
    decreases s.len(),
{
    if s.len() == 0 {
        Map::empty()
    } else {
        entries_map(s.drop_last()).insert(s.last().0, s.last().1)
    }
}

/// The entries of a table, as character sequences.
pub open spec fn entries_view(v: Seq<(String, String)>) -> Seq<(Seq<char>, Seq<char>)> {
    v.map_values(|e: (String, String)| (e.0@, e.1@))
}

/// When no entry from `i` on has key `k`, the entries before `i` decide what
/// the table holds at `k`.
proof fn lemma_later_entries_skip(s: Seq<(Seq<char>, Seq<char>)>, i: int, k: Seq<char>)
    requires
        0 <= i <= s.len(),
        forall|j: int| i <= j < s.len() ==> s[j].0 != k,
    ensures
        entries_map(s).contains_key(k) == entries_map(s.take(i)).contains_key(k),
        entries_map(s).contains_key(k) ==> entries_map(s)[k] == entries_map(s.take(i))[k],
    decreases s.len() - i,
{
    if i < s.len() {
        let t = s.drop_last();
        assert forall|j: int| i <= j < t.len() implies t[j].0 != k by {
            assert(t[j] == s[j]);
        }
        lemma_later_entries_skip(t, i, k);
        assert(t.take(i) =~= s.take(i));
    } else {
        assert(s.take(i) =~= s);
    }
}

/// A table from key strings (pinyin clusters) to key codes.
pub struct CodeTable {
    entries: Vec<(String, String)>,
}

impl View for CodeTable {
    type V = Map<Seq<char>, Seq<char>>;

    closed spec fn view(&self) -> Map<Seq<char>, Seq<char>> {
        entries_map(entries_view(self.entries@))
    }
}

impl CodeTable {
    /// An empty table.
    pub fn new() -> (r: CodeTable)
        ensures
            r@ == Map::<Seq<char>, Seq<char>>::empty(),
    {
        CodeTable { entries: Vec::new() }
    }

    /// Maps `key` to `code`, replacing what `key` was mapped to before.
    pub fn insert(&mut self, key: &str, code: &str)
        ensures
            final(self)@ == old(self)@.insert(key@, code@),
    {
        let ghost before = self.entries@;
        self.entries.push((String::from_str(key), String::from_str(code)));
        proof {
            let s = entries_view(self.entries@);
            assert(s.drop_last() =~= entries_view(before));
        }
    }

    /// Whether `key` is mapped.
    pub fn contains_key(&self, key: &str) -> (r: bool)
        ensures
            r == self@.contains_key(key@),
    {
        self.get(key).is_some()
    }

    /// The code that `key` is mapped to, if any.
    pub fn get(&self, key: &str) -> (r: Option<String>)
        ensures
            r is Some <==> self@.contains_key(key@),
            r is Some ==> r->Some_0@ == self@[key@],
    {
        let q = String::from_str(key);
        let ghost s = entries_view(self.entries@);
        let mut i: usize = self.entries.len();
        while i > 0
            invariant
                i <= self.entries@.len(),
                s == entries_view(self.entries@),
                q@ == key@,
                forall|j: int| i <= j < s.len() ==> s[j].0 != key@,
            decreases i,
        {
            if self.entries[i - 1].0.eq(&q) {
                proof {
                    lemma_later_entries_skip(s, i as int, key@);
                    assert(s.take(i as int).drop_last() =~= s.take(i - 1));
                }
                return Some(self.entries[i - 1].1.clone());
            }
            i = i - 1;
        }
        proof {
            lemma_later_entries_skip(s, 0, key@);
            assert(s.take(0) =~= Seq::<(Seq<char>, Seq<char>)>::empty());
        }
        None
    }

    /// The entries of the table in order of insertion, replaced ones included;
    /// inserting them in order into an empty table gives this table again.
    pub fn to_pairs(&self) -> (r: Vec<(String, String)>)
        ensures
            entries_map(entries_view(r@)) == self@,
    {
        let mut entries: Vec<(String, String)> = Vec::new();
        let mut i: usize = 0;
        while i < self.entries.len()
            invariant
                i <= self.entries@.len(),
                entries_view(entries@) =~= entries_view(self.entries@).take(i as int),
            decreases self.entries@.len() - i,
        {
            let ghost prev = entries@;
            let e = (self.entries[i].0.clone(), self.entries[i].1.clone());
            entries.push(e);
            proof {
                let s = entries_view(self.entries@);
                assert(entries_view(entries@) =~= entries_view(prev).push(s[i as int]));
                assert(s.take(i + 1) =~= s.take(i as int).push(s[i as int]));
            }
            i = i + 1;
        }
        assert(entries_view(self.entries@).take(i as int) =~= entries_view(self.entries@));
        entries
    }

    /// A copy of the table.
    pub fn copy(&self) -> (r: CodeTable)
        ensures
            r@ == self@,
    {
        CodeTable { entries: self.to_pairs() }
    }
}

} // verus!
