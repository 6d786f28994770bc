use vstd::prelude::*;

verus! {

/// `s` with `u` added at the end, unless it is already present.
pub open spec fn with_name(s: Seq<Seq<char>>, u: Seq<char>) -> Seq<Seq<char>> {
    if s.contains(u) {
        s
    } else {
        s.push(u)
    }
}

/// `s` with every occurrence of `u` taken out, the rest in order.
pub open spec fn without_name(s: Seq<Seq<char>>, u: Seq<char>) -> Seq<Seq<char>>
    decreases s.len(),
{
    if s.len() == 0 {
        s
    } else {
        let rest = without_name(s.drop_last(), u);
        if s.last() == u {
            rest
        } else {
            rest.push(s.last())
        }
    }
}

pub proof fn lemma_push_contains(p: Seq<Seq<char>>, a: Seq<char>, x: Seq<char>)
    ensures
        p.push(a).contains(x) <==> (p.contains(x) || a == x),
{
    if p.contains(x) {
        let i = choose|i: int| 0 <= i < p.len() && p[i] == x;
        assert(p.push(a)[i] == x);
    }
    if a == x {
        assert(p.push(a)[p.len() as int] == x);
    }
    if p.push(a).contains(x) {
        let i = choose|i: int| 0 <= i < p.push(a).len() && p.push(a)[i] == x;
        if i < p.len() {
            assert(p[i] == x);
        }
    }
}

/// The names of a list of strings.
pub open spec fn names_of(v: Seq<String>) -> Seq<Seq<char>> {
    v.map_values(|n: String| n@)
}

pub proof fn lemma_names_of_push(v: Seq<String>, s: String)
    ensures
        names_of(v.push(s)) == names_of(v).push(s@),
{
    assert(names_of(v.push(s)) =~= names_of(v).push(s@));
}

pub proof fn lemma_without_contains(s: Seq<Seq<char>>, u: Seq<char>, x: Seq<char>)
    ensures
        without_name(s, u).contains(x) <==> (s.contains(x) && x != u),
    decreases s.len(),
{
    if s.len() > 0 {
        let p = s.drop_last();
        lemma_without_contains(p, u, x);
        assert(s =~= p.push(s.last()));
        lemma_push_contains(p, s.last(), x);
        lemma_push_contains(without_name(p, u), s.last(), x);
    }
}

pub proof fn lemma_without_no_dup(s: Seq<Seq<char>>, u: Seq<char>)
    requires
        s.no_duplicates(),
    ensures
        without_name(s, u).no_duplicates(),
        !without_name(s, u).contains(u),
    decreases s.len(),
{
    if s.len() > 0 {
        let p = s.drop_last();
        assert(p.no_duplicates()) by {
            assert forall|i: int, j: int| 0 <= i < p.len() && 0 <= j < p.len() && i != j implies p[i]
                != p[j] by {
                assert(s[i] == p[i] && s[j] == p[j]);
            }
        }
        lemma_without_no_dup(p, u);
        lemma_without_contains(p, u, s.last());
        if p.contains(s.last()) {
            let i = choose|i: int| 0 <= i < p.len() && p[i] == s.last();
            assert(s[i] == s[s.len() - 1]);
        }
    }
}

/// The names of the users connected now, each once, in the order in which
/// they were added.
pub struct PresenceRegistry {
    names: Vec<String>,
}

impl View for PresenceRegistry {
    type V = Seq<Seq<char>>;

    closed spec fn view(&self) -> Seq<Seq<char>> {
        names_of(self.names@)
    }
}

impl PresenceRegistry {
    /// No name stands twice.
    pub open spec fn wf(&self) -> bool {
        self@.no_duplicates()
    }

    /// An empty registry.
    pub fn new() -> (r: PresenceRegistry)
        ensures
            r.wf(),
            r@ == Seq::<Seq<char>>::empty(),
    {
        let r = PresenceRegistry { names: Vec::new() };
        assert(r@ =~= Seq::<Seq<char>>::empty());
        r
    }

    /// Whether `username` is connected.
    pub fn contains(&self, username: &String) -> (r: bool)
        ensures
            r == self@.contains(username@),
    {
        let mut i: usize = 0;
        while i < self.names.len()
            invariant
                0 <= i <= self.names@.len(),
                self@.len() == self.names@.len(),
                forall|k: int| 0 <= k < i ==> self@[k] != username@,
            decreases self.names@.len() - i,
        {
            if self.names[i].eq(username) {
                assert(self@[i as int] == username@);
                return true;
            }
            i = i + 1;
        }
        assert(!self@.contains(username@)) by {
            if self@.contains(username@) {
                let k = choose|k: int| 0 <= k < self@.len() && self@[k] == username@;
                assert(self@[k] != username@);
            }
        }
        false
    }

    /// Adds `username` at the end; `false`, with nothing changed, where it is
    /// already present.
    pub fn add(&mut self, username: &String) -> (r: bool)
        requires
            old(self).wf(),
        ensures
            final(self).wf(),
            r == !old(self)@.contains(username@),
            final(self)@ == with_name(old(self)@, username@),
    {
        if self.contains(username) {
            return false;
        }
        let ghost before = self@;
        let ghost n0 = self.names@;
        self.names.push(username.clone());
        proof {
            lemma_names_of_push(n0, *username);
        }
        assert(self@ =~= before.push(username@));
        assert(self@.no_duplicates()) by {
            assert forall|i: int, j: int|
                0 <= i < self@.len() && 0 <= j < self@.len() && i != j implies self@[i]
                != self@[j] by {
                if i < before.len() && j < before.len() {
                } else if i < before.len() {
                    assert(before.contains(before[i]));
                } else {
                    assert(before.contains(before[j]));
                }
            }
        }
        true
    }

    /// Takes `username` out; nothing changes where it is absent.
    pub fn remove(&mut self, username: &String)
        requires
            old(self).wf(),
        ensures
            final(self).wf(),
            final(self)@ == without_name(old(self)@, username@),
    {
        let ghost before = self@;
        let mut kept: Vec<String> = Vec::new();
        let mut i: usize = 0;
        while i < self.names.len()
            invariant
                0 <= i <= self.names@.len(),
                before == self@,
                before.len() == self.names@.len(),
                names_of(kept@) == without_name(before.take(i as int), username@),
            decreases self.names@.len() - i,
        {
            let ghost prefix = before.take(i as int);
            assert(before.take(i + 1).drop_last() =~= prefix);
            assert(before.take(i + 1).last() == before[i as int]);
            if !self.names[i].eq(username) {
                let ghost k0 = kept@;
                kept.push(self.names[i].clone());
                proof {
                    lemma_names_of_push(k0, self.names@[i as int]);
                }
            }
            i = i + 1;
        }
        assert(before.take(i as int) =~= before);
        self.names = kept;
        proof {
            lemma_without_no_dup(before, username@);
        }
    }

    /// The connected names, in the order in which they were added.
    pub fn snapshot(&self) -> (r: Vec<String>)
        ensures
            names_of(r@) == self@,
    {
        let mut out: Vec<String> = Vec::new();
        let mut i: usize = 0;
        while i < self.names.len()
            invariant
                0 <= i <= self.names@.len(),
                self@.len() == self.names@.len(),
                names_of(out@) == self@.take(i as int),
            decreases self.names@.len() - i,
        {
            let ghost o0 = out@;
            out.push(self.names[i].clone());
            proof {
                lemma_names_of_push(o0, self.names@[i as int]);
            }
            assert(self@.take(i + 1) =~= self@.take(i as int).push(self@[i as int]));
            i = i + 1;
        }
        assert(self@.take(i as int) =~= self@);
        out
    }

    /// How many users are connected.
    pub fn len(&self) -> (r: usize)
        ensures
            r == self@.len(),
    {
        self.names.len()
    }
}

} // verus!
