use vstd::prelude::*;

verus! {

/// An exported name paired with the trampoline that the host calls for it.
pub struct Binding<T> {
    pub name: String,
    pub trampoline: T,
}

impl<T> Binding<T> {
    pub open spec fn view(&self) -> (Seq<char>, T) {
        (self.name@, self.trampoline)
    }
}

/// The (name, trampoline) pairs of a list of bindings.
pub open spec fn bindings_view<T>(s: Seq<Binding<T>>) -> Seq<(Seq<char>, T)> {
    Seq::new(s.len(), |i: int| s[i]@)
}

/// The bindings, in the order in which their names were first registered.
pub struct Registry<T> {
    entries: Vec<Binding<T>>,
}

/// Where `name` stands in `s`, if it stands there.
pub open spec fn has_name<T>(s: Seq<(Seq<char>, T)>, name: Seq<char>) -> bool {
    exists|i: int| 0 <= i < s.len() && #[trigger] s[i].0 == name
}

/// No name stands twice.
pub open spec fn names_unique<T>(s: Seq<(Seq<char>, T)>) -> bool {
    forall|i: int, j: int| 0 <= i < s.len() && 0 <= j < s.len() && i != j ==> s[i].0 != s[j].0
}

/// The index of `name` in `s` (meaningful where `has_name(s, name)`).
pub open spec fn index_of<T>(s: Seq<(Seq<char>, T)>, name: Seq<char>) -> int {
    choose|i: int| 0 <= i < s.len() && #[trigger] s[i].0 == name
}

/// The bindings after registering `t` under `name`: a binding already under
/// that name is overwritten in place, otherwise the new one goes last.
pub open spec fn registered<T>(s: Seq<(Seq<char>, T)>, name: Seq<char>, t: T) -> Seq<(Seq<char>, T)> {
    if has_name(s, name) {
        s.update(index_of(s, name), (name, t))
    } else {
        s.push((name, t))
    }
}

/// The trampoline exported under `name`, if any.
pub open spec fn lookup<T>(s: Seq<(Seq<char>, T)>, name: Seq<char>) -> Option<T> {
    if has_name(s, name) {
        Some(s[index_of(s, name)].1)
    } else {
        None
    }
}

/// Registering keeps the names unique.
pub proof fn lemma_registered_unique<T>(s: Seq<(Seq<char>, T)>, name: Seq<char>, t: T)
    requires
        names_unique(s),
    ensures
        names_unique(registered(s, name, t)),
        has_name(registered(s, name, t), name),
{
    let r = registered(s, name, t);
    if has_name(s, name) {
        let k = index_of(s, name);
        assert(r[k].0 == name);
    } else {
        assert(r[s.len() as int].0 == name);
    }
}

/// After registering `t` under `name`, `name` resolves to `t` and every other
/// name resolves as before.
pub proof fn lemma_lookup_registered<T>(s: Seq<(Seq<char>, T)>, name: Seq<char>, t: T, other: Seq<char>)
    requires
        names_unique(s),
    ensures
        lookup(registered(s, name, t), name) == Some(t),
        other != name ==> lookup(registered(s, name, t), other) == lookup(s, other),
{
    let r = registered(s, name, t);
    lemma_registered_unique(s, name, t);
    if has_name(s, name) {
        let k = index_of(s, name);
        assert(r[k].0 == name);
    } else {
        assert(r[s.len() as int].0 == name);
    }
    if other != name {
        if has_name(s, other) {
            let k = index_of(s, other);
            assert(r[k].0 == other);
        }
        if has_name(r, other) {
            let k = index_of(r, other);
            assert(s[k].0 == other);
        }
    }
}

/// Registering a second trampoline under a name already registered replaces
/// the first: the name is held once, resolves to the second trampoline, and
/// the result is as if only the second registration had been made.
pub proof fn lemma_last_registration_wins<T>(s: Seq<(Seq<char>, T)>, name: Seq<char>, t1: T, t2: T)
    requires
        names_unique(s),
    ensures
        registered(registered(s, name, t1), name, t2) == registered(s, name, t2),
        names_unique(registered(registered(s, name, t1), name, t2)),
        lookup(registered(registered(s, name, t1), name, t2), name) == Some(t2),
{
    let s1 = registered(s, name, t1);
    lemma_registered_unique(s, name, t1);
    lemma_registered_unique(s1, name, t2);
    lemma_lookup_registered(s1, name, t2, name);
    if has_name(s, name) {
        let k = index_of(s, name);
        assert(s[k].0 == name);
        assert(s1[k].0 == name);
        let k1 = index_of(s1, name);
        assert(s1[k1].0 == name);
        assert(k1 == k);
        assert(registered(s1, name, t2) =~= registered(s, name, t2));
    } else {
        let n = s.len() as int;
        assert(s1[n].0 == name);
        let k1 = index_of(s1, name);
        assert(s1[k1].0 == name);
        assert(k1 == n);
        assert(registered(s1, name, t2) =~= registered(s, name, t2));
    }
}

/// Bindings registered under two different names, by independent units and in
/// either order, are both exported, each resolving to its own trampoline.
pub proof fn lemma_independent_registrations<T>(
    s: Seq<(Seq<char>, T)>,
    a: Seq<char>,
    ta: T,
    b: Seq<char>,
    tb: T,
)
    requires
        names_unique(s),
        a != b,
    ensures
        lookup(registered(registered(s, a, ta), b, tb), a) == Some(ta),
        lookup(registered(registered(s, a, ta), b, tb), b) == Some(tb),
        lookup(registered(registered(s, b, tb), a, ta), a) == Some(ta),
        lookup(registered(registered(s, b, tb), a, ta), b) == Some(tb),
{
    lemma_registered_unique(s, a, ta);
    lemma_registered_unique(s, b, tb);
    lemma_lookup_registered(s, a, ta, b);
    lemma_lookup_registered(s, b, tb, a);
    lemma_lookup_registered(registered(s, a, ta), b, tb, a);
    lemma_lookup_registered(registered(s, b, tb), a, ta, b);
}

/// The exports of an empty registry: none.
pub proof fn lemma_drain_empty<T>(exports: Seq<Binding<T>>)
    requires
        bindings_view(exports) == Seq::<(Seq<char>, T)>::empty(),
    ensures
        exports.len() == 0,
{
    assert(bindings_view(exports).len() == exports.len());
}

impl<T: Copy> Registry<T> {
    pub closed spec fn view(&self) -> Seq<(Seq<char>, T)> {
        bindings_view(self.entries@)
    }

    /// The registry's invariant: each exported name is held once.
    pub open spec fn wf(&self) -> bool {
        names_unique(self@)
    }

    /// An empty registry.
    pub fn new() -> (r: Registry<T>)
        ensures
            r@ == Seq::<(Seq<char>, T)>::empty(),
            r.wf(),
    {
        Registry { entries: Vec::new() }
    }

    /// The number of bindings held.
    pub fn len(&self) -> (r: usize)
        ensures
            r == self@.len(),
    {
        self.entries.len()
    }

    /// The position of `name` among the bindings, if it is there.
    fn position(&self, name: &str) -> (r: Option<usize>)
        requires
            self.wf(),
        ensures
            r is None ==> !has_name(self@, name@),
            r matches Some(i) ==> i < self@.len() && self@[i as int].0 == name@ && i == index_of(
                self@,
                name@,
            ),
    {
        let mut i: usize = 0;
        while i < self.entries.len()
            invariant
                self.wf(),
                i <= self.entries@.len(),
                forall|j: int| 0 <= j < i ==> #[trigger] self@[j].0 != name@,
            decreases self.entries@.len() - i,
        {
            if string_eq_str(&self.entries[i].name, name) {
                assert(self@[i as int].0 == name@);
                assert(has_name(self@, name@));
                proof {
                    let k = index_of(self@, name@);
                    assert(self@[k].0 == name@);
                    if k != i as int {
                        assert(self@[k].0 != self@[i as int].0);
                    }
                }
                return Some(i);
            }
            i = i + 1;
        }
        assert(!has_name(self@, name@)) by {
            if has_name(self@, name@) {
                let k = index_of(self@, name@);
                assert(self@[k].0 == name@);
            }
        }
        None
    }

    /// The trampoline exported under `name`, if any.
    pub fn get(&self, name: &str) -> (r: Option<T>)
        requires
            self.wf(),
        ensures
            r == lookup(self@, name@),
    {
        match self.position(name) {
            Some(i) => Some(self.entries[i].trampoline),
            None => None,
        }
    }
}

/// Character-wise equality of a `String` and a `str`.
fn string_eq_str(a: &String, b: &str) -> (r: bool)
    ensures
        r == (a@ == b@),
{
    let a_str = a.as_str();
    let n = a_str.unicode_len();
    if n != b.unicode_len() {
        return false;
    }
    let mut i: usize = 0;
    while i < n
        invariant
            n == a@.len(),
            n == b@.len(),
            a_str@ == a@,
            i <= n,
            forall|j: int| 0 <= j < i ==> a@[j] == b@[j],
        decreases n - i,
    {
        if a_str.get_char(i) != b.get_char(i) {
            return false;
        }
        i = i + 1;
    }
    assert(a@ =~= b@);
    true
}

/// Inserts the binding of `cb` under `js_name`; a binding already under that
/// name is overwritten, so the last registration wins.
pub fn register_fn<T: Copy>(registry: &mut Registry<T>, js_name: &str, cb: T)
    requires
        old(registry).wf(),
    ensures
        final(registry).wf(),
        final(registry)@ == registered(old(registry)@, js_name@, cb),
{
    proof {
        lemma_registered_unique(registry@, js_name@, cb);
    }
    match registry.position(js_name) {
        Some(i) => {
            registry.entries.set(i, Binding { name: js_name.to_string(), trampoline: cb });
        },
        None => {
            registry.entries.push(Binding { name: js_name.to_string(), trampoline: cb });
        },
    }
    assert(registry@ =~= registered(old(registry)@, js_name@, cb));
}

/// The exports to create on the host's exports object: one named function per
/// binding, in the registry's order.
pub fn gen_fn<T: Copy>(registry: &Registry<T>) -> (r: Vec<Binding<T>>)
    ensures
        bindings_view(r@) == registry@,
{
    let mut out: Vec<Binding<T>> = Vec::new();
    let mut i: usize = 0;
    while i < registry.entries.len()
        invariant
            i <= registry.entries@.len(),
            bindings_view(out@) == registry@.subrange(0, i as int),
        decreases registry.entries@.len() - i,
    {
        let b = &registry.entries[i];
        let name = b.name.clone();
        assert(name@ == registry@[i as int].0);
        let ghost prev = out@;
        out.push(Binding { name, trampoline: b.trampoline });
        assert(bindings_view(out@) =~= bindings_view(prev).push(registry@[i as int]));
        assert(registry@.subrange(0, i + 1) =~= registry@.subrange(0, i as int).push(
            registry@[i as int],
        ));
        i = i + 1;
    }
    assert(registry@.subrange(0, i as int) =~= registry@);
    out
}

} // verus!
