use std::collections::HashMap;
use vstd::prelude::*;
use vstd::seq_lib::seq_to_set_is_finite;

use crate::content::Part;
use crate::text::{concat, owned};

verus! {

/// What dispatching a part that is not a function call fails with.
pub open spec fn not_a_function_call_message() -> Seq<char> {
    "Not a function call"@
}

/// The error of dispatching a part that is not a function call.
pub fn not_a_function_call_error() -> (e: String)
    ensures
        e@ == not_a_function_call_message(),
{
    owned("Not a function call")
}

/// What dispatching a call of an unregistered function fails with.
pub open spec fn unknown_function_message(name: Seq<char>) -> Seq<char> {
    "Unknown function: "@ + name
}

/// What a handler may return when called with the arguments `args`.
pub open spec fn handler_result<F: Fn(HashMap<String, String>) -> Result<String, String>>(
    handler: F,
    args: Map<String, String>,
    r: Result<String, String>,
) -> bool {
    exists|a: HashMap<String, String>| a@ == args && call_ensures(handler, (a,), r)
}

/// What dispatching `part` over the handlers `functions` may return: the
/// result of the named handler called with the call's arguments, or an error
/// when `part` is text or names no handler.
pub open spec fn dispatched<F: Fn(HashMap<String, String>) -> Result<String, String>>(
    functions: Map<Seq<char>, F>,
    part: Part,
    r: Result<String, String>,
) -> bool {
    match part {
        Part::Text(_) => r matches Err(e) && e@ == not_a_function_call_message(),
        Part::FunctionCall { name, args } => if functions.contains_key(name@) {
            handler_result(functions[name@], args@, r)
        } else {
            r matches Err(e) && e@ == unknown_function_message(name@)
        },
    }
}

/// The handlers that the model may ask to have called, by name.
///
/// Each name appears at most once; registering a name again replaces its
/// handler.
pub struct FunctionRegistry<F> {
    entries: Vec<(String, F)>,
}

impl<F> View for FunctionRegistry<F> {
    type V = Map<Seq<char>, F>;

    /// The handler registered under each name.
    closed spec fn view(&self) -> Map<Seq<char>, F> {
        Map::new(
            |k: Seq<char>| self.names().contains(k),
            |k: Seq<char>| self.entries@[self.names().index_of(k)].1,
        )
    }
}

impl<F> FunctionRegistry<F> {
    /// The registered names, in the order in which they are stored.
    spec fn names(&self) -> Seq<Seq<char>> {
        self.entries@.map_values(|e: (String, F)| e.0@)
    }

    /// No name is registered twice.
    pub closed spec fn wf(&self) -> bool {
        self.names().no_duplicates()
    }

    proof fn lemma_entry_at(&self, i: int)
        requires
            self.wf(),
            0 <= i < self.entries@.len(),
        ensures
            self@.contains_key(self.entries@[i].0@),
            self@[self.entries@[i].0@] == self.entries@[i].1,
    {
        let k = self.entries@[i].0@;
        assert(self.names()[i] == k);
        assert(self.names().contains(k));
        let j = self.names().index_of(k);
        assert(self.names()[j] == k);
    }

    proof fn lemma_len(&self)
        requires
            self.wf(),
        ensures
            self@.dom().finite(),
            self@.len() == self.entries@.len(),
    {
        assert(self@.dom() =~= self.names().to_set());
        seq_to_set_is_finite(self.names());
        self.names().unique_seq_to_set();
    }

    /// A registry with no function in it.
    pub fn new() -> (r: Self)
        ensures
            r.wf(),
            r@ == Map::<Seq<char>, F>::empty(),
    {
        let r = FunctionRegistry { entries: Vec::new() };
        assert(r@ =~= Map::<Seq<char>, F>::empty());
        r
    }

    /// How many functions are registered.
    pub fn len(&self) -> (n: usize)
        requires
            self.wf(),
        ensures
            n == self@.len(),
    {
        proof { self.lemma_len(); }
        self.entries.len()
    }

    /// Registers `handler` under `name`, replacing any handler that was
    /// registered under it before.
    pub fn register(&mut self, name: String, handler: F)
        requires
            old(self).wf(),
        ensures
            final(self).wf(),
            final(self)@ == old(self)@.insert(name@, handler),
    {
        let ghost k = name@;
        let ghost cut: int = -1;
        match self.find(&name) {
            Some(i) => {
                self.entries.remove(i);
                proof {
                    cut = i as int;
                }
            },
            None => {},
        }
        // Every entry left keeps its place, or moves down by one past the cut.
        assert forall|j: int| 0 <= j < self.entries@.len() implies
            #[trigger] self.entries@[j] == old(self).entries@[Self::shifted(cut, j)]
            && Self::shifted(cut, j) != cut
            && 0 <= Self::shifted(cut, j) < old(self).entries@.len() by {}
        let ghost mid = self.entries@;
        self.entries.push((name, handler));
        proof {
            let fin = self.entries@;
            let n = fin.len() - 1;
            assert(fin[n].0@ == k);
            // The old entries that survive are those not named `k`.
            assert forall|t: int| 0 <= t < old(self).entries@.len() && #[trigger] old(self).entries@[t].0@ != k
                implies t != cut && fin[if cut >= 0 && t > cut { t - 1 } else { t }] == old(self).entries@[t] by {
                if cut >= 0 {
                    assert(old(self).names()[cut] == k);
                }
            }
            assert(self.names().no_duplicates()) by {
                assert forall|a: int, b: int| 0 <= a < self.names().len() && 0 <= b < self.names().len() && a != b
                    implies self.names()[a] != self.names()[b] by {
                    if a < n && b < n {
                        let sa = Self::shifted(cut, a);
                        let sb = Self::shifted(cut, b);
                        assert(mid[a] == old(self).entries@[sa]);
                        assert(mid[b] == old(self).entries@[sb]);
                        assert(old(self).names()[sa] == old(self).entries@[sa].0@);
                        assert(old(self).names()[sb] == old(self).entries@[sb].0@);
                    } else if a < n {
                        let sa = Self::shifted(cut, a);
                        assert(mid[a] == old(self).entries@[sa]);
                        assert(old(self).names()[sa] == old(self).entries@[sa].0@);
                        if cut >= 0 {
                            assert(old(self).names()[cut] == k);
                        } else {
                            assert(!old(self).names().contains(k));
                        }
                    } else if b < n {
                        let sb = Self::shifted(cut, b);
                        assert(mid[b] == old(self).entries@[sb]);
                        assert(old(self).names()[sb] == old(self).entries@[sb].0@);
                        if cut >= 0 {
                            assert(old(self).names()[cut] == k);
                        } else {
                            assert(!old(self).names().contains(k));
                        }
                    }
                }
            }
            self.lemma_entry_at(n);
            assert forall|x: Seq<char>| x != k implies
                (#[trigger] self@.contains_key(x) == old(self)@.contains_key(x))
                && (self@.contains_key(x) ==> self@[x] == old(self)@[x]) by {
                if self.names().contains(x) {
                    let j = choose|j: int| 0 <= j < self.names().len() && self.names()[j] == x;
                    let sj = Self::shifted(cut, j);
                    assert(mid[j] == old(self).entries@[sj]);
                    assert(old(self).names()[sj] == x);
                    self.lemma_entry_at(j);
                    old(self).lemma_entry_at(sj);
                }
                if old(self).names().contains(x) {
                    let t = choose|t: int| 0 <= t < old(self).names().len() && old(self).names()[t] == x;
                    assert(old(self).entries@[t].0@ == x);
                    let u = if cut >= 0 && t > cut { t - 1 } else { t };
                    assert(self.names()[u] == x);
                }
            }
            assert(self@ =~= old(self)@.insert(k, handler));
        }
    }

    spec fn shifted(cut: int, j: int) -> int {
        if cut >= 0 && j >= cut { j + 1 } else { j }
    }

    /// Where `name` stands among the entries, if it is registered.
    fn find(&self, name: &String) -> (r: Option<usize>)
        requires
            self.wf(),
        ensures
            match r {
                Some(i) => i < self.entries@.len() && self.entries@[i as int].0@ == name@,
                None => !self@.contains_key(name@),
            },
    {
        let mut i: usize = 0;
        while i < self.entries.len()
            invariant
                i <= self.entries@.len(),
                forall|j: int| 0 <= j < i ==> self.entries@[j].0@ != name@,
            decreases self.entries@.len() - i,
        {
            if self.entries[i].0 == *name {
                return Some(i);
            }
            i += 1;
        }
        assert(!self.names().contains(name@));
        None
    }
}

impl<F: Fn(HashMap<String, String>) -> Result<String, String>> FunctionRegistry<F> {
    /// Every registered handler may be called with any arguments.
    pub open spec fn callable(&self) -> bool {
        forall|k: Seq<char>, a: HashMap<String, String>|
            self@.contains_key(k) ==> #[trigger] call_requires(self@[k], (a,))
    }

    /// Calls the handler that `part` names with a copy of its arguments and
    /// returns what the handler returned.
    ///
    /// Fails without calling anything when `part` is text, or when no handler
    /// is registered under the name it gives.
    pub fn dispatch(&self, part: &Part) -> (r: Result<String, String>)
        requires
            self.wf(),
            self.callable(),
        ensures
            dispatched(self@, *part, r),
    {
        match part {
            Part::FunctionCall { name, args } => match self.find(name) {
                Some(i) => {
                    proof {
                        self.lemma_entry_at(i as int);
                    }
                    let handler = &self.entries[i].1;
                    let a = args.clone();
                    let r = handler(a);
                    assert(a@ == args@ && call_ensures(self@[name@], (a,), r));
                    r
                },
                None => Err(concat(owned("Unknown function: "), name.as_str())),
            },
            Part::Text(_) => Err(not_a_function_call_error()),
        }
    }
}

/// The handlers after registering `handlers[i]` under `names[i]`, in order,
/// starting from `functions`.
pub open spec fn register_all<F>(
    functions: Map<Seq<char>, F>,
    names: Seq<Seq<char>>,
    handlers: Seq<F>,
) -> Map<Seq<char>, F>
    decreases names.len(),
{
    if names.len() == 0 || handlers.len() == 0 {
        functions
    } else {
        register_all(
            functions,
            names.drop_last(),
            handlers.take(handlers.len() - 1),
        ).insert(names.last(), handlers[names.len() - 1])
    }
}

/// After a handler is registered under a name, dispatching a call of that
/// name calls that handler with exactly the call's arguments and returns its
/// result unchanged.
pub proof fn lemma_register_then_dispatch<F: Fn(HashMap<String, String>) -> Result<String, String>>(
    functions: Map<Seq<char>, F>,
    name: String,
    handler: F,
    args: HashMap<String, String>,
    r: Result<String, String>,
)
    requires
        dispatched(functions.insert(name@, handler), Part::FunctionCall { name, args }, r),
    ensures
        handler_result(handler, args@, r),
{
}

/// Dispatching a call of a name under which nothing was registered fails
/// with an error that names it.
pub proof fn lemma_dispatch_unknown<F: Fn(HashMap<String, String>) -> Result<String, String>>(
    functions: Map<Seq<char>, F>,
    name: String,
    args: HashMap<String, String>,
    r: Result<String, String>,
)
    requires
        !functions.contains_key(name@),
        dispatched(functions, Part::FunctionCall { name, args }, r),
    ensures
        r matches Err(e) && e@ == unknown_function_message(name@),
{
}

/// Dispatching text fails as not a function call, whatever is registered.
pub proof fn lemma_dispatch_text<F: Fn(HashMap<String, String>) -> Result<String, String>>(
    functions: Map<Seq<char>, F>,
    text: String,
    r: Result<String, String>,
)
    requires
        dispatched(functions, Part::Text(text), r),
    ensures
        r matches Err(e) && e@ == not_a_function_call_message(),
{
}

/// Registering two handlers under one name keeps only the second: the
/// registry is as if the first had never been registered, and dispatching
/// that name reaches the second.
pub proof fn lemma_register_twice<F: Fn(HashMap<String, String>) -> Result<String, String>>(
    functions: Map<Seq<char>, F>,
    name: String,
    first: F,
    second: F,
    args: HashMap<String, String>,
    r: Result<String, String>,
)
    requires
        dispatched(
            functions.insert(name@, first).insert(name@, second),
            Part::FunctionCall { name, args },
            r,
        ),
    ensures
        functions.insert(name@, first).insert(name@, second) == functions.insert(name@, second),
        handler_result(second, args@, r),
{
    assert(functions.insert(name@, first).insert(name@, second) =~= functions.insert(name@, second));
}

/// A new registry knows no function: dispatching any call fails as unknown.
pub proof fn lemma_new_registry_knows_nothing<F: Fn(HashMap<String, String>) -> Result<String, String>>(
    name: String,
    args: HashMap<String, String>,
    r: Result<String, String>,
)
    requires
        dispatched(Map::<Seq<char>, F>::empty(), Part::FunctionCall { name, args }, r),
    ensures
        r matches Err(e) && e@ == unknown_function_message(name@),
{
}

/// Registering handlers under distinct names, in any order, one at a time,
/// leaves exactly those names registered, each with its own handler.
pub proof fn lemma_register_distinct<F>(names: Seq<Seq<char>>, handlers: Seq<F>)
    requires
        names.no_duplicates(),
        names.len() == handlers.len(),
    ensures
        register_all(Map::empty(), names, handlers).dom() == names.to_set(),
        register_all(Map::empty(), names, handlers).len() == names.len(),
        forall|i: int|
            0 <= i < names.len() ==> #[trigger] register_all(Map::empty(), names, handlers)[names[i]]
                == handlers[i],
    decreases names.len(),
{
    let m = register_all(Map::empty(), names, handlers);
    if names.len() == 0 {
        assert(m.dom() =~= names.to_set());
    } else {
        let n = names.len() - 1;
        let ns = names.drop_last();
        let hs = handlers.take(n);
        assert(ns.no_duplicates());
        lemma_register_distinct(ns, hs);
        let prev = register_all(Map::<Seq<char>, F>::empty(), ns, hs);
        assert(!ns.contains(names[n])) by {
            if ns.contains(names[n]) {
                let j = choose|j: int| 0 <= j < ns.len() && ns[j] == names[n];
                assert(names[j] == names[n]);
            }
        }
        assert(names =~= ns.push(names[n]));
        assert(m.dom() =~= names.to_set()) by {
            assert forall|x: Seq<char>| m.dom().contains(x) <==> names.to_set().contains(x) by {
                if ns.contains(x) {
                    let j = choose|j: int| 0 <= j < ns.len() && ns[j] == x;
                    assert(names[j] == x);
                }
                if names.contains(x) {
                    let j = choose|j: int| 0 <= j < names.len() && names[j] == x;
                    if j < n {
                        assert(ns[j] == x);
                    }
                }
            }
        }
        names.unique_seq_to_set();
        assert forall|i: int| 0 <= i < names.len() implies #[trigger] m[names[i]] == handlers[i] by {
            if i < n {
                assert(ns[i] == names[i]);
                assert(prev[ns[i]] == hs[i]);
            }
        }
    }
}

} // verus!
