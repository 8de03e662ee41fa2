//! The environment: a stack of scopes, and the values printed so far.
//!
//! The outermost scope is the global one and is always there. A block pushes
//! a scope on entry and pops it on exit. A name is looked up from the
//! innermost scope outwards, so the nearest declaration wins.
use vstd::prelude::*;
use vstd::hash_map::StringHashMap;
use vstd::string::StringExecFns;
use crate::error::{Error, ErrorView};
use crate::text::append;
use crate::value::{ExprEval, Value};

verus! {

/// What a scope binds: a declared name has an entry, which holds its value
/// once it has one.
pub type Bindings = Map<Seq<char>, Option<Value>>;

/// The mathematical value of an [`Environment`].
pub struct EnvironmentView {
    /// The scopes, the global one first and the innermost last. There is
    /// always at least one.
    pub scopes: Seq<Bindings>,
    /// The values printed so far, oldest first.
    pub printed: Seq<Value>,
}

/// The value of an optional value.
pub open spec fn optional(value: Option<ExprEval>) -> Option<Value> {
    match value {
        Some(v) => Some(v@),
        None => None,
    }
}

/// The values of a sequence of values.
pub open spec fn values(items: Seq<ExprEval>) -> Seq<Value> {
    items.map_values(|v: ExprEval| v@)
}

/// The index of the innermost scope among `scopes[0..=top]` that declares
/// `name`; `-1` if none does.
pub open spec fn holder(scopes: Seq<Bindings>, name: Seq<char>, top: int) -> int
    decreases top + 1,
{
    if top < 0 || top >= scopes.len() {
        -1
    } else if scopes[top].contains_key(name) {
        top
    } else {
        holder(scopes, name, top - 1)
    }
}

/// The message of the error for a name that no scope declares.
pub open spec fn undefined_access(name: Seq<char>) -> Seq<char> {
    "Undefined variable access \""@ + name + "\""@
}

impl EnvironmentView {
    /// The environment a run starts with: the global scope, empty, and
    /// nothing printed.
    pub open spec fn fresh() -> EnvironmentView {
        EnvironmentView { scopes: seq![Map::empty()], printed: Seq::empty() }
    }

    /// Whether there is a scope, as there always is.
    pub open spec fn well_formed(self) -> bool {
        self.scopes.len() >= 1
    }

    /// With a new, empty innermost scope.
    pub open spec fn enter(self) -> EnvironmentView {
        EnvironmentView { scopes: self.scopes.push(Map::empty()), ..self }
    }

    /// Without the innermost scope; the global scope stays.
    pub open spec fn exit(self) -> EnvironmentView {
        if self.scopes.len() > 1 {
            EnvironmentView { scopes: self.scopes.drop_last(), ..self }
        } else {
            self
        }
    }

    /// With `name` bound to `value` in the innermost scope, whatever it was
    /// bound to there before.
    pub open spec fn define(self, name: Seq<char>, value: Option<Value>) -> EnvironmentView {
        EnvironmentView {
            scopes: self.scopes.update(
                self.scopes.len() - 1,
                self.scopes.last().insert(name, value),
            ),
            ..self
        }
    }

    /// The index of the innermost scope that declares `name`; `-1` if none
    /// does.
    pub open spec fn holder(self, name: Seq<char>) -> int {
        holder(self.scopes, name, self.scopes.len() - 1)
    }

    /// Whether some scope declares `name`.
    pub open spec fn declares(self, name: Seq<char>) -> bool {
        self.holder(name) >= 0
    }

    /// What `name` is bound to in the innermost scope that declares it:
    /// `None` if no scope does, `Some(None)` if it has no value yet.
    pub open spec fn lookup(self, name: Seq<char>) -> Option<Option<Value>> {
        if self.declares(name) {
            Some(self.scopes[self.holder(name)][name])
        } else {
            None
        }
    }

    /// With `name` bound to `value` in the innermost scope that declares
    /// it; unchanged if no scope does.
    pub open spec fn assign(self, name: Seq<char>, value: Option<Value>) -> EnvironmentView {
        if self.declares(name) {
            EnvironmentView {
                scopes: self.scopes.update(
                    self.holder(name),
                    self.scopes[self.holder(name)].insert(name, value),
                ),
                ..self
            }
        } else {
            self
        }
    }

    /// With `value` printed.
    pub open spec fn print(self, value: Value) -> EnvironmentView {
        EnvironmentView { printed: self.printed.push(value), ..self }
    }
}

/// The innermost declaring scope is one of the scopes searched, and it
/// declares the name; no scope further in does.
pub proof fn holder_holds(scopes: Seq<Bindings>, name: Seq<char>, top: int)
    requires
        -1 <= top < scopes.len(),
    ensures
        -1 <= holder(scopes, name, top) <= top,
        holder(scopes, name, top) >= 0 ==> scopes[holder(scopes, name, top)].contains_key(name),
        forall|i: int| holder(scopes, name, top) < i <= top ==> !scopes[i].contains_key(name),
    decreases top + 1,
{
    if top >= 0 && !scopes[top].contains_key(name) {
        holder_holds(scopes, name, top - 1);
    }
}

/// One level of bindings.
pub struct Scope {
    values: StringHashMap<Option<ExprEval>>,
}

impl View for Scope {
    type V = Bindings;

    closed spec fn view(&self) -> Bindings {
        Map::new(
            |name: Seq<char>| self.values@.contains_key(name),
            |name: Seq<char>| optional(self.values@[name]),
        )
    }
}

impl Scope {
    /// A scope that declares nothing.
    fn new() -> (scope: Scope)
        ensures
            scope@ == Map::<Seq<char>, Option<Value>>::empty(),
    {
        let scope = Scope { values: StringHashMap::new() };
        assert(scope@ =~= Map::<Seq<char>, Option<Value>>::empty());
        scope
    }

    /// Binds `name` to `value`.
    fn insert(&mut self, name: String, value: Option<ExprEval>)
        ensures
            final(self)@ == old(self)@.insert(name@, optional(value)),
    {
        self.values.insert(name, value);
        assert(self@ =~= old(self)@.insert(name@, optional(value)));
    }

    /// Whether the scope declares `name`.
    fn declares(&self, name: &str) -> (r: bool)
        ensures
            r == self@.contains_key(name@),
    {
        self.values.contains_key(name)
    }

    /// What `name` is bound to, if the scope declares it.
    fn get(&self, name: &str) -> (r: Option<&Option<ExprEval>>)
        ensures
            match r {
                Some(v) => self@.contains_key(name@) && optional(*v) == self@[name@],
                None => !self@.contains_key(name@),
            },
    {
        self.values.get(name)
    }
}

/// The scopes of a run and what it has printed.
pub struct Environment {
    global: Scope,
    inner: Vec<Scope>,
    output: Vec<ExprEval>,
}

impl View for Environment {
    type V = EnvironmentView;

    closed spec fn view(&self) -> EnvironmentView {
        EnvironmentView {
            scopes: Seq::new(
                self.inner@.len() + 1,
                |i: int|
                    if i == 0 {
                        self.global@
                    } else {
                        self.inner@[i - 1]@
                    },
            ),
            printed: values(self.output@),
        }
    }
}

impl Environment {
    /// The environment a run starts with.
    pub fn new() -> (env: Self)
        ensures
            env@ == EnvironmentView::fresh(),
    {
        let env = Environment { global: Scope::new(), inner: Vec::new(), output: Vec::new() };
        assert(env@.scopes =~= EnvironmentView::fresh().scopes);
        assert(env@.printed =~= EnvironmentView::fresh().printed);
        env
    }

    /// Every environment has its global scope.
    pub proof fn always_well_formed(&self)
        ensures
            self@.well_formed(),
    {
    }

    /// Pushes a new, empty scope.
    pub fn enter_scope(&mut self)
        ensures
            final(self)@ == old(self)@.enter(),
    {
        self.inner.push(Scope::new());
        assert(self@.scopes =~= old(self)@.enter().scopes);
    }

    /// Pops the innermost scope; the global scope stays.
    pub fn exit_scope(&mut self)
        ensures
            final(self)@ == old(self)@.exit(),
    {
        self.inner.pop();
        assert(self@.scopes =~= old(self)@.exit().scopes);
    }

    /// Binds `identifier` to `value` in the innermost scope.
    pub fn define(&mut self, identifier: String, value: Option<ExprEval>)
        ensures
            final(self)@ == old(self)@.define(identifier@, optional(value)),
    {
        let depth = self.inner.len();
        if depth > 0 {
            self.inner[depth - 1].insert(identifier, value);
        } else {
            self.global.insert(identifier, value);
        }
        assert(self@.scopes =~= old(self)@.define(identifier@, optional(value)).scopes);
    }

    /// Binds `identifier` to `value` in the innermost scope that declares
    /// it, and tells whether one does. Without one nothing changes.
    pub fn assign(&mut self, identifier: String, value: Option<ExprEval>) -> (found: bool)
        ensures
            found == old(self)@.declares(identifier@),
            final(self)@ == old(self)@.assign(identifier@, optional(value)),
    {
        let ghost scopes = self@.scopes;
        let ghost name = identifier@;
        let mut i: usize = self.inner.len();
        while i > 0
            invariant
                i <= self.inner.len(),
                *self == *old(self),
                scopes == self@.scopes,
                name == identifier@,
                holder(scopes, name, scopes.len() - 1) == holder(scopes, name, i as int),
            decreases i,
        {
            if self.inner[i - 1].declares(identifier.as_str()) {
                self.inner[i - 1].insert(identifier, value);
                assert(self@.scopes =~= old(self)@.assign(name, optional(value)).scopes);
                return true;
            }
            i -= 1;
        }
        assert(scopes[0] == self.global@);
        assert(holder(scopes, name, -1) == -1);
        if self.global.declares(identifier.as_str()) {
            self.global.insert(identifier, value);
            assert(self@.scopes =~= old(self)@.assign(name, optional(value)).scopes);
            true
        } else {
            false
        }
    }

    /// What `identifier` is bound to in the innermost scope that declares
    /// it: an error if no scope does, `None` if it has no value yet.
    pub fn get(&self, identifier: &str) -> (r: Result<&Option<ExprEval>, Box<Error>>)
        ensures
            match self@.lookup(identifier@) {
                Some(bound) => r matches Ok(value) && optional(*value) == bound,
                None => r matches Err(e) && e@ == ErrorView::ParseError(
                    undefined_access(identifier@),
                ),
            },
    {
        let ghost scopes = self@.scopes;
        let mut i: usize = self.inner.len();
        while i > 0
            invariant
                i <= self.inner.len(),
                scopes == self@.scopes,
                holder(scopes, identifier@, scopes.len() - 1) == holder(scopes, identifier@, i as int),
            decreases i,
        {
            match self.inner[i - 1].get(identifier) {
                Some(value) => {
                    return Ok(value);
                },
                None => {},
            }
            i -= 1;
        }
        assert(scopes[0] == self.global@);
        assert(holder(scopes, identifier@, -1) == -1);
        match self.global.get(identifier) {
            Some(value) => Ok(value),
            None => {
                let mut msg = String::from_str("Undefined variable access \"");
                msg = append(msg, identifier);
                msg = append(msg, "\"");
                Err(Box::new(Error::ParseError(msg)))
            },
        }
    }

    /// Records `value` as printed.
    pub fn print(&mut self, value: ExprEval)
        ensures
            final(self)@ == old(self)@.print(value@),
    {
        assert(values(self.output@.push(value)) =~= values(self.output@).push(value@));
        self.output.push(value);
    }

    /// The values printed so far, oldest first.
    pub fn output(&self) -> (printed: &Vec<ExprEval>)
        ensures
            values(printed@) == self@.printed,
    {
        &self.output
    }

    /// The number of scopes, the global one included.
    pub fn depth(&self) -> (n: usize)
        requires
            self@.scopes.len() <= usize::MAX,
        ensures
            n == self@.scopes.len(),
    {
        self.inner.len() + 1
    }
}

} // verus!
