//! The symbol table: scope records with parent links, and the storage
//! bindings that lowering fills in.
//!
//! The scope skeleton (which scope has which parent) comes from the
//! earlier front-end stages; lowering appends one binding per declared
//! variable, associating (scope, name) with the register of the storage
//! allocated for it. Lookup searches the current scope, then each
//! enclosing scope outward along the parent links, taking at each scope
//! the binding made last; it follows at most as many parent links as
//! there are scope records, so it ends on any input.

use vstd::prelude::*;

verus! {

/// One scope record: its identifier (the AST node that opened it) and
/// its parent scope, if any.
#[derive(Debug, Copy, Clone, PartialEq, Eq, Structural)]
pub struct Scope {
    pub id: u64,
    pub parent: Option<u64>,
}

/// One storage binding: in scope `scope`, the variable `name` lives in
/// the storage whose handle is register `slot`.
#[derive(Debug, PartialEq)]
pub struct Binding {
    pub scope: u64,
    pub name: String,
    pub slot: u64,
}

/// Mathematical model of a binding.
pub struct BindingS {
    pub scope: u64,
    pub name: Seq<char>,
    pub slot: u64,
}

impl View for Binding {
    type V = BindingS;

    open spec fn view(&self) -> BindingS {
        BindingS { scope: self.scope, name: self.name@, slot: self.slot }
    }
}

/// The symbol table.
#[derive(Debug, PartialEq)]
pub struct SymbolTable {
    pub scopes: Vec<Scope>,
    pub bindings: Vec<Binding>,
}

/// Mathematical model of the symbol table.
pub struct SymTabS {
    pub scopes: Seq<Scope>,
    pub bindings: Seq<BindingS>,
}

impl View for SymbolTable {
    type V = SymTabS;

    open spec fn view(&self) -> SymTabS {
        SymTabS { scopes: self.scopes@, bindings: self.bindings@.map_values(|b: Binding| b@) }
    }
}

/// The first scope record with the given identifier.
pub open spec fn spec_find_scope(scopes: Seq<Scope>, id: u64) -> Option<Scope>
    decreases scopes,
{
    if scopes.len() == 0 {
        None
    } else if scopes[0].id == id {
        Some(scopes[0])
    } else {
        spec_find_scope(scopes.drop_first(), id)
    }
}

/// The binding made last for `name` in exactly the scope `scope`.
pub open spec fn spec_find_in_scope(bindings: Seq<BindingS>, scope: u64, name: Seq<char>) -> Option<
    u64,
>
    decreases bindings,
{
    if bindings.len() == 0 {
        None
    } else if bindings.last().scope == scope && bindings.last().name == name {
        Some(bindings.last().slot)
    } else {
        spec_find_in_scope(bindings.drop_last(), scope, name)
    }
}

/// Lookup along the parent chain, spending one unit of fuel per scope
/// step.
pub open spec fn spec_lookup(st: SymTabS, scope: u64, name: Seq<char>, fuel: nat) -> Option<u64>
    decreases fuel,
{
    if fuel == 0 {
        None
    } else {
        match spec_find_in_scope(st.bindings, scope, name) {
            Some(slot) => Some(slot),
            None => match spec_find_scope(st.scopes, scope) {
                None => None,
                Some(rec) => match rec.parent {
                    Some(p) => spec_lookup(st, p, name, (fuel - 1) as nat),
                    None => None,
                },
            },
        }
    }
}

/// Resolution of `name` from `scope`: the current scope first, then
/// each enclosing scope outward, following at most one parent link per
/// scope record in the table.
pub open spec fn spec_find_variable(st: SymTabS, scope: u64, name: Seq<char>) -> Option<u64> {
    spec_lookup(st, scope, name, st.scopes.len())
}

/// Recording a storage binding: appended, so it shadows earlier
/// bindings of the same name in the same scope.
pub open spec fn spec_set_local(st: SymTabS, scope: u64, name: Seq<char>, slot: u64) -> SymTabS {
    SymTabS { scopes: st.scopes, bindings: st.bindings.push(BindingS { scope, name, slot }) }
}

impl SymbolTable {
    /// An empty table: no scopes, no bindings.
    pub fn new() -> (r: SymbolTable)
        ensures
            r@.scopes =~= Seq::<Scope>::empty(),
            r@.bindings =~= Seq::<BindingS>::empty(),
    {
        let r = SymbolTable { scopes: Vec::new(), bindings: Vec::new() };
        proof {
            assert(r@.bindings =~= Seq::<BindingS>::empty());
        }
        r
    }

    /// Add a scope record (the front end builds the skeleton with
    /// this).
    pub fn add_scope(&mut self, id: u64, parent: Option<u64>)
        ensures
            (*final(self))@.scopes == (*old(self))@.scopes.push(Scope { id, parent }),
            (*final(self))@.bindings == (*old(self))@.bindings,
    {
        self.scopes.push(Scope { id, parent });
        proof {
            assert((*self)@.bindings =~= (*old(self))@.bindings);
        }
    }

    /// Record the storage handle assigned to `name` in `scope`.
    pub fn set_local(&mut self, scope: u64, name: &String, slot: u64)
        ensures
            (*final(self))@ == spec_set_local((*old(self))@, scope, name@, slot),
    {
        self.bindings.push(Binding { scope, name: name.clone(), slot });
        proof {
            assert((*self)@.bindings =~= spec_set_local((*old(self))@, scope, name@, slot).bindings);
        }
    }

    /// The first scope record with the given identifier, scanning from
    /// position `i`.
    fn find_scope_from(&self, id: u64, i: usize) -> (r: Option<Scope>)
        requires
            i <= self.scopes@.len(),
        ensures
            r == spec_find_scope(self.scopes@.skip(i as int), id),
        decreases self.scopes@.len() - i,
    {
        if i == self.scopes.len() {
            proof {
                assert(self.scopes@.skip(i as int) =~= Seq::<Scope>::empty());
            }
            None
        } else {
            let ghost suffix = self.scopes@.skip(i as int);
            proof {
                assert(suffix[0] == self.scopes@[i as int]);
                assert(suffix.drop_first() =~= self.scopes@.skip(i as int + 1));
            }
            let rec = self.scopes[i];
            if rec.id == id {
                Some(rec)
            } else {
                self.find_scope_from(id, i + 1)
            }
        }
    }

    /// The binding made last for `name` in `scope`, among the first `n`
    /// bindings.
    fn find_in_scope_upto(&self, scope: u64, name: &String, n: usize) -> (r: Option<u64>)
        requires
            n <= self.bindings@.len(),
        ensures
            r == spec_find_in_scope((*self)@.bindings.take(n as int), scope, name@),
        decreases n,
    {
        if n == 0 {
            proof {
                assert((*self)@.bindings.take(0) =~= Seq::<BindingS>::empty());
            }
            None
        } else {
            let ghost prefix = (*self)@.bindings.take(n as int);
            proof {
                assert(prefix.last() == (*self)@.bindings[n - 1]);
                assert(prefix.drop_last() =~= (*self)@.bindings.take(n as int - 1));
            }
            let b = &self.bindings[n - 1];
            if b.scope == scope && b.name == *name {
                Some(b.slot)
            } else {
                self.find_in_scope_upto(scope, name, n - 1)
            }
        }
    }

    /// Lookup along the parent chain with explicit fuel.
    fn lookup_fuel(&self, scope: u64, name: &String, fuel: usize) -> (r: Option<u64>)
        ensures
            r == spec_lookup((*self)@, scope, name@, fuel as nat),
        decreases fuel,
    {
        if fuel == 0 {
            None
        } else {
            let n = self.bindings.len();
            proof {
                assert((*self)@.bindings.take(n as int) =~= (*self)@.bindings);
            }
            match self.find_in_scope_upto(scope, name, n) {
                Some(slot) => Some(slot),
                None => {
                    proof {
                        assert(self.scopes@.skip(0) =~= self.scopes@);
                    }
                    match self.find_scope_from(scope, 0) {
                        None => None,
                        Some(rec) => match rec.parent {
                            Some(p) => self.lookup_fuel(p, name, fuel - 1),
                            None => None,
                        },
                    }
                },
            }
        }
    }

    /// Resolve `name` from `scope`: the current scope first, then each
    /// enclosing scope outward. `None` means no visible binding.
    pub fn find_variable(&self, scope: u64, name: &String) -> (r: Option<u64>)
        ensures
            r == spec_find_variable((*self)@, scope, name@),
    {
        let fuel = self.scopes.len();
        self.lookup_fuel(scope, name, fuel)
    }
}

} // verus!
