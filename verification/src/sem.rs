//! The scope/symbol table handed over by the semantic-analysis collaborator,
//! read-only here: the bindings visible in the root scope, each with its flag
//! set and its references tagged as type or value uses.

use vstd::prelude::*;

verus! {

/// One resolved reference to a symbol.
#[derive(Clone, Copy, PartialEq, Eq, Structural, Debug)]
pub struct Reference {
    /// The reference is a type use; otherwise it is a value use.
    pub is_type: bool,
}

/// One root-scope binding.
#[derive(Debug, PartialEq)]
pub struct Symbol {
    pub name: String,
    pub import_binding: bool,
    pub function_scoped: bool,
    pub block_scoped: bool,
    pub references: Vec<Reference>,
}

/// The root scope's bindings, looked up by name.
#[derive(Debug, PartialEq)]
pub struct SymbolTable {
    pub symbols: Vec<Symbol>,
}

pub struct SpecSymbol {
    pub name: Seq<char>,
    pub import_binding: bool,
    pub function_scoped: bool,
    pub block_scoped: bool,
    pub references: Seq<Reference>,
}

pub open spec fn view_symbol(s: Symbol) -> SpecSymbol {
    SpecSymbol {
        name: s.name@,
        import_binding: s.import_binding,
        function_scoped: s.function_scoped,
        block_scoped: s.block_scoped,
        references: s.references@,
    }
}

pub open spec fn view_symbols(ss: Seq<Symbol>) -> Seq<SpecSymbol> {
    Seq::new(ss.len(), |i: int| view_symbol(ss[i]))
}

pub open spec fn view_table(t: SymbolTable) -> Seq<SpecSymbol> {
    view_symbols(t.symbols@)
}

/// The first binding of the given name, if any.
pub open spec fn spec_find_binding(symbols: Seq<SpecSymbol>, name: Seq<char>) -> Option<SpecSymbol>
    decreases symbols,
{
    if symbols.len() == 0 {
        Option::None
    } else if symbols[0].name == name {
        Option::Some(symbols[0])
    } else {
        spec_find_binding(symbols.subrange(1, symbols.len() as int), name)
    }
}

/// The name's sole root-scope binding is an import binding and nothing else in
/// the file re-declares it as a runtime variable.
pub open spec fn spec_is_import_binding_only(symbols: Seq<SpecSymbol>, name: Seq<char>) -> bool {
    match spec_find_binding(symbols, name) {
        Option::Some(s) => s.import_binding && !s.function_scoped && !s.block_scoped,
        Option::None => false,
    }
}

/// The name is bound in the root scope and at least one of its references is a
/// value use.
pub open spec fn spec_has_value_references(symbols: Seq<SpecSymbol>, name: Seq<char>) -> bool {
    match spec_find_binding(symbols, name) {
        Option::Some(s) => exists|i: int| 0 <= i < s.references.len() && !s.references[i].is_type,
        Option::None => false,
    }
}

impl SymbolTable {
    /// Looks the name up in the root scope.
    pub fn get_binding(&self, name: &String) -> (r: Option<&Symbol>)
        ensures
            match r {
                Option::Some(s) => spec_find_binding(view_table(*self), name@) == Option::Some(
                    view_symbol(*s),
                ),
                Option::None => spec_find_binding(view_table(*self), name@) == Option::None::<
                    SpecSymbol,
                >,
            },
    {
        let n: usize = self.symbols.len();
        let mut i: usize = 0;
        proof {
            assert(view_table(*self).subrange(0, n as int) =~= view_table(*self));
        }
        while i < n
            invariant
                0 <= i <= n,
                n == self.symbols@.len(),
                spec_find_binding(view_table(*self), name@) == spec_find_binding(
                    view_table(*self).subrange(i as int, n as int),
                    name@,
                ),
            decreases n - i,
        {
            let ghost pre = view_table(*self).subrange(i as int, n as int);
            if self.symbols[i].name == *name {
                assert(pre[0] == view_symbol(self.symbols@[i as int]));
                return Option::Some(&self.symbols[i]);
            }
            proof {
                assert(pre[0] == view_symbol(self.symbols@[i as int]));
                assert(pre.subrange(1, pre.len() as int) =~= view_table(*self).subrange(
                    i + 1,
                    n as int,
                ));
            }
            i = i + 1;
        }
        proof {
            assert(view_table(*self).subrange(n as int, n as int) =~= Seq::<SpecSymbol>::empty());
        }
        Option::None
    }
}

} // verus!
