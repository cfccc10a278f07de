use vstd::prelude::*;
use vstd::string::StringExecFns;
use crate::ast::DeclarationView;
use crate::codegen::emitter_error::EmitterError;
use crate::store::Store;
use crate::text::{capitalize, capitalized, chars_of, replace_char, replaced, string_of};

verus! {

/// A type declaration of an Elixir module.
#[derive(Debug, PartialEq, Eq)]
pub struct ElixirType {
    pub name: String,
}

/// The text of the declaration of the type `name`.
pub open spec fn type_text(name: Seq<char>) -> Seq<char> {
    "@type "@ + name + "()"@
}

impl View for ElixirType {
    type V = Seq<char>;

    open spec fn view(&self) -> Seq<char> {
        self.name@
    }
}

impl DeepView for ElixirType {
    type V = Seq<char>;

    open spec fn deep_view(&self) -> Seq<char> {
        self@
    }
}

impl Clone for ElixirType {
    fn clone(&self) -> (r: Self)
        ensures
            r@ == self@,
    {
        ElixirType { name: self.name.clone() }
    }
}

impl ElixirType {
    /// The declaration as Elixir source text.
    pub fn to_string(&self) -> (r: String)
        ensures
            r@ == type_text(self@),
    {
        String::from_str("@type ").concat(self.name.as_str()).concat("()")
    }
}

/// What an `ElixirModule` holds.
pub struct ElixirModuleView {
    pub name: Seq<char>,
    pub types: Seq<Seq<char>>,
}

/// The declarations of the types `names`, one to a line.
pub open spec fn type_lines(names: Seq<Seq<char>>) -> Seq<char>
    decreases names.len(),
{
    if names.len() == 0 {
        Seq::empty()
    } else {
        type_lines(names.drop_last()) + type_text(names.last()) + "\n"@
    }
}

/// The text of a module.
pub open spec fn module_text(module: ElixirModuleView) -> Seq<char> {
    "defmodule "@ + module.name + " do\n"@ + type_lines(module.types) + "end"@
}

/// An Elixir module.
#[derive(Debug, PartialEq, Eq)]
pub struct ElixirModule {
    pub name: String,
    pub types: Vec<ElixirType>,
}

impl View for ElixirModule {
    type V = ElixirModuleView;

    open spec fn view(&self) -> ElixirModuleView {
        ElixirModuleView { name: self.name@, types: self.types.deep_view() }
    }
}

impl DeepView for ElixirModule {
    type V = ElixirModuleView;

    open spec fn deep_view(&self) -> ElixirModuleView {
        self@
    }
}

impl ElixirModule {
    /// The module as Elixir source text.
    pub fn to_string(&self) -> (r: String)
        ensures
            r@ == module_text(self@),
    {
        let mut out = String::from_str("defmodule ").concat(self.name.as_str()).concat(" do\n");
        let ghost head = out@;
        let mut i: usize = 0;
        while i < self.types.len()
            invariant
                i <= self.types.len(),
                out@ == head + type_lines(self.types.deep_view().take(i as int)),
            decreases self.types.len() - i,
        {
            proof {
                let part = self.types.deep_view().take(i + 1);
                assert(part.drop_last() =~= self.types.deep_view().take(i as int));
            }
            out.append(self.types[i].to_string().as_str());
            out.append("\n");
            i += 1;
        }
        proof {
            assert(self.types.deep_view().take(i as int) =~= self.types.deep_view());
        }
        out.append("end");
        out
    }
}

/// The texts of the modules `modules`, each followed by a line feed.
pub open spec fn lib_text(modules: Seq<ElixirModuleView>) -> Seq<char>
    decreases modules.len(),
{
    if modules.len() == 0 {
        Seq::empty()
    } else {
        lib_text(modules.drop_last()) + module_text(modules.last()) + "\n"@
    }
}

/// The modules of an Elixir library.
#[derive(Debug, PartialEq, Eq)]
pub struct ElixirLib {
    pub modules: Vec<ElixirModule>,
}

impl View for ElixirLib {
    type V = Seq<ElixirModuleView>;

    open spec fn view(&self) -> Seq<ElixirModuleView> {
        self.modules.deep_view()
    }
}

impl ElixirLib {
    /// The library as Elixir source text.
    pub fn to_string(&self) -> (r: String)
        ensures
            r@ == lib_text(self@),
    {
        let mut out = String::new();
        let mut i: usize = 0;
        while i < self.modules.len()
            invariant
                i <= self.modules.len(),
                out@ == lib_text(self.modules.deep_view().take(i as int)),
            decreases self.modules.len() - i,
        {
            proof {
                let part = self.modules.deep_view().take(i + 1);
                assert(part.drop_last() =~= self.modules.deep_view().take(i as int));
            }
            out.append(self.modules[i].to_string().as_str());
            out.append("\n");
            i += 1;
        }
        proof {
            assert(self.modules.deep_view().take(i as int) =~= self.modules.deep_view());
        }
        out
    }
}

/// The name of the module of the kind named `uri`: each `:` becomes `_`,
/// each `/` becomes `.`, and the first letter becomes a capital.
pub open spec fn module_name(uri: Seq<char>) -> Seq<char> {
    capitalized(replaced(replaced(uri, ':', seq!['_']), '/', seq!['.']))
}

/// The module of one kind: it declares the type `t`.
pub open spec fn module_of(kind: DeclarationView) -> ElixirModuleView {
    ElixirModuleView { name: module_name(kind.name.uri), types: seq!["t"@] }
}

/// The modules of the kinds, in order.
pub open spec fn modules_of(kinds: Seq<DeclarationView>) -> Seq<ElixirModuleView> {
    kinds.map_values(|kind: DeclarationView| module_of(kind))
}

/// The emitter of Elixir modules.
#[derive(Default)]
pub struct ElixirEmitter {}

impl ElixirEmitter {
    pub fn new() -> (r: ElixirEmitter) {
        ElixirEmitter {  }
    }

    /// One module for each kind of the store.
    pub fn translate(&self, store: &Store) -> (r: Result<ElixirLib, EmitterError>)
        ensures
            r matches Ok(lib) && lib@ == modules_of(store@.kinds),
    {
        let mut modules: Vec<ElixirModule> = Vec::new();
        let kinds = store.kinds();
        let mut i: usize = 0;
        while i < kinds.len()
            invariant
                i <= kinds.len(),
                modules.len() == i,
                forall|k: int| 0 <= k < i ==> modules@[k]@ == module_of(kinds@[k]@),
            decreases kinds.len() - i,
        {
            let kind = kinds[i];
            let uri = chars_of(kind.name.to_string().as_str());
            let underscore = ['_'];
            let dot = ['.'];
            let step = replace_char(uri.as_slice(), ':', underscore.as_slice());
            let mut name = replace_char(step.as_slice(), '/', dot.as_slice());
            capitalize(&mut name);
            proof {
                assert(underscore@ =~= seq!['_']);
                assert(dot@ =~= seq!['.']);
            }

            let mut types: Vec<ElixirType> = Vec::new();
            types.push(ElixirType { name: String::from_str("t") });
            proof {
                assert(types.deep_view() =~= seq!["t"@]);
            }
            modules.push(ElixirModule { name: string_of(name.as_slice()), types });
            i += 1;
        }
        Ok(ElixirLib { modules })
    }
}

} // verus!
