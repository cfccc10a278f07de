use vstd::prelude::*;
use vstd::string::StringExecFns;
use crate::ast::DeclarationView;
use crate::codegen::emitter_error::EmitterError;
use crate::store::Store;
use crate::text::{chars_of, replace_char, replaced, string_of};

verus! {

/// A type declaration of an Erlang module.
#[derive(Debug, PartialEq, Eq)]
pub struct ErlangType {
    pub name: String,
}

/// The text of the declaration of the type `name`.
pub open spec fn type_text(name: Seq<char>) -> Seq<char> {
    "-type "@ + name + "()."@
}

impl View for ErlangType {
    type V = Seq<char>;

    open spec fn view(&self) -> Seq<char> {
        self.name@
    }
}

impl DeepView for ErlangType {
    type V = Seq<char>;

    open spec fn deep_view(&self) -> Seq<char> {
        self@
    }
}

impl ErlangType {
    /// The declaration as Erlang source text.
    pub fn to_string(&self) -> (r: String)
        ensures
            r@ == type_text(self@),
    {
        String::from_str("-type ").concat(self.name.as_str()).concat("().")
    }
}

/// What an `ErlangModule` holds.
pub struct ErlangModuleView {
    pub name: Seq<char>,
    pub types: Seq<Seq<char>>,
}

/// The declarations of the types `names`, one to a line.
pub open spec fn type_lines(names: Seq<Seq<char>>) -> Seq<char>
    decreases names.len(),
{
    if names.len() == 0 {
        Seq::empty()
    } else {
        type_lines(names.drop_last()) + type_text(names.last()) + "\n"@
    }
}

/// The text of a module.
pub open spec fn module_text(module: ErlangModuleView) -> Seq<char> {
    "-module("@ + module.name + ").\n"@ + type_lines(module.types)
}

/// An Erlang module.
#[derive(Debug, PartialEq, Eq)]
pub struct ErlangModule {
    pub name: String,
    pub types: Vec<ErlangType>,
}

impl View for ErlangModule {
    type V = ErlangModuleView;

    open spec fn view(&self) -> ErlangModuleView {
        ErlangModuleView { name: self.name@, types: self.types.deep_view() }
    }
}

impl ErlangModule {
    /// The module as Erlang source text.
    pub fn to_string(&self) -> (r: String)
        ensures
            r@ == module_text(self@),
    {
        let mut out = String::from_str("-module(").concat(self.name.as_str()).concat(").\n");
        let ghost head = out@;
        let mut i: usize = 0;
        while i < self.types.len()
            invariant
                i <= self.types.len(),
                out@ == head + type_lines(self.types.deep_view().take(i as int)),
            decreases self.types.len() - i,
        {
            proof {
                let part = self.types.deep_view().take(i + 1);
                assert(part.drop_last() =~= self.types.deep_view().take(i as int));
            }
            out.append(self.types[i].to_string().as_str());
            out.append("\n");
            i += 1;
        }
        proof {
            assert(self.types.deep_view().take(i as int) =~= self.types.deep_view());
        }
        out
    }
}

/// The name of the type of the kind named `uri`: each `:` becomes `_` and
/// each `/` becomes `__`.
pub open spec fn name_of_type(uri: Seq<char>) -> Seq<char> {
    replaced(replaced(uri, ':', seq!['_']), '/', seq!['_', '_'])
}

/// The names of the types of the kinds, in order.
pub open spec fn types_of(kinds: Seq<DeclarationView>) -> Seq<Seq<char>> {
    kinds.map_values(|kind: DeclarationView| name_of_type(kind.name.uri))
}

/// The emitter of an Erlang module.
#[derive(Default)]
pub struct ErlangEmitter {}

impl ErlangEmitter {
    pub fn new() -> (r: ErlangEmitter) {
        ErlangEmitter {  }
    }

    /// The module `Ontology` with one type for each kind of the store.
    pub fn translate(&self, store: &Store) -> (r: Result<ErlangModule, EmitterError>)
        ensures
            r matches Ok(module) && module@ == (ErlangModuleView {
                name: "Ontology"@,
                types: types_of(store@.kinds),
            }),
    {
        let mut types: Vec<ErlangType> = Vec::new();
        let kinds = store.kinds();
        let mut i: usize = 0;
        while i < kinds.len()
            invariant
                i <= kinds.len(),
                types.len() == i,
                forall|k: int| 0 <= k < i ==> types@[k]@ == name_of_type(kinds@[k]@.name.uri),
            decreases kinds.len() - i,
        {
            let kind = kinds[i];
            let uri = chars_of(kind.name.to_string().as_str());
            let underscore = ['_'];
            let double = ['_', '_'];
            let step = replace_char(uri.as_slice(), ':', underscore.as_slice());
            let name = replace_char(step.as_slice(), '/', double.as_slice());
            proof {
                assert(underscore@ =~= seq!['_']);
            }
            types.push(ErlangType { name: string_of(name.as_slice()) });
            i += 1;
        }
        proof {
            assert(types.deep_view() =~= types_of(store@.kinds));
        }
        Ok(ErlangModule { name: String::from_str("Ontology"), types })
    }
}

} // verus!
