use vstd::prelude::*;
use vstd::string::StringExecFns;
use crate::ast::DeclarationView;
use crate::codegen::emitter_error::EmitterError;
use crate::store::Store;
use crate::text::{capitalize, capitalized, chars_of, replace_char, replaced, string_of};

verus! {

/// What a `ReScriptValue` holds.
pub enum ReScriptView {
    Module { name: Seq<char>, structure: Seq<ReScriptView> },
    Type { name: Seq<char> },
}

/// A ReScript module or type declaration.
#[derive(Debug, PartialEq, Eq)]
pub enum ReScriptValue {
    Module { name: String, structure: Vec<ReScriptValue> },
    Type { name: String },
}

impl View for ReScriptValue {
    type V = ReScriptView;

    open spec fn view(&self) -> ReScriptView
        decreases self,
    {
        match self {
            ReScriptValue::Module { name, structure } => ReScriptView::Module {
                name: name@,
                structure: Seq::new(
                    structure.len() as nat,
                    |i: int|
                        if 0 <= i < structure.len() {
                            structure[i].view()
                        } else {
                            ReScriptView::Type { name: Seq::empty() }
                        },
                ),
            },
            ReScriptValue::Type { name } => ReScriptView::Type { name: name@ },
        }
    }
}

impl DeepView for ReScriptValue {
    type V = ReScriptView;

    open spec fn deep_view(&self) -> ReScriptView {
        self@
    }
}

/// The text of a value: a type as `type` and its name; a module as its
/// head, its items one to a line behind two blanks, and a closing brace.
pub open spec fn value_text(value: ReScriptView) -> Seq<char>
    decreases value, 1nat,
{
    match value {
        ReScriptView::Module { name, structure } => "module "@ + name + " = {\n"@ + item_lines(
            structure,
        ) + "}"@,
        ReScriptView::Type { name } => "type "@ + name,
    }
}

/// The items of a module, one to a line behind two blanks.
pub open spec fn item_lines(items: Seq<ReScriptView>) -> Seq<char>
    decreases items, 0nat,
{
    if items.len() == 0 {
        Seq::empty()
    } else {
        item_lines(items.drop_last()) + "  "@ + value_text(items.last()) + "\n"@
    }
}

impl ReScriptValue {
    /// The value as ReScript source text.
    pub fn to_string(&self) -> (r: String)
        ensures
            r@ == value_text(self@),
        decreases self,
    {
        match self {
            ReScriptValue::Module { name, structure } => {
                let mut out = String::from_str("module ").concat(name.as_str()).concat(" = {\n");
                let ghost head = out@;
                let ghost items = self@->structure;
                let mut i: usize = 0;
                while i < structure.len()
                    invariant
                        i <= structure.len(),
                        items.len() == structure.len(),
                        forall|k: int| 0 <= k < structure.len() ==> items[k] == structure[k]@,
                        out@ == head + item_lines(items.take(i as int)),
                        forall|k: int|
                            0 <= k < structure.len() ==> decreases_to!(self => #[trigger] structure[k]),
                    decreases structure.len() - i,
                {
                    let ghost lines = item_lines(items.take(i as int));
                    proof {
                        let part = items.take(i + 1);
                        assert(part.drop_last() =~= items.take(i as int));
                    }
                    out.append("  ");
                    out.append(structure[i].to_string().as_str());
                    out.append("\n");
                    proof {
                        assert(out@ =~= head + (lines + "  "@ + value_text(structure[i as int]@)
                            + "\n"@));
                    }
                    i += 1;
                }
                proof {
                    assert(items.take(i as int) =~= items);
                }
                out.append("}");
                out
            },
            ReScriptValue::Type { name } => String::from_str("type ").concat(name.as_str()),
        }
    }
}

/// The name of the module of the kind named `uri`: each `:` becomes `_`,
/// each `/` becomes `__`, and the first letter becomes a capital.
pub open spec fn module_name(uri: Seq<char>) -> Seq<char> {
    capitalized(replaced(replaced(uri, ':', seq!['_']), '/', seq!['_', '_']))
}

/// The module of one kind: it declares the type `t`.
pub open spec fn module_of(kind: DeclarationView) -> ReScriptView {
    ReScriptView::Module {
        name: module_name(kind.name.uri),
        structure: seq![ReScriptView::Type { name: "t"@ }],
    }
}

/// The module `Ontology` with one module for each of the kinds, in order.
pub open spec fn ontology_of(kinds: Seq<DeclarationView>) -> ReScriptView {
    ReScriptView::Module {
        name: "Ontology"@,
        structure: kinds.map_values(|kind: DeclarationView| module_of(kind)),
    }
}

/// The emitter of a ReScript module.
#[derive(Default)]
pub struct ReScriptEmitter {}

impl ReScriptEmitter {
    pub fn new() -> (r: ReScriptEmitter) {
        ReScriptEmitter {  }
    }

    /// The module `Ontology` with one module for each kind of the store.
    pub fn translate(&self, store: &Store) -> (r: Result<ReScriptValue, EmitterError>)
        ensures
            r matches Ok(value) && value@ == ontology_of(store@.kinds),
    {
        let mut structure: Vec<ReScriptValue> = Vec::new();
        let kinds = store.kinds();
        let mut i: usize = 0;
        while i < kinds.len()
            invariant
                i <= kinds.len(),
                structure.len() == i,
                forall|k: int| 0 <= k < i ==> structure@[k]@ == module_of(kinds@[k]@),
            decreases kinds.len() - i,
        {
            let kind = kinds[i];
            let uri = chars_of(kind.name.to_string().as_str());
            let underscore = ['_'];
            let double = ['_', '_'];
            let step = replace_char(uri.as_slice(), ':', underscore.as_slice());
            let mut name = replace_char(step.as_slice(), '/', double.as_slice());
            capitalize(&mut name);
            proof {
                assert(underscore@ =~= seq!['_']);
            }

            let mut inner: Vec<ReScriptValue> = Vec::new();
            inner.push(ReScriptValue::Type { name: String::from_str("t") });
            proof {
                assert(inner@[0]@ == ReScriptView::Type { name: "t"@ });
            }
            let module = ReScriptValue::Module { name: string_of(name.as_slice()), structure: inner };
            proof {
                assert(module@->structure =~= seq![ReScriptView::Type { name: "t"@ }]);
            }
            structure.push(module);
            i += 1;
        }
        let value = ReScriptValue::Module { name: String::from_str("Ontology"), structure };
        proof {
            assert(value@->structure =~= kinds.deep_view().map_values(
                |kind: DeclarationView| module_of(kind),
            ));
        }
        Ok(value)
    }
}

} // verus!
